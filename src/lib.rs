//! A hardware-abstraction layer for talking to a peripheral over a serial link.
//!
//! The crate is organised in four layers:
//! - [`error`]: the closed error taxonomy that every operation reports;
//! - [`protocol`]: the exchange that each stream operation performs on a port
//!   (open, configure, set a timeout, write, settle, read), as a verified
//!   state machine with its mathematical model;
//! - [`driver`]: the serial driver (`Port`) and the `Session` through which
//!   every call on it is made and recorded;
//! - [`stream`]: the stream capability, the port-backed realization that
//!   drives the exchange, and the `Connection` facade that callers hold.
use vstd::prelude::*;

pub mod driver;
pub mod error;
pub mod protocol;
pub mod stream;

pub use crate::error::{SerialErrorKind, UartError, UartResult};
pub use crate::protocol::{Action, Exchange, Operation};
pub use crate::driver::{Call, Port, Session};
pub use crate::stream::{Connection, SerialStream, Stream};
pub use serial::PortSettings;
