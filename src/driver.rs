//! The serial driver and the session through which every call on it is made.
//!
//! `Port` is the driver: open a bus, configure it, set a timeout, write,
//! flush, read, sleep, close. A `Session` holds a port for the duration of one
//! exchange and keeps a record of every call it made on it, in order, with
//! the answer each call gave.
use vstd::prelude::*;
use std::time::Duration;
use crate::error::UartResult;
use crate::protocol::{reply_of, Reply};

verus! {

/// A call on a serial driver, as the model sees it.
pub enum Call {
    Open(Seq<char>),
    Configure(serial::PortSettings),
    SetTimeout(Duration),
    WriteAll(Seq<u8>),
    Flush,
    Sleep(Duration),
    ReadExact(nat),
    Read(nat),
}

/// Model of an answer with no payload: success reads no bytes.
pub open spec fn unit_reply(r: UartResult<()>) -> Reply {
    match r {
        Ok(_) => Ok(seq![]),
        Err(e) => Err(e),
    }
}

/// The primitives of a serial driver. Each call returns the driver's error,
/// already normalized into a `UartError`. What a driver answers is its own
/// business; `answers` names it, and each fallible primitive states that its
/// result is such an answer to the call it was given.
pub trait Port {
    /// `reply` is an answer this driver gives to `call`.
    closed spec fn answers(&self, call: Call, reply: Reply) -> bool {
        true
    }

    /// Opens the bus at this path; fails with `PortBusy` or a driver error.
    fn open(&self, bus: &str) -> (r: UartResult<()>)
        ensures
            self.answers(Call::Open(bus@), unit_reply(r)),
    ;

    /// Applies the settings to the open port.
    fn configure(&self, settings: &serial::PortSettings) -> (r: UartResult<()>)
        ensures
            self.answers(Call::Configure(*settings), unit_reply(r)),
    ;

    /// Sets the timeout of later reads and writes.
    fn set_timeout(&self, timeout: Duration) -> (r: UartResult<()>)
        ensures
            self.answers(Call::SetTimeout(timeout), unit_reply(r)),
    ;

    /// Writes every byte of `data`.
    fn write_all(&self, data: &[u8]) -> (r: UartResult<()>)
        ensures
            self.answers(Call::WriteAll(data@), unit_reply(r)),
    ;

    /// Flushes what was written.
    fn flush(&self) -> (r: UartResult<()>)
        ensures
            self.answers(Call::Flush, unit_reply(r)),
    ;

    /// Reads exactly `len` bytes.
    fn read_exact(&self, len: usize) -> (r: UartResult<Vec<u8>>)
        ensures
            self.answers(Call::ReadExact(len as nat), reply_of(r)),
    ;

    /// Reads what has arrived, at most `len` bytes.
    fn read(&self, len: usize) -> (r: UartResult<Vec<u8>>)
        ensures
            self.answers(Call::Read(len as nat), reply_of(r)),
    ;

    /// Blocks the calling thread for `duration`; this cannot fail.
    fn sleep(&self, duration: Duration);

    /// Releases the port, whether the exchange succeeded or not.
    fn close(&self);
}

/// `reply` is what `port` gave for `call`: an answer of the driver, or, for
/// the delay, which cannot fail, success with no bytes.
pub open spec fn answered<P: Port>(port: P, call: Call, reply: Reply) -> bool {
    match call {
        Call::Sleep(_) => reply == Ok::<Seq<u8>, crate::error::UartError>(seq![]),
        _ => port.answers(call, reply),
    }
}

/// The calls made on a port during one exchange, each with its answer.
pub type Record = Seq<(Call, Reply)>;

/// One exchange on a port: every call goes through here and is recorded.
pub struct Session<'a, P: Port> {
    port: &'a P,
    record: Ghost<Record>,
}

impl<'a, P: Port> Session<'a, P> {
    /// The port the session drives.
    pub closed spec fn port(&self) -> P {
        *self.port
    }

    /// The calls made so far, in order, with their answers.
    pub closed spec fn record(&self) -> Record {
        self.record@
    }

    /// A session on `port` in which nothing has been called yet.
    pub fn new(port: &'a P) -> (r: Self)
        ensures
            r.port() == *port,
            r.record() == Seq::<(Call, Reply)>::empty(),
    {
        Session { port, record: Ghost(Seq::empty()) }
    }

    /// Opens `bus`.
    pub fn open(&mut self, bus: &str) -> (r: UartResult<()>)
        ensures
            final(self).port() == old(self).port(),
            final(self).record() == old(self).record().push((Call::Open(bus@), unit_reply(r))),
            answered(old(self).port(), Call::Open(bus@), unit_reply(r)),
    {
        let r = self.port.open(bus);
        self.record = Ghost(self.record@.push((Call::Open(bus@), unit_reply(r))));
        r
    }

    /// Applies `settings`.
    pub fn configure(&mut self, settings: &serial::PortSettings) -> (r: UartResult<()>)
        ensures
            final(self).port() == old(self).port(),
            final(self).record() == old(self).record().push(
                (Call::Configure(*settings), unit_reply(r)),
            ),
            answered(old(self).port(), Call::Configure(*settings), unit_reply(r)),
    {
        let r = self.port.configure(settings);
        self.record = Ghost(self.record@.push((Call::Configure(*settings), unit_reply(r))));
        r
    }

    /// Sets the timeout.
    pub fn set_timeout(&mut self, timeout: Duration) -> (r: UartResult<()>)
        ensures
            final(self).port() == old(self).port(),
            final(self).record() == old(self).record().push(
                (Call::SetTimeout(timeout), unit_reply(r)),
            ),
            answered(old(self).port(), Call::SetTimeout(timeout), unit_reply(r)),
    {
        let r = self.port.set_timeout(timeout);
        self.record = Ghost(self.record@.push((Call::SetTimeout(timeout), unit_reply(r))));
        r
    }

    /// Writes all of `data`.
    pub fn write_all(&mut self, data: &[u8]) -> (r: UartResult<()>)
        ensures
            final(self).port() == old(self).port(),
            final(self).record() == old(self).record().push((Call::WriteAll(data@), unit_reply(r))),
            answered(old(self).port(), Call::WriteAll(data@), unit_reply(r)),
    {
        let r = self.port.write_all(data);
        self.record = Ghost(self.record@.push((Call::WriteAll(data@), unit_reply(r))));
        r
    }

    /// Flushes.
    pub fn flush(&mut self) -> (r: UartResult<()>)
        ensures
            final(self).port() == old(self).port(),
            final(self).record() == old(self).record().push((Call::Flush, unit_reply(r))),
            answered(old(self).port(), Call::Flush, unit_reply(r)),
    {
        let r = self.port.flush();
        self.record = Ghost(self.record@.push((Call::Flush, unit_reply(r))));
        r
    }

    /// Reads exactly `len` bytes.
    pub fn read_exact(&mut self, len: usize) -> (r: UartResult<Vec<u8>>)
        ensures
            final(self).port() == old(self).port(),
            final(self).record() == old(self).record().push(
                (Call::ReadExact(len as nat), reply_of(r)),
            ),
            answered(old(self).port(), Call::ReadExact(len as nat), reply_of(r)),
    {
        let r = self.port.read_exact(len);
        self.record = Ghost(self.record@.push((Call::ReadExact(len as nat), reply_of(r))));
        r
    }

    /// Reads what has arrived, at most `len` bytes.
    pub fn read(&mut self, len: usize) -> (r: UartResult<Vec<u8>>)
        ensures
            final(self).port() == old(self).port(),
            final(self).record() == old(self).record().push((Call::Read(len as nat), reply_of(r))),
            answered(old(self).port(), Call::Read(len as nat), reply_of(r)),
    {
        let r = self.port.read(len);
        self.record = Ghost(self.record@.push((Call::Read(len as nat), reply_of(r))));
        r
    }

    /// Sleeps for `duration`.
    pub fn sleep(&mut self, duration: Duration)
        ensures
            final(self).port() == old(self).port(),
            final(self).record() == old(self).record().push(
                (Call::Sleep(duration), Ok::<Seq<u8>, crate::error::UartError>(seq![])),
            ),
    {
        self.port.sleep(duration);
        self.record = Ghost(
            self.record@.push((Call::Sleep(duration), Ok::<Seq<u8>, crate::error::UartError>(seq![]))),
        );
    }

    /// Releases the port; the record is kept.
    pub fn close(&mut self)
        ensures
            final(self).port() == old(self).port(),
            final(self).record() == old(self).record(),
    {
        self.port.close();
    }
}

} // verus!
