use std::cell::RefCell;
use std::rc::Rc;
use std::time::Duration;

use uart::{
    Action, Connection, Exchange, Operation, Port, SerialErrorKind, SerialStream, Stream, UartError,
    UartResult,
};

#[derive(Debug, Clone, PartialEq)]
enum Call {
    Open(String),
    Configure,
    SetTimeout(Duration),
    WriteAll(Vec<u8>),
    Flush,
    Sleep(Duration),
    ReadExact(usize),
    Read(usize),
    Close,
}

/// A port double that records every call and answers from a script.
struct RecordingPort {
    calls: Rc<RefCell<Vec<Call>>>,
    open_error: Option<UartError>,
    /// Fail the write with this 1-based number, with this error.
    failing_write: Option<(usize, UartError)>,
    writes: RefCell<usize>,
    read_answer: UartResult<Vec<u8>>,
}

impl RecordingPort {
    fn new(calls: Rc<RefCell<Vec<Call>>>) -> RecordingPort {
        RecordingPort {
            calls,
            open_error: None,
            failing_write: None,
            writes: RefCell::new(0),
            read_answer: Ok(Vec::new()),
        }
    }
}

impl Port for RecordingPort {
    fn open(&self, bus: &str) -> UartResult<()> {
        self.calls.borrow_mut().push(Call::Open(bus.to_string()));
        match self.open_error {
            Some(e) => Err(e),
            None => Ok(()),
        }
    }

    fn configure(&self, _settings: &serial::PortSettings) -> UartResult<()> {
        self.calls.borrow_mut().push(Call::Configure);
        Ok(())
    }

    fn set_timeout(&self, timeout: Duration) -> UartResult<()> {
        self.calls.borrow_mut().push(Call::SetTimeout(timeout));
        Ok(())
    }

    fn write_all(&self, data: &[u8]) -> UartResult<()> {
        self.calls.borrow_mut().push(Call::WriteAll(data.to_vec()));
        let n = *self.writes.borrow() + 1;
        *self.writes.borrow_mut() = n;
        match self.failing_write {
            Some((k, e)) if k == n => Err(e),
            _ => Ok(()),
        }
    }

    fn flush(&self) -> UartResult<()> {
        self.calls.borrow_mut().push(Call::Flush);
        Ok(())
    }

    fn read_exact(&self, len: usize) -> UartResult<Vec<u8>> {
        self.calls.borrow_mut().push(Call::ReadExact(len));
        self.read_answer.clone()
    }

    fn read(&self, len: usize) -> UartResult<Vec<u8>> {
        self.calls.borrow_mut().push(Call::Read(len));
        self.read_answer.clone()
    }

    fn sleep(&self, duration: Duration) {
        self.calls.borrow_mut().push(Call::Sleep(duration));
    }

    fn close(&self) {
        self.calls.borrow_mut().push(Call::Close);
    }
}

/// A stream double: writes answer `write_answer`, reads answer `read_answer`.
struct ScriptedStream {
    write_answer: UartResult<()>,
    read_answer: UartResult<Vec<u8>>,
    written: Rc<RefCell<Vec<Vec<u8>>>>,
}

impl Stream for ScriptedStream {
    fn write(&self, data: Vec<u8>) -> UartResult<()> {
        self.written.borrow_mut().push(data);
        self.write_answer
    }

    fn write_bytes(&self, data: Vec<u8>) -> UartResult<()> {
        self.written.borrow_mut().push(data);
        self.write_answer
    }

    fn read(&self, data: &mut Vec<u8>, _len: usize) -> UartResult<Vec<u8>> {
        if let Ok(bytes) = &self.read_answer {
            *data = bytes.clone();
        }
        self.read_answer.clone()
    }

    fn read_timeout(&self, data: &mut Vec<u8>, len: usize, _timeout: Duration) -> UartResult<Vec<u8>> {
        self.read(data, len)
    }

    fn transfer(&self, data: Vec<u8>, _len: usize, _timeout: Duration) -> UartResult<Vec<u8>> {
        self.written.borrow_mut().push(data);
        self.read_answer.clone()
    }
}

fn settings() -> uart::PortSettings {
    uart::PortSettings {
        baud_rate: serial::Baud115200,
        char_size: serial::Bits8,
        parity: serial::ParityNone,
        stop_bits: serial::Stop1,
        flow_control: serial::FlowNone,
    }
}

fn ms(n: u64) -> Duration {
    Duration::from_millis(n)
}

fn serial_connection(port: RecordingPort) -> Connection<SerialStream<RecordingPort>> {
    Connection::from_path("/dev/ttyS1", settings(), ms(5), port)
}

#[test]
fn conversions_keep_the_driver_kind() {
    assert_eq!(
        UartError::from(SerialErrorKind::NoDevice),
        UartError::SerialError(SerialErrorKind::NoDevice)
    );
    assert_eq!(
        UartError::from(SerialErrorKind::InvalidInput),
        UartError::SerialError(SerialErrorKind::InvalidInput)
    );
    assert_eq!(
        UartError::from(std::io::ErrorKind::TimedOut),
        UartError::SerialError(SerialErrorKind::Io(std::io::ErrorKind::TimedOut))
    );
    assert_ne!(
        UartError::from(std::io::ErrorKind::NotFound),
        UartError::SerialError(SerialErrorKind::Io(std::io::ErrorKind::PermissionDenied))
    );
}

#[test]
fn mock_round_trip_through_connection() {
    for b in [vec![], vec![7u8], vec![0x01, 0x02, 0xfe, 0xff]] {
        let written = Rc::new(RefCell::new(Vec::new()));
        let conn = Connection::new(ScriptedStream {
            write_answer: Ok(()),
            read_answer: Ok(b.clone()),
            written: written.clone(),
        });
        assert_eq!(conn.write(&b), Ok(()));
        assert_eq!(conn.read(b.len(), ms(10)), Ok(b.clone()));
        assert_eq!(*written.borrow(), vec![b.clone()]);
    }
}

#[test]
fn serial_round_trip_through_connection() {
    let b = vec![0x10u8, 0x20, 0x30];
    let calls = Rc::new(RefCell::new(Vec::new()));
    let mut port = RecordingPort::new(calls.clone());
    port.read_answer = Ok(b.clone());
    let conn = serial_connection(port);
    assert_eq!(conn.write(&b), Ok(()));
    assert_eq!(conn.read(3, ms(10)), Ok(b.clone()));
    assert_eq!(
        *calls.borrow(),
        vec![
            Call::Open("/dev/ttyS1".to_string()),
            Call::Configure,
            Call::SetTimeout(ms(5)),
            Call::WriteAll(b.clone()),
            Call::Close,
            Call::Open("/dev/ttyS1".to_string()),
            Call::Configure,
            Call::SetTimeout(ms(10)),
            Call::ReadExact(3),
            Call::Close,
        ]
    );
}

#[test]
fn write_bytes_stops_at_the_failing_byte() {
    let calls = Rc::new(RefCell::new(Vec::new()));
    let mut port = RecordingPort::new(calls.clone());
    let failure = UartError::SerialError(SerialErrorKind::Io(std::io::ErrorKind::BrokenPipe));
    port.failing_write = Some((3, failure));
    let conn = serial_connection(port);
    assert_eq!(conn.write_bytes(&[1, 2, 3, 4, 5]), Err(failure));
    assert_eq!(
        *calls.borrow(),
        vec![
            Call::Open("/dev/ttyS1".to_string()),
            Call::Configure,
            Call::SetTimeout(ms(5)),
            Call::WriteAll(vec![1]),
            Call::Flush,
            Call::WriteAll(vec![2]),
            Call::Flush,
            Call::WriteAll(vec![3]),
            Call::Close,
        ]
    );
}

#[test]
fn write_bytes_writes_each_byte_then_flushes() {
    let calls = Rc::new(RefCell::new(Vec::new()));
    let conn = serial_connection(RecordingPort::new(calls.clone()));
    assert_eq!(conn.write_bytes(&[9, 8]), Ok(()));
    assert_eq!(
        calls.borrow()[3..].to_vec(),
        vec![Call::WriteAll(vec![9]), Call::Flush, Call::WriteAll(vec![8]), Call::Flush, Call::Close]
    );
}

#[test]
fn write_bytes_of_nothing_only_opens_and_configures() {
    let calls = Rc::new(RefCell::new(Vec::new()));
    let conn = serial_connection(RecordingPort::new(calls.clone()));
    assert_eq!(conn.write_bytes(&[]), Ok(()));
    assert_eq!(
        *calls.borrow(),
        vec![
            Call::Open("/dev/ttyS1".to_string()),
            Call::Configure,
            Call::SetTimeout(ms(5)),
            Call::Close,
        ]
    );
}

#[test]
fn transfer_writes_sleeps_then_reads() {
    let calls = Rc::new(RefCell::new(Vec::new()));
    let mut port = RecordingPort::new(calls.clone());
    port.read_answer = Ok(vec![0xaa, 0xbb]);
    let conn = serial_connection(port);
    let t = ms(40);
    let r = conn.transfer(&[0x01, 0x02], 4, t);
    assert_eq!(r, Ok(vec![0xaa, 0xbb]));
    assert!(r.unwrap().len() <= 4);
    assert_eq!(
        *calls.borrow(),
        vec![
            Call::Open("/dev/ttyS1".to_string()),
            Call::Configure,
            Call::SetTimeout(t),
            Call::WriteAll(vec![0x01, 0x02]),
            Call::Sleep(t),
            Call::Read(4),
            Call::Close,
        ]
    );
}

#[test]
fn transfer_keeps_at_most_len_bytes() {
    let calls = Rc::new(RefCell::new(Vec::new()));
    let mut port = RecordingPort::new(calls.clone());
    port.read_answer = Ok(vec![1, 2, 3, 4, 5, 6]);
    let conn = serial_connection(port);
    assert_eq!(conn.transfer(&[0x01], 4, ms(1)), Ok(vec![1, 2, 3, 4]));
}

#[test]
fn transfer_with_nothing_read_is_not_an_error() {
    let calls = Rc::new(RefCell::new(Vec::new()));
    let mut port = RecordingPort::new(calls.clone());
    port.read_answer = Err(UartError::SerialError(SerialErrorKind::Io(std::io::ErrorKind::TimedOut)));
    let conn = serial_connection(port);
    assert_eq!(conn.transfer(&[0x01], 4, ms(1)), Ok(vec![]));
}

#[test]
fn transfer_fails_when_the_write_fails() {
    let calls = Rc::new(RefCell::new(Vec::new()));
    let mut port = RecordingPort::new(calls.clone());
    port.failing_write = Some((1, UartError::GenericError));
    let conn = serial_connection(port);
    assert_eq!(conn.transfer(&[0x01, 0x02], 4, ms(1)), Err(UartError::GenericError));
    assert!(!calls.borrow().iter().any(|c| matches!(c, Call::Sleep(_) | Call::Read(_))));
}

#[test]
fn read_timeout_surfaces_the_driver_error() {
    let timed_out = UartError::SerialError(SerialErrorKind::Io(std::io::ErrorKind::TimedOut));
    let calls = Rc::new(RefCell::new(Vec::new()));
    let mut port = RecordingPort::new(calls.clone());
    port.read_answer = Err(timed_out);
    let conn = serial_connection(port);
    assert_eq!(conn.read(10, ms(3)), Err(timed_out));

    let stream_conn = Connection::new(ScriptedStream {
        write_answer: Ok(()),
        read_answer: Err(timed_out),
        written: Rc::new(RefCell::new(Vec::new())),
    });
    assert_eq!(stream_conn.read(10, ms(3)), Err(timed_out));
}

#[test]
fn short_exact_read_is_an_error() {
    let calls = Rc::new(RefCell::new(Vec::new()));
    let mut port = RecordingPort::new(calls.clone());
    port.read_answer = Ok(vec![1, 2, 3]);
    let conn = serial_connection(port);
    assert_eq!(conn.read(10, ms(3)), Err(UartError::GenericError));
}

#[test]
fn read_under_the_current_timeout_sets_none() {
    let calls = Rc::new(RefCell::new(Vec::new()));
    let mut port = RecordingPort::new(calls.clone());
    port.read_answer = Ok(vec![4, 5]);
    let stream = SerialStream::new("/dev/ttyUSB0", settings(), ms(5), port);
    let mut buffer = vec![0u8; 2];
    assert_eq!(stream.read(&mut buffer, 2), Ok(vec![4, 5]));
    assert_eq!(buffer, vec![4, 5]);
    assert_eq!(
        *calls.borrow(),
        vec![
            Call::Open("/dev/ttyUSB0".to_string()),
            Call::Configure,
            Call::ReadExact(2),
            Call::Close,
        ]
    );
}

#[test]
fn port_busy_from_write_is_passed_on() {
    let stream_conn = Connection::new(ScriptedStream {
        write_answer: Err(UartError::PortBusy),
        read_answer: Ok(vec![]),
        written: Rc::new(RefCell::new(Vec::new())),
    });
    assert_eq!(stream_conn.write(&[1, 2]), Err(UartError::PortBusy));

    let calls = Rc::new(RefCell::new(Vec::new()));
    let mut port = RecordingPort::new(calls.clone());
    port.failing_write = Some((1, UartError::PortBusy));
    let conn = serial_connection(port);
    assert_eq!(conn.write(&[1, 2]), Err(UartError::PortBusy));
}

#[test]
fn failed_open_stops_the_exchange() {
    let calls = Rc::new(RefCell::new(Vec::new()));
    let mut port = RecordingPort::new(calls.clone());
    port.open_error = Some(UartError::PortBusy);
    let conn = serial_connection(port);
    assert_eq!(conn.write(&[1]), Err(UartError::PortBusy));
    assert_eq!(
        *calls.borrow(),
        vec![Call::Open("/dev/ttyS1".to_string()), Call::Close]
    );
}

#[test]
fn exchange_driven_by_hand() {
    let mut ex = Exchange::new(Operation::Transfer { data: vec![3], len: 2, timeout: ms(7) });
    let mut seen = Vec::new();
    while !ex.is_finished() {
        let action = ex.next_action();
        let reply = match action {
            Action::Open => "open",
            Action::Configure => "configure",
            Action::SetTimeout(_) => "timeout",
            Action::WriteAll(_) => "write",
            Action::Flush => "flush",
            Action::Sleep(_) => "sleep",
            Action::ReadExact(_) => "read_exact",
            Action::ReadUpTo(_) => "read",
        };
        seen.push(reply);
        let answer = if reply == "read" { Ok(vec![1, 2, 3]) } else { Ok(vec![]) };
        ex.feed(answer);
    }
    assert_eq!(seen, vec!["open", "configure", "timeout", "write", "sleep", "read"]);
    assert_eq!(ex.outcome(), Ok(vec![1, 2]));
}

#[test]
fn error_messages() {
    assert_eq!(UartError::GenericError.message(), "Generic Error");
    assert_eq!(UartError::PortBusy.message(), "Serial port already in-use");
    assert_eq!(
        UartError::SerialError(SerialErrorKind::NoDevice).message(),
        "Serial Error"
    );
}

#[test]
fn failed_read_leaves_the_buffer_alone() {
    let calls = Rc::new(RefCell::new(Vec::new()));
    let mut port = RecordingPort::new(calls.clone());
    port.read_answer = Err(UartError::PortBusy);
    let stream = SerialStream::new("/dev/ttyUSB0", settings(), ms(5), port);
    let mut buffer = vec![7u8, 7];
    assert_eq!(stream.read_timeout(&mut buffer, 2, ms(1)), Err(UartError::PortBusy));
    assert_eq!(buffer, vec![7, 7]);
}
