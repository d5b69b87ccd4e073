//! The stream capability, its port-backed realization, and the `Connection`
//! facade.
//!
//! `SerialStream` keeps the bus, the settings and the default timeout fixed,
//! and runs the exchange of each operation on a fresh open of its driver,
//! through a `Session` that records every call; its contracts state that
//! record. `Connection` owns one object with the `Stream`
//! capability and hands every call to it unchanged.
use vstd::prelude::*;
use std::time::Duration;
use crate::error::{UartError, UartResult};
use crate::driver::{answered, unit_reply, Call, Port, Record, Session};
use crate::protocol::{
    complete, lemma_read_exact, lemma_read_exact_default, lemma_transfer,
    lemma_write_bytes_fail_fast, lemma_writes_read_nothing, outcome, plan, reply_of, byte_steps,
    Action, Exchange, Operation, Reply, Request, Step,
};

verus! {

/// Serial port settings (baud rate, character size, parity, stop bits, flow
/// control), passed to the port unchanged.
#[verifier::external_type_specification]
#[verifier::external_body]
pub struct ExPortSettings(serial::PortSettings);

/// The capability that every communication channel offers: the port-backed
/// `SerialStream`, or a double used in place of the hardware. Each operation
/// states that its result is the stream's answer to that operation, which the
/// stream names by a spec function.
pub trait Stream {
    /// `r` is an answer of this stream to writing `data`.
    closed spec fn write_answer(&self, data: Seq<u8>, r: UartResult<()>) -> bool {
        true
    }

    /// `r` is an answer of this stream to writing `data` byte by byte.
    closed spec fn write_bytes_answer(&self, data: Seq<u8>, r: UartResult<()>) -> bool {
        true
    }

    /// `r` is an answer of this stream to an exact read of `len` bytes into
    /// `buffer`, under the current timeout.
    closed spec fn read_answer(&self, buffer: Seq<u8>, len: nat, r: Reply) -> bool {
        true
    }

    /// `r` is an answer of this stream to an exact read of `len` bytes into
    /// `buffer`, under `timeout`.
    closed spec fn read_timeout_answer(&self, buffer: Seq<u8>, len: nat, timeout: Duration, r: Reply) -> bool {
        true
    }

    /// `r` is an answer of this stream to a transfer of `data` followed by a
    /// read of up to `len` bytes, after a delay of `timeout`.
    closed spec fn transfer_answer(&self, data: Seq<u8>, len: nat, timeout: Duration, r: Reply) -> bool {
        true
    }

    /// Writes the whole byte sequence.
    fn write(&self, data: Vec<u8>) -> (r: UartResult<()>)
        ensures
            self.write_answer(data@, r),
    ;

    /// Writes the bytes one at a time, flushing after each, and stops at the
    /// first byte that fails.
    fn write_bytes(&self, data: Vec<u8>) -> (r: UartResult<()>)
        ensures
            self.write_bytes_answer(data@, r),
    ;

    /// Reads exactly `len` bytes into `data`, under the port's current timeout.
    /// On failure `data` is left as it was.
    fn read(&self, data: &mut Vec<u8>, len: usize) -> (r: UartResult<Vec<u8>>)
        ensures
            self.read_answer(old(data)@, len as nat, reply_of(r)),
            r is Ok ==> r->Ok_0@.len() == len && final(data)@ == r->Ok_0@,
            r is Err ==> final(data)@ == old(data)@,
    ;

    /// Reads exactly `len` bytes into `data`, under `timeout`. On failure
    /// `data` is left as it was.
    fn read_timeout(&self, data: &mut Vec<u8>, len: usize, timeout: Duration) -> (r: UartResult<
        Vec<u8>,
    >)
        ensures
            self.read_timeout_answer(old(data)@, len as nat, timeout, reply_of(r)),
            r is Ok ==> r->Ok_0@.len() == len && final(data)@ == r->Ok_0@,
            r is Err ==> final(data)@ == old(data)@,
    ;

    /// Writes `data`, waits for `timeout`, then reads what arrived, at most
    /// `len` bytes.
    fn transfer(&self, data: Vec<u8>, len: usize, timeout: Duration) -> (r: UartResult<Vec<u8>>)
        ensures
            self.transfer_answer(data@, len as nat, timeout, reply_of(r)),
            r is Ok ==> r->Ok_0@.len() <= len,
    ;
}

/// The stream realized on a serial port: a fixed bus, settings and default
/// timeout, and a driver. Every operation opens and configures the port
/// afresh, so no handle outlives a call.
pub struct SerialStream<P: Port> {
    bus: String,
    settings: serial::PortSettings,
    timeout: Duration,
    port: P,
}

/// A copy of the bytes of `src`.
fn bytes_of(src: &[u8]) -> (r: Vec<u8>)
    ensures
        r@ == src@,
{
    let mut r: Vec<u8> = Vec::new();
    let mut i: usize = 0;
    while i < src.len()
        invariant
            i <= src@.len(),
            r@ == src@.subrange(0, i as int),
        decreases src@.len() - i,
    {
        r.push(src[i]);
        i = i + 1;
        assert(r@ =~= src@.subrange(0, i as int));
    }
    assert(src@.subrange(0, src@.len() as int) =~= src@);
    r
}

/// `len` zero bytes.
fn zeros(len: usize) -> (r: Vec<u8>)
    ensures
        r@ == Seq::new(len as nat, |i: int| 0u8),
{
    let mut r: Vec<u8> = Vec::new();
    let mut i: usize = 0;
    while i < len
        invariant
            i <= len,
            r@ == Seq::new(i as nat, |j: int| 0u8),
        decreases len - i,
    {
        r.push(0u8);
        i = i + 1;
        assert(r@ =~= Seq::new(i as nat, |j: int| 0u8));
    }
    r
}

/// An answer with no payload, as an answer that read no bytes.
fn no_bytes(r: UartResult<()>) -> (o: UartResult<Vec<u8>>)
    ensures
        reply_of(o) == unit_reply(r),
{
    match r {
        Ok(_) => {
            let v: Vec<u8> = Vec::new();
            assert(v@ =~= seq![]);
            Ok(v)
        },
        Err(e) => Err(e),
    }
}

/// An answer that read no bytes, as an answer with no payload.
fn no_payload(r: UartResult<Vec<u8>>) -> (o: UartResult<()>)
    ensures
        r is Ok ==> o is Ok,
        r is Err ==> o == Err::<(), UartError>(r->Err_0),
{
    match r {
        Ok(_) => Ok(()),
        Err(e) => Err(e),
    }
}

/// The answers in a record, in order.
pub open spec fn replies_of(record: Record) -> Seq<Reply> {
    Seq::new(record.len(), |i: int| record[i].1)
}

impl<P: Port> SerialStream<P> {
    /// The call on the driver that performs `step` on this stream's bus with
    /// its settings.
    pub open spec fn call_of(&self, step: Step) -> Call {
        match step {
            Step::Open => Call::Open(self.bus()),
            Step::Configure => Call::Configure(self.settings()),
            Step::SetTimeout(t) => Call::SetTimeout(t),
            Step::WriteAll(data) => Call::WriteAll(data),
            Step::Flush => Call::Flush,
            Step::Sleep(t) => Call::Sleep(t),
            Step::ReadExact(n) => Call::ReadExact(n),
            Step::ReadUpTo(n) => Call::Read(n),
        }
    }

    /// `record` is the exchange of `req` on this stream's driver, and `r` its
    /// result: the calls made are exactly the planned steps, in order, on this
    /// bus with these settings, up to the first fatal answer or the last step;
    /// each answer is the driver's own answer to the call at the same
    /// position; and `r` is what the protocol gives for those answers.
    pub open spec fn conducted(&self, req: Request, record: Record, r: Reply) -> bool {
        &&& complete(plan(req), replies_of(record))
        &&& forall|i: int|
            0 <= i < record.len() ==> (#[trigger] record[i]).0 == self.call_of(plan(req)[i])
                && answered(self.port(), record[i].0, record[i].1)
        &&& r == outcome(plan(req), replies_of(record))
    }

    /// `r` is a result of the exchange of `req` on this stream's driver.
    pub open spec fn exchanged(&self, req: Request, r: Reply) -> bool {
        exists|record: Record| self.conducted(req, record, r)
    }

    /// The bus path.
    pub closed spec fn bus(&self) -> Seq<char> {
        self.bus@
    }

    /// The port settings.
    pub closed spec fn settings(&self) -> serial::PortSettings {
        self.settings
    }

    /// The default timeout of writes.
    pub closed spec fn timeout(&self) -> Duration {
        self.timeout
    }

    /// The driver.
    pub closed spec fn port(&self) -> P {
        self.port
    }

    /// A stream on `bus`, with these settings and this default timeout,
    /// driven through `port`. Nothing is opened yet.
    pub fn new(bus: &str, settings: serial::PortSettings, timeout: Duration, port: P) -> (r: Self)
        ensures
            r.bus() == bus@,
            r.settings() == settings,
            r.timeout() == timeout,
            r.port() == port,
    {
        SerialStream { bus: bus.to_owned(), settings, timeout, port }
    }

    /// Makes the one driver call that performs `action`, through the
    /// session, and returns its answer; calls that read nothing answer with no
    /// bytes.
    fn perform(&self, session: &mut Session<P>, action: &Action) -> (r: UartResult<Vec<u8>>)
        requires
            old(session).port() == self.port(),
        ensures
            final(session).port() == self.port(),
            final(session).record() == old(session).record().push(
                (self.call_of(action@), reply_of(r)),
            ),
            answered(self.port(), self.call_of(action@), reply_of(r)),
    {
        match action {
            Action::Open => no_bytes(session.open(self.bus.as_str())),
            Action::Configure => no_bytes(session.configure(&self.settings)),
            Action::SetTimeout(t) => no_bytes(session.set_timeout(*t)),
            Action::WriteAll(data) => no_bytes(session.write_all(data.as_slice())),
            Action::Flush => no_bytes(session.flush()),
            Action::Sleep(t) => {
                session.sleep(*t);
                no_bytes(Ok(()))
            },
            Action::ReadExact(n) => session.read_exact(*n),
            Action::ReadUpTo(n) => session.read(*n),
        }
    }

    /// Runs the whole exchange of `op` on a fresh session of the driver, then
    /// releases the port. Returns the result with the record of the calls
    /// made, which is exactly the exchange of `op`.
    pub fn run(&self, op: Operation) -> (out: (UartResult<Vec<u8>>, Ghost<Record>))
        ensures
            self.conducted(op@, out.1@, reply_of(out.0)),
    {
        let ghost req = op@;
        let mut ex = Exchange::new(op);
        let mut session = Session::new(&self.port);
        while !ex.is_finished()
            invariant
                ex.wf(),
                ex.steps() == plan(req),
                session.port() == self.port(),
                session.record().len() == ex.replies().len(),
                forall|i: int|
                    0 <= i < session.record().len() ==> (#[trigger] session.record()[i]).0
                        == self.call_of(plan(req)[i]) && answered(
                        self.port(),
                        session.record()[i].0,
                        session.record()[i].1,
                    ) && session.record()[i].1 == ex.replies()[i],
            decreases ex.steps().len() - ex.replies().len(),
        {
            let action = ex.next_action();
            let reply = self.perform(&mut session, action);
            ex.feed(reply);
        }
        session.close();
        let ghost record = session.record();
        let ghost replies = ex.replies();
        let r = ex.outcome();
        assert(replies_of(record) =~= replies);
        (r, Ghost(record))
    }
}

impl<P: Port> Stream for SerialStream<P> {
    open spec fn write_answer(&self, data: Seq<u8>, r: UartResult<()>) -> bool {
        self.exchanged(Request::Write(data, self.timeout()), unit_reply(r))
    }

    open spec fn write_bytes_answer(&self, data: Seq<u8>, r: UartResult<()>) -> bool {
        self.exchanged(Request::WriteBytes(data, self.timeout()), unit_reply(r))
    }

    open spec fn read_answer(&self, buffer: Seq<u8>, len: nat, r: Reply) -> bool {
        self.exchanged(Request::Read(len), r)
    }

    open spec fn read_timeout_answer(&self, buffer: Seq<u8>, len: nat, timeout: Duration, r: Reply) -> bool {
        self.exchanged(Request::ReadTimeout(len, timeout), r)
    }

    open spec fn transfer_answer(&self, data: Seq<u8>, len: nat, timeout: Duration, r: Reply) -> bool {
        self.exchanged(Request::Transfer(data, len, timeout), r)
    }

    fn write(&self, data: Vec<u8>) -> (r: UartResult<()>)
        ensures
            self.exchanged(Request::Write(data@, self.timeout()), unit_reply(r)),
    {
        let ghost req = Request::Write(data@, self.timeout);
        let out = self.run(Operation::Write { data, timeout: self.timeout });
        let ghost record = out.1@;
        proof {
            lemma_writes_read_nothing(req, replies_of(record));
        }
        let r = no_payload(out.0);
        assert(self.conducted(req, record, unit_reply(r)));
        r
    }

    fn write_bytes(&self, data: Vec<u8>) -> (r: UartResult<()>)
        ensures
            self.exchanged(Request::WriteBytes(data@, self.timeout()), unit_reply(r)),
    {
        let ghost req = Request::WriteBytes(data@, self.timeout);
        let out = self.run(Operation::WriteBytes { data, timeout: self.timeout });
        let ghost record = out.1@;
        proof {
            lemma_writes_read_nothing(req, replies_of(record));
        }
        let r = no_payload(out.0);
        assert(self.conducted(req, record, unit_reply(r)));
        r
    }

    fn read(&self, data: &mut Vec<u8>, len: usize) -> (r: UartResult<Vec<u8>>)
        ensures
            self.exchanged(Request::Read(len as nat), reply_of(r)),
    {
        let out = self.run(Operation::Read { len });
        let ghost record = out.1@;
        proof {
            lemma_read_exact_default(len as nat, replies_of(record));
        }
        let r = out.0;
        assert(self.conducted(Request::Read(len as nat), record, reply_of(r)));
        match r {
            Ok(bytes) => {
                *data = bytes_of(bytes.as_slice());
                Ok(bytes)
            },
            Err(e) => Err(e),
        }
    }

    fn read_timeout(&self, data: &mut Vec<u8>, len: usize, timeout: Duration) -> (r: UartResult<
        Vec<u8>,
    >)
        ensures
            self.exchanged(Request::ReadTimeout(len as nat, timeout), reply_of(r)),
    {
        let out = self.run(Operation::ReadTimeout { len, timeout });
        let ghost record = out.1@;
        proof {
            lemma_read_exact(len as nat, timeout, replies_of(record));
        }
        let r = out.0;
        assert(self.conducted(Request::ReadTimeout(len as nat, timeout), record, reply_of(r)));
        match r {
            Ok(bytes) => {
                *data = bytes_of(bytes.as_slice());
                Ok(bytes)
            },
            Err(e) => Err(e),
        }
    }

    fn transfer(&self, data: Vec<u8>, len: usize, timeout: Duration) -> (r: UartResult<Vec<u8>>)
        ensures
            self.exchanged(Request::Transfer(data@, len as nat, timeout), reply_of(r)),
    {
        let ghost request = data@;
        let out = self.run(Operation::Transfer { data, len, timeout });
        let ghost record = out.1@;
        proof {
            lemma_transfer(request, len as nat, timeout, replies_of(record));
        }
        let r = out.0;
        assert(self.conducted(Request::Transfer(request, len as nat, timeout), record, reply_of(r)));
        r
    }
}

/// A port-busy answer to the write reaches the caller as `PortBusy`: when
/// the driver succeeds in opening, configuring and setting the timeout, and
/// answers the write of `data` only with `PortBusy`, writing `data` on the
/// stream returns exactly `PortBusy`.
pub proof fn lemma_busy_write_passed_on<P: Port>(s: SerialStream<P>, data: Seq<u8>, r: UartResult<()>)
    requires
        s.write_answer(data, r),
        forall|reply: Reply|
            #[trigger] s.port().answers(Call::WriteAll(data), reply) ==> reply == Err::<
                Seq<u8>,
                UartError,
            >(UartError::PortBusy),
        forall|call: Call, reply: Reply|
            !(call is WriteAll) && #[trigger] s.port().answers(call, reply) ==> reply is Ok,
    ensures
        r == Err::<(), UartError>(UartError::PortBusy),
{
    let req = Request::Write(data, s.timeout());
    let record = choose|record: Record| s.conducted(req, record, unit_reply(r));
    let k = record.len() - 1;
    assert(record[k].0 == s.call_of(plan(req)[k]));
    assert(answered(s.port(), record[k].0, record[k].1));
    assert(replies_of(record)[k] == record[k].1);
}

/// Byte-at-a-time writing on the driver fails fast: when the driver's answer
/// to the one-byte write of byte `k` is an error, that write is the last call
/// made, every earlier byte was written and flushed once in order, and the
/// result is exactly that error.
pub proof fn lemma_write_bytes_stops<P: Port>(
    s: SerialStream<P>,
    data: Seq<u8>,
    record: Record,
    r: Reply,
    k: int,
    e: UartError,
)
    requires
        s.conducted(Request::WriteBytes(data, s.timeout()), record, r),
        0 <= k < data.len(),
        3 + 2 * k < record.len(),
        record[3 + 2 * k].1 == Err::<Seq<u8>, UartError>(e),
    ensures
        record.len() == 3 + 2 * k + 1,
        record[3 + 2 * k].0 == Call::WriteAll(seq![data[k]]),
        forall|j: int|
            0 <= j < k ==> record[3 + 2 * j].0 == Call::WriteAll(seq![data[j]]) && record[3 + 2 * j
                + 1].0 == Call::Flush,
        r == Err::<Seq<u8>, UartError>(e),
{
    let req = Request::WriteBytes(data, s.timeout());
    let replies = replies_of(record);
    assert(replies[3 + 2 * k] == record[3 + 2 * k].1);
    lemma_write_bytes_fail_fast(data, s.timeout(), replies, k, e);
    assert(record[3 + 2 * k].0 == s.call_of(plan(req)[3 + 2 * k]));
    assert forall|j: int| 0 <= j < k implies record[3 + 2 * j].0 == Call::WriteAll(seq![data[j]])
        && record[3 + 2 * j + 1].0 == Call::Flush by {
        assert(record[3 + 2 * j].0 == s.call_of(plan(req)[3 + 2 * j]));
        assert(record[3 + 2 * j + 1].0 == s.call_of(plan(req)[3 + 2 * j + 1]));
        assert(plan(req)[3 + 2 * j] == byte_steps(data)[2 * j]);
        assert(plan(req)[3 + 2 * j + 1] == byte_steps(data)[2 * j + 1]);
        assert((2 * j) % 2 == 0 && (2 * j) / 2 == j);
        assert((2 * j + 1) % 2 == 1);
    }
}

/// Bulk and byte-at-a-time writing deliver the same bytes, in order, when
/// every driver call succeeds. A write makes one write of all of `data`. A
/// byte-at-a-time write makes, for each byte in order, a one-byte write and
/// a flush, on the one open port. Both return `Ok`.
pub proof fn lemma_writes_deliver_data<P: Port>(
    s: SerialStream<P>,
    data: Seq<u8>,
    bulk: Record,
    r_bulk: Reply,
    paced: Record,
    r_paced: Reply,
)
    requires
        s.conducted(Request::Write(data, s.timeout()), bulk, r_bulk),
        forall|i: int| 0 <= i < bulk.len() ==> (#[trigger] bulk[i]).1 is Ok,
        s.conducted(Request::WriteBytes(data, s.timeout()), paced, r_paced),
        forall|i: int| 0 <= i < paced.len() ==> (#[trigger] paced[i]).1 is Ok,
    ensures
        bulk.len() == 4,
        bulk[3].0 == Call::WriteAll(data),
        r_bulk == Ok::<Seq<u8>, UartError>(seq![]),
        paced.len() == 3 + 2 * data.len(),
        forall|j: int|
            0 <= j < data.len() ==> paced[3 + 2 * j].0 == Call::WriteAll(seq![data[j]]) && paced[3
                + 2 * j + 1].0 == Call::Flush,
        r_paced == Ok::<Seq<u8>, UartError>(seq![]),
{
    let wreq = Request::Write(data, s.timeout());
    let breq = Request::WriteBytes(data, s.timeout());
    if bulk.len() < 4 {
        let k = bulk.len() - 1;
        assert(replies_of(bulk)[k] == bulk[k].1);
    }
    assert(bulk[3].0 == s.call_of(plan(wreq)[3]));
    lemma_writes_read_nothing(wreq, replies_of(bulk));
    lemma_writes_read_nothing(breq, replies_of(paced));
    if paced.len() < plan(breq).len() {
        let k = paced.len() - 1;
        assert(replies_of(paced)[k] == paced[k].1);
    }
    assert(plan(breq).len() == 3 + 2 * data.len());
    assert forall|j: int| 0 <= j < data.len() implies paced[3 + 2 * j].0 == Call::WriteAll(
        seq![data[j]],
    ) && paced[3 + 2 * j + 1].0 == Call::Flush by {
        assert(paced[3 + 2 * j].0 == s.call_of(plan(breq)[3 + 2 * j]));
        assert(paced[3 + 2 * j + 1].0 == s.call_of(plan(breq)[3 + 2 * j + 1]));
        assert(plan(breq)[3 + 2 * j] == byte_steps(data)[2 * j]);
        assert(plan(breq)[3 + 2 * j + 1] == byte_steps(data)[2 * j + 1]);
        assert((2 * j) % 2 == 0 && (2 * j) / 2 == j);
        assert((2 * j + 1) % 2 == 1);
    }
    let n = paced.len() - 1;
    assert(replies_of(paced)[n] == paced[n].1);
}

/// The caller's handle on one link to a device: it owns one stream and hands
/// every call to it unchanged.
pub struct Connection<S: Stream> {
    /// The stream that carries all traffic.
    pub stream: S,
}

impl<S: Stream> Connection<S> {
    /// A connection over `stream` (a port-backed stream, or a double).
    pub fn new(stream: S) -> (r: Connection<S>)
        ensures
            r.stream == stream,
    {
        Connection { stream }
    }

    /// Writes out raw bytes to the stream: the stream's answer to writing
    /// exactly these bytes.
    pub fn write(&self, data: &[u8]) -> (r: UartResult<()>)
        ensures
            self.stream.write_answer(data@, r),
    {
        self.stream.write(bytes_of(data))
    }

    /// Reads exactly `len` bytes from the stream under `timeout`, into a
    /// fresh buffer of `len` zeros.
    pub fn read(&self, len: usize, timeout: Duration) -> (r: UartResult<Vec<u8>>)
        ensures
            self.stream.read_timeout_answer(
                Seq::new(len as nat, |i: int| 0u8),
                len as nat,
                timeout,
                reply_of(r),
            ),
            r is Ok ==> r->Ok_0@.len() == len,
    {
        let mut response: Vec<u8> = zeros(len);
        self.stream.read_timeout(&mut response, len, timeout)
    }

    /// Writes the bytes one at a time, without closing the port in between:
    /// the stream's answer to writing exactly these bytes that way.
    pub fn write_bytes(&self, data: &[u8]) -> (r: UartResult<()>)
        ensures
            self.stream.write_bytes_answer(data@, r),
    {
        self.stream.write_bytes(bytes_of(data))
    }

    /// Writes `data`, waits for `timeout`, then reads up to `len` bytes.
    pub fn transfer(&self, data: &[u8], len: usize, timeout: Duration) -> (r: UartResult<Vec<u8>>)
        ensures
            self.stream.transfer_answer(data@, len as nat, timeout, reply_of(r)),
            r is Ok ==> r->Ok_0@.len() <= len,
    {
        self.stream.transfer(bytes_of(data), len, timeout)
    }
}

impl<P: Port> Connection<SerialStream<P>> {
    /// A connection over a port-backed stream on `bus`, with these settings
    /// and this default timeout, driven through `port`.
    pub fn from_path(bus: &str, settings: serial::PortSettings, timeout: Duration, port: P) -> (r:
        Connection<SerialStream<P>>)
        ensures
            r.stream.bus() == bus@,
            r.stream.settings() == settings,
            r.stream.timeout() == timeout,
            r.stream.port() == port,
    {
        Connection { stream: SerialStream::new(bus, settings, timeout, port) }
    }
}

} // verus!
