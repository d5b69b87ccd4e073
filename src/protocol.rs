//! The exchange that one stream operation performs on a serial port.
//!
//! Every operation opens the port, configures it, usually sets a timeout, and
//! then writes, settles and reads. The order of those primitives, and how the
//! port's answers decide the result, is fixed here: `plan` gives the steps of
//! an operation, `complete` says when a sequence of answers ends the exchange,
//! and `outcome` gives the result of a complete exchange. `Exchange` is the
//! executable state machine: it hands out the next action, takes the port's
//! answer, and stops on the first failure.
use vstd::prelude::*;
use std::time::Duration;
use crate::error::{UartError, UartResult};

verus! {

/// One operation of a stream, with what its exchange needs.
pub enum Operation {
    /// Write the whole buffer in one go, under the given timeout.
    Write { data: Vec<u8>, timeout: Duration },
    /// Write the buffer one byte at a time, flushing after each byte.
    WriteBytes { data: Vec<u8>, timeout: Duration },
    /// Read exactly `len` bytes under whatever timeout the port has.
    Read { len: usize },
    /// Read exactly `len` bytes under the given timeout.
    ReadTimeout { len: usize, timeout: Duration },
    /// Write the request, wait for the timeout, then read up to `len` bytes.
    Transfer { data: Vec<u8>, len: usize, timeout: Duration },
}

/// One primitive performed on the port.
pub enum Action {
    /// Open the configured bus.
    Open,
    /// Apply the configured port settings.
    Configure,
    /// Set the port's timeout.
    SetTimeout(Duration),
    /// Write all of these bytes.
    WriteAll(Vec<u8>),
    /// Flush what was written.
    Flush,
    /// Block the calling thread for this long (the settle delay).
    Sleep(Duration),
    /// Read exactly this many bytes.
    ReadExact(usize),
    /// Read whatever arrives, at most this many bytes.
    ReadUpTo(usize),
}

/// Mathematical model of an `Operation`.
pub enum Request {
    Write(Seq<u8>, Duration),
    WriteBytes(Seq<u8>, Duration),
    Read(nat),
    ReadTimeout(nat, Duration),
    Transfer(Seq<u8>, nat, Duration),
}

/// Mathematical model of an `Action`.
pub enum Step {
    Open,
    Configure,
    SetTimeout(Duration),
    WriteAll(Seq<u8>),
    Flush,
    Sleep(Duration),
    ReadExact(nat),
    ReadUpTo(nat),
}

/// The port's answer to one step: the bytes it read (none for a step that
/// reads nothing), or the error it reported.
pub type Reply = Result<Seq<u8>, UartError>;

impl View for Operation {
    type V = Request;

    open spec fn view(&self) -> Request {
        match self {
            Operation::Write { data, timeout } => Request::Write(data@, *timeout),
            Operation::WriteBytes { data, timeout } => Request::WriteBytes(data@, *timeout),
            Operation::Read { len } => Request::Read(*len as nat),
            Operation::ReadTimeout { len, timeout } => Request::ReadTimeout(*len as nat, *timeout),
            Operation::Transfer { data, len, timeout } => Request::Transfer(
                data@,
                *len as nat,
                *timeout,
            ),
        }
    }
}

impl View for Action {
    type V = Step;

    open spec fn view(&self) -> Step {
        match self {
            Action::Open => Step::Open,
            Action::Configure => Step::Configure,
            Action::SetTimeout(t) => Step::SetTimeout(*t),
            Action::WriteAll(data) => Step::WriteAll(data@),
            Action::Flush => Step::Flush,
            Action::Sleep(t) => Step::Sleep(*t),
            Action::ReadExact(n) => Step::ReadExact(*n as nat),
            Action::ReadUpTo(n) => Step::ReadUpTo(*n as nat),
        }
    }
}

/// Model of an answer handed in by a port, or of the result of an exchange.
pub open spec fn reply_of(r: UartResult<Vec<u8>>) -> Reply {
    match r {
        Ok(bytes) => Ok(bytes@),
        Err(e) => Err(e),
    }
}

/// Byte-at-a-time writing: for each byte in order, a one-byte write and then
/// a flush.
pub open spec fn byte_steps(data: Seq<u8>) -> Seq<Step> {
    Seq::new(
        2 * data.len(),
        |i: int|
            if i % 2 == 0 {
                Step::WriteAll(seq![data[i / 2]])
            } else {
                Step::Flush
            },
    )
}

/// The steps of an operation, in the order in which they are performed when
/// none fails.
pub open spec fn plan(req: Request) -> Seq<Step> {
    match req {
        Request::Write(data, t) => seq![
            Step::Open,
            Step::Configure,
            Step::SetTimeout(t),
            Step::WriteAll(data),
        ],
        Request::WriteBytes(data, t) => seq![Step::Open, Step::Configure, Step::SetTimeout(t)]
            + byte_steps(data),
        Request::Read(n) => seq![Step::Open, Step::Configure, Step::ReadExact(n)],
        Request::ReadTimeout(n, t) => seq![
            Step::Open,
            Step::Configure,
            Step::SetTimeout(t),
            Step::ReadExact(n),
        ],
        Request::Transfer(data, n, t) => seq![
            Step::Open,
            Step::Configure,
            Step::SetTimeout(t),
            Step::WriteAll(data),
            Step::Sleep(t),
            Step::ReadUpTo(n),
        ],
    }
}

/// Whether this answer to this step ends the exchange with an error. The
/// settle delay and the best-effort read after it never end it so.
pub open spec fn fatal(step: Step, reply: Reply) -> bool {
    reply is Err && !(step is ReadUpTo) && !(step is Sleep)
}

/// `replies` answers the first steps of `steps` in order, and no answer
/// but possibly the last is fatal.
pub open spec fn in_progress(steps: Seq<Step>, replies: Seq<Reply>) -> bool {
    &&& replies.len() <= steps.len()
    &&& forall|i: int| 0 <= i < replies.len() - 1 ==> !fatal(#[trigger] steps[i], replies[i])
}

/// `replies` is a whole exchange on `steps`: it stops at the first fatal
/// answer, or when every step has been answered.
pub open spec fn complete(steps: Seq<Step>, replies: Seq<Reply>) -> bool {
    &&& in_progress(steps, replies)
    &&& replies.len() > 0
    &&& replies.len() < steps.len() ==> fatal(steps[replies.len() - 1], replies.last())
}

/// What the exchange returns when `reply` answers `step`, the last step
/// performed: a failure is passed on unchanged (but after the settle delay,
/// where it means nothing arrived); an exact read must give exactly the
/// bytes asked for; a best-effort read gives what arrived, at most `n` bytes.
pub open spec fn finish(step: Step, reply: Reply) -> Result<Seq<u8>, UartError> {
    match reply {
        Err(e) => if step is ReadUpTo {
            Ok(seq![])
        } else {
            Err(e)
        },
        Ok(bytes) => match step {
            Step::ReadExact(n) => if bytes.len() == n {
                Ok(bytes)
            } else {
                Err(UartError::GenericError)
            },
            Step::ReadUpTo(n) => if bytes.len() <= n {
                Ok(bytes)
            } else {
                Ok(bytes.take(n as int))
            },
            _ => Ok(seq![]),
        },
    }
}

/// The result of a complete exchange: decided by its last answer.
pub open spec fn outcome(steps: Seq<Step>, replies: Seq<Reply>) -> Result<Seq<u8>, UartError> {
    finish(steps[replies.len() - 1], replies.last())
}

/// Writing reads nothing: a complete write exchange that succeeds returns no
/// bytes.
pub proof fn lemma_writes_read_nothing(req: Request, replies: Seq<Reply>)
    requires
        req is Write || req is WriteBytes,
        complete(plan(req), replies),
    ensures
        outcome(plan(req), replies) is Ok ==> outcome(plan(req), replies) == Ok::<
            Seq<u8>,
            UartError,
        >(seq![]),
{
    let k = replies.len() - 1;
    if req is WriteBytes && k >= 3 {
        let data = req->WriteBytes_0;
        assert(plan(req)[k] == byte_steps(data)[k - 3]);
    }
}

/// A failure is passed on unchanged: when the last answer of a complete
/// exchange is an error and the step it answered is not the best-effort read
/// after the settle delay, the exchange returns exactly that error.
pub proof fn lemma_failure_passed_on(req: Request, replies: Seq<Reply>, e: UartError)
    requires
        complete(plan(req), replies),
        replies.last() == Err::<Seq<u8>, UartError>(e),
        !(plan(req)[replies.len() - 1] is ReadUpTo),
    ensures
        outcome(plan(req), replies) == Err::<Seq<u8>, UartError>(e),
{
}

/// A write whose every step succeeds succeeds.
pub proof fn lemma_write_succeeds(data: Seq<u8>, t: Duration, replies: Seq<Reply>)
    requires
        complete(plan(Request::Write(data, t)), replies),
        forall|i: int| 0 <= i < replies.len() ==> #[trigger] replies[i] is Ok,
    ensures
        replies.len() == 4,
        outcome(plan(Request::Write(data, t)), replies) == Ok::<Seq<u8>, UartError>(seq![]),
{
    if replies.len() < 4 {
        assert(replies[replies.len() - 1] is Ok);
    }
}

/// An exact read returns the bytes that arrived, unchanged, when exactly
/// `len` of them arrived; a short read or a failed read is an error, never a
/// short buffer, and a failure of the read is passed on unchanged.
pub proof fn lemma_read_exact(len: nat, t: Duration, replies: Seq<Reply>)
    requires
        complete(plan(Request::ReadTimeout(len, t)), replies),
    ensures
        outcome(plan(Request::ReadTimeout(len, t)), replies) is Ok ==> {
            &&& replies.len() == 4
            &&& replies[3] == outcome(plan(Request::ReadTimeout(len, t)), replies)
            &&& replies[3]->Ok_0.len() == len
        },
        replies.len() == 4 && replies[3] is Ok && replies[3]->Ok_0.len() == len ==> outcome(
            plan(Request::ReadTimeout(len, t)),
            replies,
        ) == replies[3],
        replies.len() == 4 && replies[3] is Ok && replies[3]->Ok_0.len() != len ==> outcome(
            plan(Request::ReadTimeout(len, t)),
            replies,
        ) == Err::<Seq<u8>, UartError>(UartError::GenericError),
        replies.len() == 4 && replies[3] is Err ==> outcome(plan(Request::ReadTimeout(len, t)), replies)
            == replies[3],
{
}

/// The same for a read under the port's current timeout.
pub proof fn lemma_read_exact_default(len: nat, replies: Seq<Reply>)
    requires
        complete(plan(Request::Read(len)), replies),
    ensures
        outcome(plan(Request::Read(len)), replies) is Ok ==> {
            &&& replies.len() == 3
            &&& replies[2] == outcome(plan(Request::Read(len)), replies)
            &&& replies[2]->Ok_0.len() == len
        },
{
}

/// Writing `b` and then reading `b.len()` bytes returns `b` unchanged, when
/// every step of both exchanges succeeds and the bytes that arrive are `b`.
pub proof fn lemma_round_trip(
    b: Seq<u8>,
    write_timeout: Duration,
    read_timeout: Duration,
    written: Seq<Reply>,
    read: Seq<Reply>,
)
    requires
        complete(plan(Request::Write(b, write_timeout)), written),
        forall|i: int| 0 <= i < written.len() ==> #[trigger] written[i] is Ok,
        complete(plan(Request::ReadTimeout(b.len(), read_timeout)), read),
        forall|i: int| 0 <= i < read.len() - 1 ==> #[trigger] read[i] is Ok,
        read.last() == Ok::<Seq<u8>, UartError>(b),
    ensures
        outcome(plan(Request::Write(b, write_timeout)), written) == Ok::<Seq<u8>, UartError>(
            seq![],
        ),
        outcome(plan(Request::ReadTimeout(b.len(), read_timeout)), read) == Ok::<
            Seq<u8>,
            UartError,
        >(b),
{
    lemma_write_succeeds(b, write_timeout, written);
    if read.len() < 4 {
        assert(read[read.len() - 1] is Ok);
    }
}

/// Byte-at-a-time writing fails fast: when the write of byte `k` fails, the
/// exchange stops right there, with no later write or flush, and returns that
/// failure.
pub proof fn lemma_write_bytes_fail_fast(
    data: Seq<u8>,
    t: Duration,
    replies: Seq<Reply>,
    k: int,
    e: UartError,
)
    requires
        complete(plan(Request::WriteBytes(data, t)), replies),
        0 <= k < data.len(),
        3 + 2 * k < replies.len(),
        replies[3 + 2 * k] == Err::<Seq<u8>, UartError>(e),
    ensures
        plan(Request::WriteBytes(data, t))[3 + 2 * k] == Step::WriteAll(seq![data[k]]),
        replies.len() == 3 + 2 * k + 1,
        outcome(plan(Request::WriteBytes(data, t)), replies) == Err::<Seq<u8>, UartError>(e),
{
    let steps = plan(Request::WriteBytes(data, t));
    assert(steps[3 + 2 * k] == byte_steps(data)[2 * k]);
    assert((2 * k) % 2 == 0 && (2 * k) / 2 == k);
    if replies.len() > 3 + 2 * k + 1 {
        assert(!fatal(steps[3 + 2 * k], replies[3 + 2 * k]));
    }
}

/// A transfer writes the request once, then sleeps for the full timeout, then
/// reads at most `len` bytes; it returns at most `len` bytes, and it fails
/// only when opening, configuring, setting the timeout or writing fails,
/// never because of the delay or the read.
pub proof fn lemma_transfer(data: Seq<u8>, len: nat, t: Duration, replies: Seq<Reply>)
    requires
        complete(plan(Request::Transfer(data, len, t)), replies),
    ensures
        plan(Request::Transfer(data, len, t)) == seq![
            Step::Open,
            Step::Configure,
            Step::SetTimeout(t),
            Step::WriteAll(data),
            Step::Sleep(t),
            Step::ReadUpTo(len),
        ],
        outcome(plan(Request::Transfer(data, len, t)), replies) is Ok ==> outcome(
            plan(Request::Transfer(data, len, t)),
            replies,
        )->Ok_0.len() <= len,
        outcome(plan(Request::Transfer(data, len, t)), replies) is Err ==> {
            &&& replies.len() <= 4
            &&& outcome(plan(Request::Transfer(data, len, t)), replies) == replies.last()
        },
{
}

/// The executable exchange of one operation.
pub struct Exchange {
    plan: Vec<Action>,
    answered: usize,
    replies: Ghost<Seq<Reply>>,
    result: Option<UartResult<Vec<u8>>>,
}

/// Whether an answer to this action ends the exchange with an error.
fn is_fatal(action: &Action, reply: &UartResult<Vec<u8>>) -> (r: bool)
    ensures
        r == fatal(action@, reply_of(*reply)),
{
    match reply {
        Ok(_) => false,
        Err(_) => match action {
            Action::ReadUpTo(_) => false,
            Action::Sleep(_) => false,
            _ => true,
        },
    }
}

/// The result given by `reply` to `action`, the last action performed.
fn finish_with(action: &Action, reply: UartResult<Vec<u8>>) -> (r: UartResult<Vec<u8>>)
    ensures
        reply_of(r) == finish(action@, reply_of(reply)),
{
    match reply {
        Err(e) => match action {
            Action::ReadUpTo(_) => Ok(Vec::new()),
            _ => Err(e),
        },
        Ok(bytes) => match action {
            Action::ReadExact(n) => {
                if bytes.len() == *n {
                    Ok(bytes)
                } else {
                    Err(UartError::GenericError)
                }
            },
            Action::ReadUpTo(n) => {
                let mut bytes = bytes;
                if bytes.len() > *n {
                    bytes.truncate(*n);
                    assert(bytes@ =~= reply_of(reply)->Ok_0.take(*n as int));
                }
                Ok(bytes)
            },
            _ => Ok(Vec::new()),
        },
    }
}

/// The executable steps of `op`.
fn plan_of(op: Operation) -> (r: Vec<Action>)
    ensures
        r@.len() == plan(op@).len(),
        forall|i: int| 0 <= i < r@.len() ==> #[trigger] r@[i]@ == plan(op@)[i],
{
    let ghost req = op@;
    match op {
        Operation::Write { data, timeout } => {
            let r = vec![Action::Open, Action::Configure, Action::SetTimeout(timeout), Action::WriteAll(data)];
            r
        },
        Operation::WriteBytes { data, timeout } => {
            let mut r = vec![Action::Open, Action::Configure, Action::SetTimeout(timeout)];
            let mut k: usize = 0;
            while k < data.len()
                invariant
                    req == Request::WriteBytes(data@, timeout),
                    k <= data.len(),
                    r@.len() == 3 + 2 * k,
                    forall|i: int| 0 <= i < r@.len() ==> #[trigger] r@[i]@ == plan(req)[i],
                decreases data.len() - k,
            {
                let b = data[k];
                let one = vec![b];
                assert(one@ =~= seq![b]);
                r.push(Action::WriteAll(one));
                r.push(Action::Flush);
                proof {
                    assert(plan(req) == seq![Step::Open, Step::Configure, Step::SetTimeout(timeout)]
                        + byte_steps(data@));
                    assert forall|i: int| 0 <= i < r@.len() implies #[trigger] r@[i]@ == plan(req)[i] by {
                        if i == 3 + 2 * k {
                            assert(r@[i]@ == Step::WriteAll(seq![b]));
                            assert(byte_steps(data@)[2 * k as int] == Step::WriteAll(seq![data@[k as int]]));
                            assert(seq![b] =~= seq![data@[k as int]]);
                        } else if i == 3 + 2 * k + 1 {
                            assert(byte_steps(data@)[2 * k + 1] == Step::Flush);
                        }
                    }
                }
                k = k + 1;
            }
            r
        },
        Operation::Read { len } => {
            let r = vec![Action::Open, Action::Configure, Action::ReadExact(len)];
            r
        },
        Operation::ReadTimeout { len, timeout } => {
            let r = vec![Action::Open, Action::Configure, Action::SetTimeout(timeout), Action::ReadExact(len)];
            r
        },
        Operation::Transfer { data, len, timeout } => {
            let r = vec![
                Action::Open,
                Action::Configure,
                Action::SetTimeout(timeout),
                Action::WriteAll(data),
                Action::Sleep(timeout),
                Action::ReadUpTo(len),
            ];
            r
        },
    }
}

impl Exchange {
    /// The steps of this exchange.
    pub closed spec fn steps(&self) -> Seq<Step> {
        Seq::new(self.plan@.len(), |i: int| self.plan@[i]@)
    }

    /// The answers handed in so far.
    pub closed spec fn replies(&self) -> Seq<Reply> {
        self.replies@
    }

    /// Whether the exchange has ended.
    pub closed spec fn finished(&self) -> bool {
        self.result is Some
    }

    /// Internal consistency of the state.
    pub closed spec fn wf(&self) -> bool {
        &&& self.answered == self.replies@.len()
        &&& in_progress(self.steps(), self.replies())
        &&& self.finished() <==> complete(self.steps(), self.replies())
        &&& !self.finished() ==> (self.replies().len() < self.steps().len() && (self.replies().len() > 0
            ==> !fatal(self.steps()[self.replies().len() - 1], self.replies().last())))
        &&& self.finished() ==> reply_of(self.result->Some_0) == outcome(self.steps(), self.replies())
    }

    /// Starts the exchange of `op`: nothing is performed yet.
    pub fn new(op: Operation) -> (r: Exchange)
        ensures
            r.wf(),
            r.steps() == plan(op@),
            r.replies() == Seq::<Reply>::empty(),
            !r.finished(),
    {
        let ghost req = op@;
        let actions = plan_of(op);
        let r = Exchange { plan: actions, answered: 0, replies: Ghost(Seq::empty()), result: None };
        assert(r.steps() =~= plan(req));
        r
    }

    /// Whether the exchange has ended.
    pub fn is_finished(&self) -> (r: bool)
        ensures
            r == self.finished(),
    {
        self.result.is_some()
    }

    /// The action to perform next.
    pub fn next_action(&self) -> (r: &Action)
        requires
            self.wf(),
            !self.finished(),
        ensures
            self.replies().len() < self.steps().len(),
            r@ == self.steps()[self.replies().len() as int],
    {
        &self.plan[self.answered]
    }

    /// Hands in the port's answer to the action that `next_action` gave.
    /// The exchange ends on a fatal answer or after the last step.
    pub fn feed(&mut self, reply: UartResult<Vec<u8>>)
        requires
            old(self).wf(),
            !old(self).finished(),
        ensures
            final(self).wf(),
            final(self).steps() == old(self).steps(),
            final(self).replies() == old(self).replies().push(reply_of(reply)),
    {
        let i = self.answered;
        let n = self.plan.len();
        let ghost old_steps = self.steps();
        let ghost reply_model = reply_of(reply);
        let fatal_now = is_fatal(&self.plan[i], &reply);
        self.replies = Ghost(self.replies@.push(reply_model));
        self.answered = i + 1;
        if fatal_now || i + 1 == n {
            let res = finish_with(&self.plan[i], reply);
            self.result = Some(res);
        }
        assert(self.steps() == old_steps);
        assert(self.replies().last() == reply_model);
    }

    /// The result of the finished exchange, with the answers that gave it.
    pub fn outcome(self) -> (r: UartResult<Vec<u8>>)
        requires
            self.wf(),
            self.finished(),
        ensures
            complete(self.steps(), self.replies()),
            reply_of(r) == outcome(self.steps(), self.replies()),
    {
        match self.result {
            Some(res) => res,
            None => Err(UartError::GenericError),
        }
    }
}

} // verus!
