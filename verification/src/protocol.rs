//! The broker's primitives, and the session protocols as state machines over them.
//!
//! A protocol never talks to the broker itself. It says which primitive is asked for
//! next ([`Request`]), is told how the broker answered ([`Reply`]), and then either
//! moves on or finishes with a result ([`Progress`]). Whoever drives a protocol performs
//! each request and hands the reply back, until the protocol finishes.
//!
//! A request names the handles that the call is made on. The texts that go with a call
//! (names, selectors, credentials, the wire message) stay with the driver.

use vstd::prelude::*;
use crate::c_binding::tibemsAcknowledgeMode;
use crate::c_binding::tibemsDestinationType;
use crate::c_binding::tibems_status;
use crate::error::Error;

verus! {

/// A call of one of the broker's primitives.
#[derive(Debug, Clone, Copy, PartialEq, Eq, Structural)]
pub enum Request {
    /// Open a connection. With `admin`, the url is that of the active server, marked
    /// as an administrative one.
    Connect { admin: bool },
    /// Start the delivery of inbound messages on a connection.
    Start { connection: usize },
    /// Ask for the url of the server that a connection is active on.
    GetActiveUrl { connection: usize },
    /// Create a session on a connection.
    CreateSession { connection: usize, transacted: bool, mode: tibemsAcknowledgeMode },
    /// Create a producer on a session, bound to a destination or to none.
    CreateProducer { session: usize, target: Option<usize> },
    /// Create a consumer on a session that reads from a destination.
    CreateConsumer { session: usize, destination: usize, no_local: bool },
    /// Create a shared consumer on a topic.
    CreateSharedConsumer { session: usize, destination: usize },
    /// Create a shared durable consumer on a topic.
    CreateSharedDurableConsumer { session: usize, destination: usize },
    /// Create a reference to the destination of the given kind.
    CreateDestination { kind: tibemsDestinationType },
    /// Create a temporary destination of the given kind.
    CreateTemporary { session: usize, kind: tibemsDestinationType },
    /// Delete a temporary destination.
    DeleteTemporary { session: usize, kind: tibemsDestinationType, destination: usize },
    /// Create the wire message.
    CreateMessage,
    /// Set the destination that a reply to a wire message is expected on.
    SetReplyTo { message: usize, destination: usize },
    /// Send a wire message through a producer, to a destination or to the one that the
    /// producer is bound to.
    Send { producer: usize, target: Option<usize>, message: usize },
    /// Wait for a message for as long as it takes.
    Receive { consumer: usize },
    /// Wait for a message for at most the given number of milliseconds.
    ReceiveTimeout { consumer: usize, millis: i64 },
    /// Destroy a wire message.
    DestroyMessage { message: usize },
    /// Destroy a reference to a destination.
    DestroyDestination { destination: usize },
    /// Close a producer.
    CloseProducer { producer: usize },
    /// Close a consumer.
    CloseConsumer { consumer: usize },
    /// Close a session.
    CloseSession { session: usize },
    /// Acknowledge a received message.
    Acknowledge { message: usize },
    /// Have a received message delivered again.
    Recover { message: usize },
}

/// The broker's answer to a request: a status and, where the request creates or
/// delivers something, its handle.
#[derive(Debug, Clone, Copy, PartialEq, Eq, Structural)]
pub struct Reply {
    /// How the call ended.
    pub status: tibems_status,
    /// The handle that the call gave; it means something only where the call succeeded.
    pub handle: usize,
}

impl Reply {
    /// Whether the call completed normally.
    pub open spec fn succeeded(self) -> bool {
        self.status == tibems_status::TIBEMS_OK
    }

    /// Whether the call ended because the time to wait was over.
    pub open spec fn timed_out(self) -> bool {
        self.status == tibems_status::TIBEMS_TIMEOUT
    }

    /// The reply of a call that completed normally and gave a handle.
    pub fn ok(handle: usize) -> (r: Reply)
        ensures
            r == (Reply { status: tibems_status::TIBEMS_OK, handle }),
    {
        Reply { status: tibems_status::TIBEMS_OK, handle }
    }

    /// The reply of a call that ended with the given status and gave nothing.
    pub fn with_status(status: tibems_status) -> (r: Reply)
        ensures
            r == (Reply { status, handle: 0 }),
    {
        Reply { status, handle: 0 }
    }

    /// Whether the call completed normally.
    pub fn is_ok(&self) -> (r: bool)
        ensures
            r == self.succeeded(),
    {
        self.status == tibems_status::TIBEMS_OK
    }

    /// Whether the call ended because the time to wait was over.
    pub fn is_timeout(&self) -> (r: bool)
        ensures
            r == self.timed_out(),
    {
        self.status == tibems_status::TIBEMS_TIMEOUT
    }
}

/// What a protocol does after a reply: it goes on in a new state, in which it asks for
/// the next request, or it has finished with a result.
#[derive(Debug, PartialEq, Eq)]
pub enum Progress<M, T> {
    /// The protocol goes on in this state.
    Next(M),
    /// The protocol has finished.
    Finish(Result<T, Error>),
}

/// A protocol as a state machine: a state asks for one request, and the reply to it
/// decides how the protocol goes on.
pub trait Protocol: Sized {
    /// What the protocol gives when it finishes well.
    type Output;

    /// The request that the protocol asks for in this state.
    spec fn request_of(self) -> Request;

    /// How the protocol goes on when the broker answers the request with `reply`.
    spec fn next(self, reply: Reply) -> Progress<Self, Self::Output>;

    /// The request that the protocol asks for in this state.
    fn request(&self) -> (r: Request)
        ensures
            r == self.request_of(),
    ;

    /// Takes the reply to the request of this state, and says how the protocol goes
    /// on.
    fn advance(self, reply: Reply) -> (r: Progress<Self, Self::Output>)
        ensures
            r == self.next(reply),
    ;
}

/// The requests that a protocol asks for, from the state `m` on, when the broker
/// answers them with the replies from position `at` on, in turn. The list ends with
/// the request after which the protocol finishes, or with the one that no reply is
/// left for.
pub open spec fn trace_from<M: Protocol>(m: M, replies: Seq<Reply>, at: int) -> Seq<Request>
    decreases replies.len() - at,
{
    if at < 0 || at >= replies.len() {
        seq![m.request_of()]
    } else {
        match m.next(replies[at]) {
            Progress::Next(n) => seq![m.request_of()] + trace_from(n, replies, at + 1),
            Progress::Finish(_) => seq![m.request_of()],
        }
    }
}

/// The result that a protocol finishes with, from the state `m` on, when the broker
/// answers its requests with the replies from position `at` on, in turn; none if the
/// replies end before the protocol does.
pub open spec fn outcome_from<M: Protocol>(m: M, replies: Seq<Reply>, at: int) -> Option<
    Result<M::Output, Error>,
>
    decreases replies.len() - at,
{
    if at < 0 || at >= replies.len() {
        None
    } else {
        match m.next(replies[at]) {
            Progress::Next(n) => outcome_from(n, replies, at + 1),
            Progress::Finish(r) => Some(r),
        }
    }
}

/// The requests that a protocol asks for, from the state `m` on, when the broker
/// answers them with `replies` in turn.
pub open spec fn trace<M: Protocol>(m: M, replies: Seq<Reply>) -> Seq<Request> {
    trace_from(m, replies, 0)
}

/// The result that a protocol finishes with, from the state `m` on, when the broker
/// answers its requests with `replies` in turn; none if the replies end before the
/// protocol does.
pub open spec fn outcome<M: Protocol>(m: M, replies: Seq<Reply>) -> Option<
    Result<M::Output, Error>,
> {
    outcome_from(m, replies, 0)
}

/// Whether a request gives something back to the broker: a wire message, a reference
/// to a destination, a temporary destination, a producer, a consumer or a session.
pub open spec fn gives_back(request: Request) -> bool {
    request is DestroyMessage || request is DestroyDestination || request is DeleteTemporary
        || request is CloseProducer || request is CloseConsumer || request is CloseSession
}

/// One if the condition holds, else zero.
pub open spec fn one_if(condition: bool) -> int {
    if condition {
        1
    } else {
        0
    }
}

/// How often a request occurs among the first `n` requests of a list.
pub open spec fn times(requests: Seq<Request>, request: Request, n: int) -> int
    decreases n,
{
    if n <= 0 || n > requests.len() {
        0
    } else {
        times(requests, request, n - 1) + if requests[n - 1] == request {
            1int
        } else {
            0int
        }
    }
}

/// How many of the first `n` requests of a list give something back.
pub open spec fn given_back(requests: Seq<Request>, n: int) -> int
    decreases n,
{
    if n <= 0 || n > requests.len() {
        0
    } else {
        given_back(requests, n - 1) + if gives_back(requests[n - 1]) {
            1int
        } else {
            0int
        }
    }
}

/// Runs a protocol against a list of replies: the protocol is handed the replies in
/// turn, instead of the answers of a broker, until it finishes or the replies end.
/// The result is the list of the requests that it asked for, and what it finished
/// with, if it finished.
pub fn replay<M: Protocol>(machine: M, replies: &Vec<Reply>) -> (r: (
    Vec<Request>,
    Option<Result<M::Output, Error>>,
))
    ensures
        r.0@ == trace(machine, replies@),
        r.1 == outcome(machine, replies@),
{
    let ghost start = machine;
    let mut asked: Vec<Request> = Vec::new();
    let mut m = machine;
    let mut i: usize = 0;
    loop
        invariant
            i <= replies.len(),
            start == machine,
            trace(start, replies@) == asked@ + trace_from(m, replies@, i as int),
            outcome(start, replies@) == outcome_from(m, replies@, i as int),
        decreases replies.len() - i,
    {
        let ghost before = asked@;
        asked.push(m.request());
        if i >= replies.len() {
            assert(asked@ =~= before + trace_from(m, replies@, i as int));
            return (asked, None);
        }
        match m.advance(replies[i]) {
            Progress::Next(n) => {
                assert(asked@ + trace_from(n, replies@, i + 1) =~= before + trace_from(
                    m,
                    replies@,
                    i as int,
                ));
                m = n;
                i += 1;
            },
            Progress::Finish(r) => {
                assert(asked@ =~= before + trace_from(m, replies@, i as int));
                return (asked, Some(r));
            },
        }
    }
}

} // verus!
