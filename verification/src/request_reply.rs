//! Request and reply: a message is sent with a temporary destination as its reply
//! address, and the reply is waited for there, for a limited time.
//!
//! The protocol passes through these stages: at first nothing exists; the temporary
//! destination is created; the destination reference and the producer of this call
//! are created; the wire message is created, addressed for the reply and sent; the
//! wire message, the producer and the destination reference are given back; a consumer
//! on the temporary destination is created; the reply is awaited; a reply is received
//! or the time runs out; the consumer is closed; the temporary destination is deleted.
//!
//! Whatever stage a failure strikes at, everything that the broker gave for this call
//! is given back before the call finishes: the temporary destination is deleted last.
//! That the time ran out is no failure: the call then succeeds without a reply.

use vstd::prelude::*;
use crate::c_binding::tibemsDestinationType;
use crate::destination::Destination;
use crate::error::ConsumerStep;
use crate::error::Error;
use crate::error::SendStep;
use crate::handles::Session;
use crate::marshal::WireMessage;
use crate::marshal::WireMessageView;
use crate::marshal::encode_request;
use crate::marshal::wire_message;
use crate::message::Message;
use crate::message::MessageView;
use crate::protocol::Progress;
use crate::protocol::Protocol;
use crate::protocol::Reply;
use crate::protocol::Request;
use crate::protocol::given_back;
use crate::protocol::one_if;
use crate::protocol::outcome;
use crate::protocol::outcome_from;
use crate::protocol::times;
use crate::protocol::trace;
use crate::protocol::trace_from;

verus! {

/// How the wait for the reply ended.
#[derive(Debug, Clone, Copy, PartialEq, Eq, Structural)]
pub enum Verdict {
    /// A reply arrived in time; this is the handle of its wire message.
    ReplyReceived(usize),
    /// No reply arrived in time.
    TimedOut,
    /// The call failed.
    Failed(Error),
}

impl Verdict {
    /// The result that the call finishes with.
    pub open spec fn result_of(self) -> Result<Option<usize>, Error> {
        match self {
            Verdict::ReplyReceived(message) => Ok(Some(message)),
            Verdict::TimedOut => Ok(None),
            Verdict::Failed(e) => Err(e),
        }
    }

    /// The result that the call finishes with.
    pub fn result(self) -> (r: Result<Option<usize>, Error>)
        ensures
            r == self.result_of(),
    {
        match self {
            Verdict::ReplyReceived(message) => Ok(Some(message)),
            Verdict::TimedOut => Ok(None),
            Verdict::Failed(e) => Err(e),
        }
    }
}

/// Where a request-reply call stands: what exists, and with it the request whose reply
/// is waited on.
#[derive(Debug, Clone, Copy, PartialEq, Eq, Structural)]
pub enum RequestReplyState {
    /// Nothing exists yet; the temporary destination is asked for.
    Init,
    /// The temporary destination exists; the destination reference is asked for.
    TempDestCreated { temp: usize },
    /// The destination reference exists; the producer is asked for.
    DestinationCreated { temp: usize, target: usize },
    /// The producer exists; the wire message is asked for.
    ProducerCreated { temp: usize, target: usize, producer: usize },
    /// The wire message exists; its reply address is being set.
    MessageCreated { temp: usize, target: usize, producer: usize, message: usize },
    /// The reply address is the temporary destination; the message is being sent.
    Addressed { temp: usize, target: usize, producer: usize, message: usize },
    /// The message was sent, or sending it failed; the wire message is being destroyed.
    Sent { temp: usize, target: usize, producer: usize, message: usize, failure: Option<Error> },
    /// No wire message is held; the producer is being closed.
    MessageReleased { temp: usize, target: usize, producer: usize, failure: Option<Error> },
    /// No producer is held; the destination reference is being destroyed.
    ProducerReleased { temp: usize, target: usize, failure: Option<Error> },
    /// Only the temporary destination is held; the consumer on it is asked for.
    TargetReleased { temp: usize },
    /// The consumer on the temporary destination exists; the reply is awaited.
    AwaitingReply { temp: usize, consumer: usize },
    /// The wait is over; the consumer is being closed.
    WaitOver { temp: usize, consumer: usize, verdict: Verdict },
    /// Only the temporary destination is held; it is being deleted.
    Settled { temp: usize, verdict: Verdict },
}

/// A request-reply call in progress.
#[derive(Debug, Clone, Copy, PartialEq, Eq, Structural)]
pub struct RequestReplyProtocol {
    /// The session that sends and receives.
    pub session: usize,
    /// The kind of the destination that is sent to; the temporary destination is of
    /// the same kind.
    pub kind: tibemsDestinationType,
    /// For how many milliseconds the reply is waited for.
    pub millis: i64,
    /// Where the call stands.
    pub state: RequestReplyState,
}

impl RequestReplyProtocol {
    /// The call in the given state.
    pub open spec fn at(self, state: RequestReplyState) -> RequestReplyProtocol {
        RequestReplyProtocol { state, ..self }
    }

    /// How the call goes on once the destination reference has been given back: with
    /// the consumer if nothing failed, else with the end.
    pub open spec fn after_sending(self, temp: usize, failure: Option<Error>) -> RequestReplyState {
        match failure {
            None => RequestReplyState::TargetReleased { temp },
            Some(e) => RequestReplyState::Settled { temp, verdict: Verdict::Failed(e) },
        }
    }

    /// How the wait ended, by the reply to the timed receive.
    pub open spec fn verdict_of(reply: Reply) -> Verdict {
        if reply.succeeded() {
            Verdict::ReplyReceived(reply.handle)
        } else if reply.timed_out() {
            Verdict::TimedOut
        } else {
            Verdict::Failed(Error::ReceiveFailure(reply.status))
        }
    }

    /// The first state of a call of a session to a destination of the given kind.
    pub open spec fn initial(
        session: Session,
        kind: tibemsDestinationType,
        millis: i64,
    ) -> RequestReplyProtocol {
        RequestReplyProtocol {
            session: session.handle_of(),
            kind,
            millis,
            state: RequestReplyState::Init,
        }
    }
}

impl Protocol for RequestReplyProtocol {
    type Output = Option<usize>;

    open spec fn request_of(self) -> Request {
        match self.state {
            RequestReplyState::Init => Request::CreateTemporary {
                session: self.session,
                kind: self.kind,
            },
            RequestReplyState::TempDestCreated { .. } => Request::CreateDestination {
                kind: self.kind,
            },
            RequestReplyState::DestinationCreated { target, .. } => Request::CreateProducer {
                session: self.session,
                target: Some(target),
            },
            RequestReplyState::ProducerCreated { .. } => Request::CreateMessage,
            RequestReplyState::MessageCreated { temp, message, .. } => Request::SetReplyTo {
                message,
                destination: temp,
            },
            RequestReplyState::Addressed { producer, message, .. } => Request::Send {
                producer,
                target: None,
                message,
            },
            RequestReplyState::Sent { message, .. } => Request::DestroyMessage { message },
            RequestReplyState::MessageReleased { producer, .. } => Request::CloseProducer {
                producer,
            },
            RequestReplyState::ProducerReleased { target, .. } => Request::DestroyDestination {
                destination: target,
            },
            RequestReplyState::TargetReleased { temp } => Request::CreateConsumer {
                session: self.session,
                destination: temp,
                no_local: true,
            },
            RequestReplyState::AwaitingReply { consumer, .. } => Request::ReceiveTimeout {
                consumer,
                millis: self.millis,
            },
            RequestReplyState::WaitOver { consumer, .. } => Request::CloseConsumer { consumer },
            RequestReplyState::Settled { temp, .. } => Request::DeleteTemporary {
                session: self.session,
                kind: self.kind,
                destination: temp,
            },
        }
    }

    open spec fn next(self, reply: Reply) -> Progress<RequestReplyProtocol, Option<usize>> {
        match self.state {
            RequestReplyState::Init => if reply.succeeded() {
                Progress::Next(self.at(RequestReplyState::TempDestCreated { temp: reply.handle }))
            } else {
                Progress::Finish(
                    Err(Error::SendFailure(SendStep::TemporaryDestination, reply.status)),
                )
            },
            RequestReplyState::TempDestCreated { temp } => if reply.succeeded() {
                Progress::Next(
                    self.at(RequestReplyState::DestinationCreated { temp, target: reply.handle }),
                )
            } else {
                Progress::Next(
                    self.at(
                        RequestReplyState::Settled {
                            temp,
                            verdict: Verdict::Failed(
                                Error::SendFailure(SendStep::Destination, reply.status),
                            ),
                        },
                    ),
                )
            },
            RequestReplyState::DestinationCreated { temp, target } => if reply.succeeded() {
                Progress::Next(
                    self.at(
                        RequestReplyState::ProducerCreated { temp, target, producer: reply.handle },
                    ),
                )
            } else {
                Progress::Next(
                    self.at(
                        RequestReplyState::ProducerReleased {
                            temp,
                            target,
                            failure: Some(Error::ProducerCreateFailure(reply.status)),
                        },
                    ),
                )
            },
            RequestReplyState::ProducerCreated { temp, target, producer } => if reply.succeeded() {
                Progress::Next(
                    self.at(
                        RequestReplyState::MessageCreated {
                            temp,
                            target,
                            producer,
                            message: reply.handle,
                        },
                    ),
                )
            } else {
                Progress::Next(
                    self.at(
                        RequestReplyState::MessageReleased {
                            temp,
                            target,
                            producer,
                            failure: Some(Error::SendFailure(SendStep::Message, reply.status)),
                        },
                    ),
                )
            },
            RequestReplyState::MessageCreated {
                temp,
                target,
                producer,
                message,
            } => if reply.succeeded() {
                Progress::Next(
                    self.at(RequestReplyState::Addressed { temp, target, producer, message }),
                )
            } else {
                Progress::Next(
                    self.at(
                        RequestReplyState::Sent {
                            temp,
                            target,
                            producer,
                            message,
                            failure: Some(Error::SendFailure(SendStep::ReplyTo, reply.status)),
                        },
                    ),
                )
            },
            RequestReplyState::Addressed { temp, target, producer, message } => Progress::Next(
                self.at(
                    RequestReplyState::Sent {
                        temp,
                        target,
                        producer,
                        message,
                        failure: if reply.succeeded() {
                            None
                        } else {
                            Some(Error::SendFailure(SendStep::Transmit, reply.status))
                        },
                    },
                ),
            ),
            RequestReplyState::Sent { temp, target, producer, failure, .. } => Progress::Next(
                self.at(RequestReplyState::MessageReleased { temp, target, producer, failure }),
            ),
            RequestReplyState::MessageReleased { temp, target, failure, .. } => Progress::Next(
                self.at(RequestReplyState::ProducerReleased { temp, target, failure }),
            ),
            RequestReplyState::ProducerReleased { temp, failure, .. } => Progress::Next(
                self.at(self.after_sending(temp, failure)),
            ),
            RequestReplyState::TargetReleased { temp } => if reply.succeeded() {
                Progress::Next(
                    self.at(RequestReplyState::AwaitingReply { temp, consumer: reply.handle }),
                )
            } else {
                Progress::Next(
                    self.at(
                        RequestReplyState::Settled {
                            temp,
                            verdict: Verdict::Failed(
                                Error::ConsumerCreateFailure(ConsumerStep::Consumer, reply.status),
                            ),
                        },
                    ),
                )
            },
            RequestReplyState::AwaitingReply { temp, consumer } => Progress::Next(
                self.at(
                    RequestReplyState::WaitOver {
                        temp,
                        consumer,
                        verdict: Self::verdict_of(reply),
                    },
                ),
            ),
            RequestReplyState::WaitOver { temp, verdict, .. } => Progress::Next(
                self.at(RequestReplyState::Settled { temp, verdict }),
            ),
            RequestReplyState::Settled { verdict, .. } => Progress::Finish(verdict.result_of()),
        }
    }

    /// The request that the call asks for in this state.
    fn request(&self) -> (r: Request)
        ensures
            r == self.request_of(),
    {
        match self.state {
            RequestReplyState::Init => Request::CreateTemporary {
                session: self.session,
                kind: self.kind,
            },
            RequestReplyState::TempDestCreated { .. } => Request::CreateDestination {
                kind: self.kind,
            },
            RequestReplyState::DestinationCreated { target, .. } => Request::CreateProducer {
                session: self.session,
                target: Some(target),
            },
            RequestReplyState::ProducerCreated { .. } => Request::CreateMessage,
            RequestReplyState::MessageCreated { temp, message, .. } => Request::SetReplyTo {
                message,
                destination: temp,
            },
            RequestReplyState::Addressed { producer, message, .. } => Request::Send {
                producer,
                target: None,
                message,
            },
            RequestReplyState::Sent { message, .. } => Request::DestroyMessage { message },
            RequestReplyState::MessageReleased { producer, .. } => Request::CloseProducer {
                producer,
            },
            RequestReplyState::ProducerReleased { target, .. } => Request::DestroyDestination {
                destination: target,
            },
            RequestReplyState::TargetReleased { temp } => Request::CreateConsumer {
                session: self.session,
                destination: temp,
                no_local: true,
            },
            RequestReplyState::AwaitingReply { consumer, .. } => Request::ReceiveTimeout {
                consumer,
                millis: self.millis,
            },
            RequestReplyState::WaitOver { consumer, .. } => Request::CloseConsumer { consumer },
            RequestReplyState::Settled { temp, .. } => Request::DeleteTemporary {
                session: self.session,
                kind: self.kind,
                destination: temp,
            },
        }
    }

    /// Takes the reply to the request of this state, and says how the call goes on.
    fn advance(self, reply: Reply) -> (r: Progress<RequestReplyProtocol, Option<usize>>)
        ensures
            r == self.next(reply),
    {
        let ok = reply.is_ok();
        let status = reply.status;
        match self.state {
            RequestReplyState::Init => {
                if ok {
                    self.moved(RequestReplyState::TempDestCreated { temp: reply.handle })
                } else {
                    Progress::Finish(
                        Err(Error::SendFailure(SendStep::TemporaryDestination, status)),
                    )
                }
            },
            RequestReplyState::TempDestCreated { temp } => {
                if ok {
                    self.moved(RequestReplyState::DestinationCreated { temp, target: reply.handle })
                } else {
                    let e = Error::SendFailure(SendStep::Destination, status);
                    self.moved(RequestReplyState::Settled { temp, verdict: Verdict::Failed(e) })
                }
            },
            RequestReplyState::DestinationCreated { temp, target } => {
                if ok {
                    self.moved(
                        RequestReplyState::ProducerCreated { temp, target, producer: reply.handle },
                    )
                } else {
                    let e = Error::ProducerCreateFailure(status);
                    self.moved(RequestReplyState::ProducerReleased { temp, target, failure: Some(e) })
                }
            },
            RequestReplyState::ProducerCreated { temp, target, producer } => {
                if ok {
                    self.moved(
                        RequestReplyState::MessageCreated {
                            temp,
                            target,
                            producer,
                            message: reply.handle,
                        },
                    )
                } else {
                    let e = Error::SendFailure(SendStep::Message, status);
                    self.moved(
                        RequestReplyState::MessageReleased { temp, target, producer, failure: Some(e) },
                    )
                }
            },
            RequestReplyState::MessageCreated { temp, target, producer, message } => {
                if ok {
                    self.moved(RequestReplyState::Addressed { temp, target, producer, message })
                } else {
                    let e = Error::SendFailure(SendStep::ReplyTo, status);
                    self.moved(
                        RequestReplyState::Sent { temp, target, producer, message, failure: Some(e) },
                    )
                }
            },
            RequestReplyState::Addressed { temp, target, producer, message } => {
                let failure = if ok {
                    None
                } else {
                    Some(Error::SendFailure(SendStep::Transmit, status))
                };
                self.moved(RequestReplyState::Sent { temp, target, producer, message, failure })
            },
            RequestReplyState::Sent { temp, target, producer, failure, .. } => self.moved(
                RequestReplyState::MessageReleased { temp, target, producer, failure },
            ),
            RequestReplyState::MessageReleased { temp, target, failure, .. } => self.moved(
                RequestReplyState::ProducerReleased { temp, target, failure },
            ),
            RequestReplyState::ProducerReleased { temp, failure, .. } => {
                match failure {
                    None => self.moved(RequestReplyState::TargetReleased { temp }),
                    Some(e) => self.moved(
                        RequestReplyState::Settled { temp, verdict: Verdict::Failed(e) },
                    ),
                }
            },
            RequestReplyState::TargetReleased { temp } => {
                if ok {
                    self.moved(RequestReplyState::AwaitingReply { temp, consumer: reply.handle })
                } else {
                    let e = Error::ConsumerCreateFailure(ConsumerStep::Consumer, status);
                    self.moved(RequestReplyState::Settled { temp, verdict: Verdict::Failed(e) })
                }
            },
            RequestReplyState::AwaitingReply { temp, consumer } => {
                let verdict = if ok {
                    Verdict::ReplyReceived(reply.handle)
                } else if reply.is_timeout() {
                    Verdict::TimedOut
                } else {
                    Verdict::Failed(Error::ReceiveFailure(status))
                };
                self.moved(RequestReplyState::WaitOver { temp, consumer, verdict })
            },
            RequestReplyState::WaitOver { temp, verdict, .. } => self.moved(
                RequestReplyState::Settled { temp, verdict },
            ),
            RequestReplyState::Settled { verdict, .. } => Progress::Finish(verdict.result()),
        }
    }
}

impl RequestReplyProtocol {
    /// Begins a call of a session to a destination, with the time to wait for the
    /// reply: the first request is for the temporary destination.
    pub fn begin(session: &Session, destination: &Destination, millis: i64) -> (r:
        RequestReplyProtocol)
        ensures
            r == RequestReplyProtocol::initial(*session, destination.kind_of(), millis),
    {
        RequestReplyProtocol {
            session: session.handle(),
            kind: destination.kind(),
            millis,
            state: RequestReplyState::Init,
        }
    }

    fn moved(self, state: RequestReplyState) -> (r: Progress<RequestReplyProtocol, Option<usize>>)
        ensures
            r == Progress::<RequestReplyProtocol, Option<usize>>::Next(self.at(state)),
    {
        Progress::Next(RequestReplyProtocol { state, ..self })
    }

}

/// Prepares a request-reply call: the wire form of the message, which goes with the
/// request for the wire message, and the protocol of the call in its first state.
///
/// The wire form carries no reply address: whatever address the sender put on the
/// message, the reply is expected on the temporary destination of the call, which the
/// protocol sets on the wire message. A message that has no wire form is refused here,
/// with the failure that tells why, and nothing is asked of the broker.
pub fn prepare_request(
    session: &Session,
    destination: &Destination,
    message: &Message,
    millis: i64,
) -> (r: Result<(RequestReplyProtocol, WireMessage), Error>)
    ensures
        match r {
            Ok((protocol, wire)) => {
                &&& protocol == RequestReplyProtocol::initial(
                    *session,
                    destination.kind_of(),
                    millis,
                )
                &&& wire_message(MessageView { reply_to: None, ..message@ }) == Ok::<
                    WireMessageView,
                    Error,
                >(wire@)
            },
            Err(e) => wire_message(MessageView { reply_to: None, ..message@ }) == Err::<
                WireMessageView,
                Error,
            >(e),
        },
{
    match encode_request(message) {
        Ok(wire) => Ok((RequestReplyProtocol::begin(session, destination, millis), wire)),
        Err(e) => Err(e),
    }
}

/// The requests of a request-reply call in the order in which it asks for them, by
/// the handles that the broker gives: the temporary destination, the destination
/// reference, the producer, the wire message, the consumer.
pub open spec fn request_reply_script(
    p: RequestReplyProtocol,
    temp: usize,
    target: usize,
    producer: usize,
    message: usize,
    consumer: usize,
) -> Seq<Request> {
    seq![
        Request::CreateTemporary { session: p.session, kind: p.kind },
        Request::CreateDestination { kind: p.kind },
        Request::CreateProducer { session: p.session, target: Some(target) },
        Request::CreateMessage,
        Request::SetReplyTo { message, destination: temp },
        Request::Send { producer, target: None, message },
        Request::DestroyMessage { message },
        Request::CloseProducer { producer },
        Request::DestroyDestination { destination: target },
        Request::CreateConsumer { session: p.session, destination: temp, no_local: true },
        Request::ReceiveTimeout { consumer, millis: p.millis },
        Request::CloseConsumer { consumer },
        Request::DeleteTemporary { session: p.session, kind: p.kind, destination: temp },
    ]
}

/// A call whose requests up to the wait are all granted asks for thirteen requests, in
/// the order of the stages, and finishes by how the wait ended: with the reply if one
/// was received, without a reply if the time ran out, with a failure if the wait
/// failed. In each of the three cases the consumer is closed and the temporary
/// destination is deleted, in this order, before the call finishes.
///
/// The replies to the requests that give something back (here at the places 6, 7, 8,
/// 11 and 12) change nothing.
pub proof fn law_request_reply_exchange(
    session: Session,
    kind: tibemsDestinationType,
    millis: i64,
    replies: Seq<Reply>,
)
    requires
        replies.len() >= 13,
        replies[0].succeeded(),
        replies[1].succeeded(),
        replies[2].succeeded(),
        replies[3].succeeded(),
        replies[4].succeeded(),
        replies[5].succeeded(),
        replies[9].succeeded(),
    ensures
        ({
            let p = RequestReplyProtocol::initial(session, kind, millis);
            &&& trace(p, replies) == request_reply_script(
                p,
                replies[0].handle,
                replies[1].handle,
                replies[2].handle,
                replies[3].handle,
                replies[9].handle,
            )
            &&& outcome(p, replies) == Some(
                if replies[10].succeeded() {
                    Ok::<Option<usize>, Error>(Some(replies[10].handle))
                } else if replies[10].timed_out() {
                    Ok(None)
                } else {
                    Err(Error::ReceiveFailure(replies[10].status))
                },
            )
        }),
{
    reveal_with_fuel(trace_from, 14);
    reveal_with_fuel(outcome_from, 14);
}

/// A call that is refused something asks for nothing more but gives back what it was
/// given, in the order in which a call that is refused nothing gives it back, and
/// fails with the refusal. The temporary destination, if it was given, is deleted
/// last.
pub proof fn law_request_reply_refusal(
    session: Session,
    kind: tibemsDestinationType,
    millis: i64,
    replies: Seq<Reply>,
)
    requires
        replies.len() >= 13,
        !replies[0].succeeded() || !replies[1].succeeded() || !replies[2].succeeded()
            || !replies[3].succeeded() || !replies[4].succeeded() || !replies[5].succeeded()
            || !replies[9].succeeded(),
    ensures
        ({
            let p = RequestReplyProtocol::initial(session, kind, millis);
            let script = request_reply_script(
                p,
                replies[0].handle,
                replies[1].handle,
                replies[2].handle,
                replies[3].handle,
                replies[9].handle,
            );
            if !replies[0].succeeded() {
                &&& trace(p, replies) == script.subrange(0, 1)
                &&& outcome(p, replies) == Some(
                    Err::<Option<usize>, Error>(
                        Error::SendFailure(SendStep::TemporaryDestination, replies[0].status),
                    ),
                )
            } else if !replies[1].succeeded() {
                &&& trace(p, replies) == script.subrange(0, 2) + script.subrange(12, 13)
                &&& outcome(p, replies) == Some(
                    Err::<Option<usize>, Error>(
                        Error::SendFailure(SendStep::Destination, replies[1].status),
                    ),
                )
            } else if !replies[2].succeeded() {
                &&& trace(p, replies) == script.subrange(0, 3) + script.subrange(8, 9)
                    + script.subrange(12, 13)
                &&& outcome(p, replies) == Some(
                    Err::<Option<usize>, Error>(Error::ProducerCreateFailure(replies[2].status)),
                )
            } else if !replies[3].succeeded() {
                &&& trace(p, replies) == script.subrange(0, 4) + script.subrange(7, 9)
                    + script.subrange(12, 13)
                &&& outcome(p, replies) == Some(
                    Err::<Option<usize>, Error>(
                        Error::SendFailure(SendStep::Message, replies[3].status),
                    ),
                )
            } else if !replies[4].succeeded() {
                &&& trace(p, replies) == script.subrange(0, 5) + script.subrange(6, 9)
                    + script.subrange(12, 13)
                &&& outcome(p, replies) == Some(
                    Err::<Option<usize>, Error>(
                        Error::SendFailure(SendStep::ReplyTo, replies[4].status),
                    ),
                )
            } else if !replies[5].succeeded() {
                &&& trace(p, replies) == script.subrange(0, 9) + script.subrange(12, 13)
                &&& outcome(p, replies) == Some(
                    Err::<Option<usize>, Error>(
                        Error::SendFailure(SendStep::Transmit, replies[5].status),
                    ),
                )
            } else {
                &&& trace(p, replies) == script.subrange(0, 10) + script.subrange(12, 13)
                &&& outcome(p, replies) == Some(
                    Err::<Option<usize>, Error>(
                        Error::ConsumerCreateFailure(ConsumerStep::Consumer, replies[9].status),
                    ),
                )
            }
        }),
{
    reveal_with_fuel(trace_from, 14);
    reveal_with_fuel(outcome_from, 14);
    let p = RequestReplyProtocol::initial(session, kind, millis);
    let script = request_reply_script(
        p,
        replies[0].handle,
        replies[1].handle,
        replies[2].handle,
        replies[3].handle,
        replies[9].handle,
    );
    assert(script.len() == 13);
    if !replies[0].succeeded() {
        assert(trace(p, replies) =~= script.subrange(0, 1));
    } else if !replies[1].succeeded() {
        assert(trace(p, replies) =~= script.subrange(0, 2) + script.subrange(12, 13));
    } else if !replies[2].succeeded() {
        assert(trace(p, replies) =~= script.subrange(0, 3) + script.subrange(8, 9)
            + script.subrange(12, 13));
    } else if !replies[3].succeeded() {
        assert(trace(p, replies) =~= script.subrange(0, 4) + script.subrange(7, 9)
            + script.subrange(12, 13));
    } else if !replies[4].succeeded() {
        assert(trace(p, replies) =~= script.subrange(0, 5) + script.subrange(6, 9)
            + script.subrange(12, 13));
    } else if !replies[5].succeeded() {
        assert(trace(p, replies) =~= script.subrange(0, 9) + script.subrange(12, 13));
    } else {
        assert(trace(p, replies) =~= script.subrange(0, 10) + script.subrange(12, 13));
    }
}

/// Whatever the broker answers, a call finishes after thirteen requests at most, and
/// if it was given a temporary destination, its last request, and no other, deletes
/// that destination.
pub proof fn law_request_reply_deletes_temporary(
    session: Session,
    kind: tibemsDestinationType,
    millis: i64,
    replies: Seq<Reply>,
)
    requires
        replies.len() >= 13,
    ensures
        ({
            let p = RequestReplyProtocol::initial(session, kind, millis);
            let requests = trace(p, replies);
            let delete = Request::DeleteTemporary {
                session: session.handle_of(),
                kind,
                destination: replies[0].handle,
            };
            &&& outcome(p, replies) is Some
            &&& 1 <= requests.len() <= 13
            &&& forall|i: int| 0 <= i < requests.len() - 1 ==> !(requests[i] is DeleteTemporary)
            &&& replies[0].succeeded() ==> requests.last() == delete
            &&& !replies[0].succeeded() ==> !(requests.last() is DeleteTemporary)
        }),
{
    if replies[0].succeeded() && replies[1].succeeded() && replies[2].succeeded()
        && replies[3].succeeded() && replies[4].succeeded() && replies[5].succeeded()
        && replies[9].succeeded() {
        law_request_reply_exchange(session, kind, millis, replies);
    } else {
        law_request_reply_refusal(session, kind, millis, replies);
    }
}

/// Whatever the broker answers, a call gives back each thing that it was given exactly
/// once, and nothing that it was not given: the temporary destination, the
/// destination reference, the producer, the wire message and the consumer. The wire
/// message of the reply is not given back: it is handed to the caller.
pub proof fn law_request_reply_gives_back_once(
    session: Session,
    kind: tibemsDestinationType,
    millis: i64,
    replies: Seq<Reply>,
)
    requires
        replies.len() >= 13,
    ensures
        ({
            let p = RequestReplyProtocol::initial(session, kind, millis);
            let requests = trace(p, replies);
            let n = requests.len() as int;
            let got_temp = replies[0].succeeded();
            let got_target = got_temp && replies[1].succeeded();
            let got_producer = got_target && replies[2].succeeded();
            let got_message = got_producer && replies[3].succeeded();
            let got_consumer = got_message && replies[4].succeeded() && replies[5].succeeded()
                && replies[9].succeeded();
            &&& times(
                requests,
                Request::DeleteTemporary {
                    session: session.handle_of(),
                    kind,
                    destination: replies[0].handle,
                },
                n,
            ) == one_if(got_temp)
            &&& times(requests, Request::DestroyDestination { destination: replies[1].handle }, n)
                == one_if(got_target)
            &&& times(requests, Request::CloseProducer { producer: replies[2].handle }, n)
                == one_if(got_producer)
            &&& times(requests, Request::DestroyMessage { message: replies[3].handle }, n)
                == one_if(got_message)
            &&& times(requests, Request::CloseConsumer { consumer: replies[9].handle }, n)
                == one_if(got_consumer)
            &&& given_back(requests, n) == one_if(got_temp) + one_if(got_target) + one_if(
                got_producer,
            ) + one_if(got_message) + one_if(got_consumer)
        }),
{
    reveal_with_fuel(times, 14);
    reveal_with_fuel(given_back, 14);
    if replies[0].succeeded() && replies[1].succeeded() && replies[2].succeeded()
        && replies[3].succeeded() && replies[4].succeeded() && replies[5].succeeded()
        && replies[9].succeeded() {
        law_request_reply_exchange(session, kind, millis, replies);
    } else {
        law_request_reply_refusal(session, kind, millis, replies);
    }
}

} // verus!
