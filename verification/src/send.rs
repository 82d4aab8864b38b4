//! Sending a message: the protocol of a session's send.
//!
//! A send takes up to four steps that ask the broker for something: a reference to the
//! destination, a producer for this one call where the session owns none, the wire
//! message, and the transmission itself. Whatever the first three gave is given back
//! before the send finishes, whether or not a later step failed: the producer of this
//! call is closed, the wire message destroyed, the destination reference destroyed, in
//! that order. The replies to these three are not looked at.

use vstd::prelude::*;
use crate::c_binding::tibemsDestinationType;
use crate::destination::Destination;
use crate::error::Error;
use crate::error::SendStep;
use crate::handles::Session;
use crate::marshal::WireMessage;
use crate::marshal::WireMessageView;
use crate::marshal::encode;
use crate::marshal::wire_message;
use crate::message::Message;
use crate::protocol::Progress;
use crate::protocol::Protocol;
use crate::protocol::Reply;
use crate::protocol::Request;
use crate::protocol::given_back;
use crate::protocol::one_if;
use crate::protocol::outcome;
use crate::protocol::outcome_from;
use crate::protocol::times;
use crate::protocol::trace;
use crate::protocol::trace_from;

verus! {

/// Where a send stands: the request it waits on the reply of, with what it holds.
#[derive(Debug, Clone, Copy, PartialEq, Eq, Structural)]
pub enum SendState {
    /// Waiting for the reference to the destination.
    Destination,
    /// Waiting for the producer of this call.
    Producer { destination: usize },
    /// Waiting for the wire message.
    Message { destination: usize, ad_hoc: Option<usize> },
    /// Waiting for the transmission.
    Transmit { destination: usize, ad_hoc: Option<usize>, message: usize },
    /// Waiting for the producer of this call to be closed.
    CloseProducer { destination: usize, producer: usize, held: Option<usize>, failure: Option<Error> },
    /// Waiting for the wire message to be destroyed.
    DestroyMessage { destination: usize, message: usize, failure: Option<Error> },
    /// Waiting for the destination reference to be destroyed.
    DestroyDestination { destination: usize, failure: Option<Error> },
}

/// A send in progress.
#[derive(Debug, Clone, Copy, PartialEq, Eq, Structural)]
pub struct SendProtocol {
    /// The session that sends.
    pub session: usize,
    /// The producer that the session owns; 0 where it owns none.
    pub own_producer: usize,
    /// The kind of the destination that is sent to.
    pub kind: tibemsDestinationType,
    /// Where the send stands.
    pub state: SendState,
}

/// The result of a send that met the given failure, or none.
pub open spec fn send_result(failure: Option<Error>) -> Result<(), Error> {
    match failure {
        Some(e) => Err(e),
        None => Ok(()),
    }
}

impl SendProtocol {
    /// The send in the given state.
    pub open spec fn at(self, state: SendState) -> SendProtocol {
        SendProtocol { state, ..self }
    }

    /// How the send goes on once nothing more is asked for but to give back what is
    /// held: first the producer of this call, then the wire message, then the
    /// destination reference.
    pub open spec fn release(
        self,
        ad_hoc: Option<usize>,
        message: Option<usize>,
        destination: usize,
        failure: Option<Error>,
    ) -> Progress<SendProtocol, ()> {
        match ad_hoc {
            Some(producer) => Progress::Next(
                self.at(SendState::CloseProducer { destination, producer, held: message, failure }),
            ),
            None => match message {
                Some(message) => Progress::Next(
                    self.at(SendState::DestroyMessage { destination, message, failure }),
                ),
                None => Progress::Next(
                    self.at(SendState::DestroyDestination { destination, failure }),
                ),
            },
        }
    }

    /// The producer that transmits: the one of this call where there is one, else the
    /// one that the session owns.
    pub open spec fn transmitter(self, ad_hoc: Option<usize>) -> usize {
        match ad_hoc {
            Some(producer) => producer,
            None => self.own_producer,
        }
    }

    /// The first state of the send of a session to a destination of the given kind.
    pub open spec fn initial(session: Session, kind: tibemsDestinationType) -> SendProtocol {
        SendProtocol {
            session: session.handle_of(),
            own_producer: session.producer_of(),
            kind,
            state: SendState::Destination,
        }
    }
}

impl Protocol for SendProtocol {
    type Output = ();

    open spec fn request_of(self) -> Request {
        match self.state {
            SendState::Destination => Request::CreateDestination { kind: self.kind },
            SendState::Producer { destination } => Request::CreateProducer {
                session: self.session,
                target: Some(destination),
            },
            SendState::Message { .. } => Request::CreateMessage,
            SendState::Transmit { destination, ad_hoc, message } => Request::Send {
                producer: self.transmitter(ad_hoc),
                target: Some(destination),
                message,
            },
            SendState::CloseProducer { producer, .. } => Request::CloseProducer { producer },
            SendState::DestroyMessage { message, .. } => Request::DestroyMessage { message },
            SendState::DestroyDestination { destination, .. } => Request::DestroyDestination {
                destination,
            },
        }
    }

    open spec fn next(self, reply: Reply) -> Progress<SendProtocol, ()> {
        match self.state {
            SendState::Destination => if reply.succeeded() {
                if self.own_producer == 0 {
                    Progress::Next(self.at(SendState::Producer { destination: reply.handle }))
                } else {
                    Progress::Next(
                        self.at(SendState::Message { destination: reply.handle, ad_hoc: None }),
                    )
                }
            } else {
                Progress::Finish(Err(Error::SendFailure(SendStep::Destination, reply.status)))
            },
            SendState::Producer { destination } => if reply.succeeded() {
                Progress::Next(
                    self.at(SendState::Message { destination, ad_hoc: Some(reply.handle) }),
                )
            } else {
                self.release(
                    None,
                    None,
                    destination,
                    Some(Error::SendFailure(SendStep::Producer, reply.status)),
                )
            },
            SendState::Message { destination, ad_hoc } => if reply.succeeded() {
                Progress::Next(
                    self.at(SendState::Transmit { destination, ad_hoc, message: reply.handle }),
                )
            } else {
                self.release(
                    ad_hoc,
                    None,
                    destination,
                    Some(Error::SendFailure(SendStep::Message, reply.status)),
                )
            },
            SendState::Transmit { destination, ad_hoc, message } => if reply.succeeded() {
                self.release(ad_hoc, Some(message), destination, None)
            } else {
                self.release(
                    ad_hoc,
                    Some(message),
                    destination,
                    Some(Error::SendFailure(SendStep::Transmit, reply.status)),
                )
            },
            SendState::CloseProducer { destination, held, failure, .. } => self.release(
                None,
                held,
                destination,
                failure,
            ),
            SendState::DestroyMessage { destination, failure, .. } => self.release(
                None,
                None,
                destination,
                failure,
            ),
            SendState::DestroyDestination { failure, .. } => Progress::Finish(
                send_result(failure),
            ),
        }
    }

    /// The request that the send asks for in this state.
    fn request(&self) -> (r: Request)
        ensures
            r == self.request_of(),
    {
        match self.state {
            SendState::Destination => Request::CreateDestination { kind: self.kind },
            SendState::Producer { destination } => Request::CreateProducer {
                session: self.session,
                target: Some(destination),
            },
            SendState::Message { .. } => Request::CreateMessage,
            SendState::Transmit { destination, ad_hoc, message } => {
                let producer = match ad_hoc {
                    Some(producer) => producer,
                    None => self.own_producer,
                };
                Request::Send { producer, target: Some(destination), message }
            },
            SendState::CloseProducer { producer, .. } => Request::CloseProducer { producer },
            SendState::DestroyMessage { message, .. } => Request::DestroyMessage { message },
            SendState::DestroyDestination { destination, .. } => Request::DestroyDestination {
                destination,
            },
        }
    }

    /// Takes the reply to the request of this state, and says how the send goes on.
    fn advance(self, reply: Reply) -> (r: Progress<SendProtocol, ()>)
        ensures
            r == self.next(reply),
    {
        match self.state {
            SendState::Destination => {
                if reply.is_ok() {
                    let state = if self.own_producer == 0 {
                        SendState::Producer { destination: reply.handle }
                    } else {
                        SendState::Message { destination: reply.handle, ad_hoc: None }
                    };
                    Progress::Next(SendProtocol { state, ..self })
                } else {
                    Progress::Finish(Err(Error::SendFailure(SendStep::Destination, reply.status)))
                }
            },
            SendState::Producer { destination } => {
                if reply.is_ok() {
                    let state = SendState::Message { destination, ad_hoc: Some(reply.handle) };
                    Progress::Next(SendProtocol { state, ..self })
                } else {
                    let failure = Error::SendFailure(SendStep::Producer, reply.status);
                    self.give_back(None, None, destination, Some(failure))
                }
            },
            SendState::Message { destination, ad_hoc } => {
                if reply.is_ok() {
                    let state = SendState::Transmit { destination, ad_hoc, message: reply.handle };
                    Progress::Next(SendProtocol { state, ..self })
                } else {
                    let failure = Error::SendFailure(SendStep::Message, reply.status);
                    self.give_back(ad_hoc, None, destination, Some(failure))
                }
            },
            SendState::Transmit { destination, ad_hoc, message } => {
                if reply.is_ok() {
                    self.give_back(ad_hoc, Some(message), destination, None)
                } else {
                    let failure = Error::SendFailure(SendStep::Transmit, reply.status);
                    self.give_back(ad_hoc, Some(message), destination, Some(failure))
                }
            },
            SendState::CloseProducer { destination, held, failure, .. } => self.give_back(
                None,
                held,
                destination,
                failure,
            ),
            SendState::DestroyMessage { destination, failure, .. } => self.give_back(
                None,
                None,
                destination,
                failure,
            ),
            SendState::DestroyDestination { failure, .. } => Progress::Finish(
                match failure {
                    Some(e) => Err(e),
                    None => Ok(()),
                },
            ),
        }
    }
}

impl SendProtocol {
    /// Begins the send of a session to a destination: the first request is for the
    /// reference to the destination.
    pub fn begin(session: &Session, destination: &Destination) -> (r: SendProtocol)
        ensures
            r == SendProtocol::initial(*session, destination.kind_of()),
    {
        SendProtocol {
            session: session.handle(),
            own_producer: session.producer(),
            kind: destination.kind(),
            state: SendState::Destination,
        }
    }

    fn give_back(
        self,
        ad_hoc: Option<usize>,
        message: Option<usize>,
        destination: usize,
        failure: Option<Error>,
    ) -> (r: Progress<SendProtocol, ()>)
        ensures
            r == self.release(ad_hoc, message, destination, failure),
    {
        let state = match ad_hoc {
            Some(producer) => SendState::CloseProducer {
                destination,
                producer,
                held: message,
                failure,
            },
            None => match message {
                Some(message) => SendState::DestroyMessage { destination, message, failure },
                None => SendState::DestroyDestination { destination, failure },
            },
        };
        Progress::Next(SendProtocol { state, ..self })
    }

}

/// Prepares the send of a message: the wire form of the message, which goes with the
/// request for the wire message, and the protocol of the send in its first state.
///
/// A message that has no wire form is refused here, with the failure that tells why,
/// and nothing is asked of the broker.
pub fn prepare_send(session: &Session, destination: &Destination, message: &Message) -> (r: Result<
    (SendProtocol, WireMessage),
    Error,
>)
    ensures
        match r {
            Ok((protocol, wire)) => {
                &&& protocol == SendProtocol::initial(*session, destination.kind_of())
                &&& wire_message(message@) == Ok::<WireMessageView, Error>(wire@)
            },
            Err(e) => wire_message(message@) == Err::<WireMessageView, Error>(e),
        },
{
    match encode(message) {
        Ok(wire) => Ok((SendProtocol::begin(session, destination), wire)),
        Err(e) => Err(e),
    }
}

/// A send through the producer that the session owns asks for five requests at most,
/// and gives back what it was given.
///
/// If the destination reference is refused, nothing else is asked for. If the wire
/// message is refused, the destination reference is destroyed. Else the message is
/// transmitted, and then destroyed, and the destination reference is destroyed,
/// whether or not the transmission failed. The send succeeds exactly if every one of
/// the first three requests did, and else fails with the first that did not.
pub proof fn law_send_with_own_producer(
    session: Session,
    kind: tibemsDestinationType,
    replies: Seq<Reply>,
)
    requires
        session.producer_of() != 0,
        replies.len() >= 5,
    ensures
        ({
            let p = SendProtocol::initial(session, kind);
            let destination = replies[0].handle;
            let message = replies[1].handle;
            let create = Request::CreateDestination { kind };
            let destroy = Request::DestroyDestination { destination };
            let send = Request::Send {
                producer: session.producer_of(),
                target: Some(destination),
                message,
            };
            if !replies[0].succeeded() {
                &&& trace(p, replies) == seq![create]
                &&& outcome(p, replies) == Some(
                    Err::<(), Error>(Error::SendFailure(SendStep::Destination, replies[0].status)),
                )
            } else if !replies[1].succeeded() {
                &&& trace(p, replies) == seq![create, Request::CreateMessage, destroy]
                &&& outcome(p, replies) == Some(
                    Err::<(), Error>(Error::SendFailure(SendStep::Message, replies[1].status)),
                )
            } else {
                &&& trace(p, replies) == seq![
                    create,
                    Request::CreateMessage,
                    send,
                    Request::DestroyMessage { message },
                    destroy,
                ]
                &&& outcome(p, replies) == Some(
                    if replies[2].succeeded() {
                        Ok::<(), Error>(())
                    } else {
                        Err(Error::SendFailure(SendStep::Transmit, replies[2].status))
                    },
                )
            }
        }),
{
    reveal_with_fuel(trace_from, 6);
    reveal_with_fuel(outcome_from, 6);
}

/// A send of a session that owns no producer asks for seven requests at most, and
/// gives back what it was given.
///
/// The producer that the send creates is bound to the destination, transmits the
/// message, and is closed before the wire message and the destination reference are
/// destroyed. Each of the three is given back if and only if it was given, whichever
/// later request failed. The send succeeds exactly if every one of the first four
/// requests did, and else fails with the first that did not.
pub proof fn law_send_with_ad_hoc_producer(
    session: Session,
    kind: tibemsDestinationType,
    replies: Seq<Reply>,
)
    requires
        session.producer_of() == 0,
        replies.len() >= 7,
    ensures
        ({
            let p = SendProtocol::initial(session, kind);
            let destination = replies[0].handle;
            let producer = replies[1].handle;
            let message = replies[2].handle;
            let create = Request::CreateDestination { kind };
            let produce = Request::CreateProducer {
                session: session.handle_of(),
                target: Some(destination),
            };
            let close = Request::CloseProducer { producer };
            let destroy = Request::DestroyDestination { destination };
            let send = Request::Send { producer, target: Some(destination), message };
            if !replies[0].succeeded() {
                &&& trace(p, replies) == seq![create]
                &&& outcome(p, replies) == Some(
                    Err::<(), Error>(Error::SendFailure(SendStep::Destination, replies[0].status)),
                )
            } else if !replies[1].succeeded() {
                &&& trace(p, replies) == seq![create, produce, destroy]
                &&& outcome(p, replies) == Some(
                    Err::<(), Error>(Error::SendFailure(SendStep::Producer, replies[1].status)),
                )
            } else if !replies[2].succeeded() {
                &&& trace(p, replies) == seq![create, produce, Request::CreateMessage, close, destroy]
                &&& outcome(p, replies) == Some(
                    Err::<(), Error>(Error::SendFailure(SendStep::Message, replies[2].status)),
                )
            } else {
                &&& trace(p, replies) == seq![
                    create,
                    produce,
                    Request::CreateMessage,
                    send,
                    close,
                    Request::DestroyMessage { message },
                    destroy,
                ]
                &&& outcome(p, replies) == Some(
                    if replies[3].succeeded() {
                        Ok::<(), Error>(())
                    } else {
                        Err(Error::SendFailure(SendStep::Transmit, replies[3].status))
                    },
                )
            }
        }),
{
    reveal_with_fuel(trace_from, 8);
    reveal_with_fuel(outcome_from, 8);
}

/// Whatever the broker answers, a send gives back each thing that it was given exactly
/// once, and nothing that it was not given: the destination reference, the producer
/// of this call, and the wire message. The producer that the session owns is not
/// given back.
pub proof fn law_send_gives_back_once(
    session: Session,
    kind: tibemsDestinationType,
    replies: Seq<Reply>,
)
    requires
        replies.len() >= 7,
    ensures
        ({
            let p = SendProtocol::initial(session, kind);
            let requests = trace(p, replies);
            let n = requests.len() as int;
            let ad_hoc = session.producer_of() == 0;
            let got_destination = replies[0].succeeded();
            let got_producer = ad_hoc && got_destination && replies[1].succeeded();
            let message_at = if ad_hoc {
                2int
            } else {
                1int
            };
            let got_message = got_destination && (ad_hoc ==> got_producer)
                && replies[message_at].succeeded();
            &&& outcome(p, replies) is Some
            &&& times(requests, Request::DestroyDestination { destination: replies[0].handle }, n)
                == one_if(got_destination)
            &&& ad_hoc ==> times(requests, Request::CloseProducer { producer: replies[1].handle }, n)
                == one_if(got_producer)
            &&& times(requests, Request::DestroyMessage { message: replies[message_at].handle }, n)
                == one_if(got_message)
            &&& given_back(requests, n) == one_if(got_destination) + one_if(got_producer) + one_if(
                got_message,
            )
        }),
{
    reveal_with_fuel(times, 8);
    reveal_with_fuel(given_back, 8);
    if session.producer_of() == 0 {
        law_send_with_ad_hoc_producer(session, kind, replies);
    } else {
        law_send_with_own_producer(session, kind, replies);
    }
}

} // verus!
