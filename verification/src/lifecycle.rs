//! The life of a connection, a session and a consumer: how each comes to be, how a
//! message is waited for, and how a session ends.
//!
//! Each is a protocol over the broker's primitives. What a protocol was given by the
//! broker and does not hand to the caller, it gives back before it finishes.

use vstd::prelude::*;
use crate::c_binding::tibemsAcknowledgeMode;
use crate::c_binding::tibemsDestinationType;
use crate::destination::Destination;
use crate::error::ConnectStep;
use crate::error::ConsumerStep;
use crate::error::Error;
use crate::handles::Connection;
use crate::handles::Consumer;
use crate::handles::Session;
use crate::protocol::Progress;
use crate::protocol::Protocol;
use crate::protocol::Reply;
use crate::protocol::Request;
use crate::protocol::outcome;
use crate::protocol::outcome_from;
use crate::protocol::trace;
use crate::protocol::trace_from;

verus! {

/// Where the opening of a connection stands.
#[derive(Debug, Clone, Copy, PartialEq, Eq, Structural)]
pub enum ConnectState {
    /// The connection is asked for.
    Opening,
    /// The connection exists and is being started.
    Starting { connection: usize },
    /// The connection runs; the url of the active server is asked for.
    Locating { connection: usize },
    /// The administrative connection to the active server is asked for.
    OpeningAdmin,
    /// The administrative connection exists and is being started.
    StartingAdmin { connection: usize },
}

/// The opening of a connection, plain or administrative.
///
/// A plain connection is opened and started. For an administrative one, a plain
/// connection is opened and started first and asked for the url of the active server;
/// then the administrative connection is opened to that server and started.
#[derive(Debug, Clone, Copy, PartialEq, Eq, Structural)]
pub struct ConnectProtocol {
    /// Whether an administrative connection is wanted.
    pub admin: bool,
    /// Where the opening stands.
    pub state: ConnectState,
}

impl ConnectProtocol {
    /// The opening in the given state.
    pub open spec fn at(self, state: ConnectState) -> ConnectProtocol {
        ConnectProtocol { state, ..self }
    }

    /// The first state of the opening of a connection.
    pub open spec fn initial(admin: bool) -> ConnectProtocol {
        ConnectProtocol { admin, state: ConnectState::Opening }
    }
}

impl Protocol for ConnectProtocol {
    type Output = usize;

    open spec fn request_of(self) -> Request {
        match self.state {
            ConnectState::Opening => Request::Connect { admin: false },
            ConnectState::Starting { connection } => Request::Start { connection },
            ConnectState::Locating { connection } => Request::GetActiveUrl { connection },
            ConnectState::OpeningAdmin => Request::Connect { admin: true },
            ConnectState::StartingAdmin { connection } => Request::Start { connection },
        }
    }

    open spec fn next(self, reply: Reply) -> Progress<ConnectProtocol, usize> {
        match self.state {
            ConnectState::Opening => if reply.succeeded() {
                Progress::Next(self.at(ConnectState::Starting { connection: reply.handle }))
            } else {
                Progress::Finish(Err(Error::ConnectFailure(ConnectStep::Open, reply.status)))
            },
            ConnectState::Starting { connection } => if !reply.succeeded() {
                Progress::Finish(Err(Error::ConnectFailure(ConnectStep::Start, reply.status)))
            } else if self.admin {
                Progress::Next(self.at(ConnectState::Locating { connection }))
            } else {
                Progress::Finish(Ok(connection))
            },
            ConnectState::Locating { .. } => if reply.succeeded() {
                Progress::Next(self.at(ConnectState::OpeningAdmin))
            } else {
                Progress::Finish(Err(Error::ConnectFailure(ConnectStep::ActiveUrl, reply.status)))
            },
            ConnectState::OpeningAdmin => if reply.succeeded() {
                Progress::Next(self.at(ConnectState::StartingAdmin { connection: reply.handle }))
            } else {
                Progress::Finish(Err(Error::ConnectFailure(ConnectStep::Open, reply.status)))
            },
            ConnectState::StartingAdmin { connection } => if reply.succeeded() {
                Progress::Finish(Ok(connection))
            } else {
                Progress::Finish(Err(Error::ConnectFailure(ConnectStep::Start, reply.status)))
            },
        }
    }

    /// The request that the opening asks for in this state.
    fn request(&self) -> (r: Request)
        ensures
            r == self.request_of(),
    {
        match self.state {
            ConnectState::Opening => Request::Connect { admin: false },
            ConnectState::Starting { connection } => Request::Start { connection },
            ConnectState::Locating { connection } => Request::GetActiveUrl { connection },
            ConnectState::OpeningAdmin => Request::Connect { admin: true },
            ConnectState::StartingAdmin { connection } => Request::Start { connection },
        }
    }

    /// Takes the reply to the request of this state, and says how the opening goes on.
    /// It finishes with the handle of the connection that the caller asked for.
    fn advance(self, reply: Reply) -> (r: Progress<ConnectProtocol, usize>)
        ensures
            r == self.next(reply),
    {
        let ok = reply.is_ok();
        match self.state {
            ConnectState::Opening => {
                if ok {
                    let state = ConnectState::Starting { connection: reply.handle };
                    Progress::Next(ConnectProtocol { state, ..self })
                } else {
                    Progress::Finish(Err(Error::ConnectFailure(ConnectStep::Open, reply.status)))
                }
            },
            ConnectState::Starting { connection } => {
                if !ok {
                    Progress::Finish(Err(Error::ConnectFailure(ConnectStep::Start, reply.status)))
                } else if self.admin {
                    let state = ConnectState::Locating { connection };
                    Progress::Next(ConnectProtocol { state, ..self })
                } else {
                    Progress::Finish(Ok(connection))
                }
            },
            ConnectState::Locating { .. } => {
                if ok {
                    Progress::Next(ConnectProtocol { state: ConnectState::OpeningAdmin, ..self })
                } else {
                    Progress::Finish(
                        Err(Error::ConnectFailure(ConnectStep::ActiveUrl, reply.status)),
                    )
                }
            },
            ConnectState::OpeningAdmin => {
                if ok {
                    let state = ConnectState::StartingAdmin { connection: reply.handle };
                    Progress::Next(ConnectProtocol { state, ..self })
                } else {
                    Progress::Finish(Err(Error::ConnectFailure(ConnectStep::Open, reply.status)))
                }
            },
            ConnectState::StartingAdmin { connection } => {
                if ok {
                    Progress::Finish(Ok(connection))
                } else {
                    Progress::Finish(Err(Error::ConnectFailure(ConnectStep::Start, reply.status)))
                }
            },
        }
    }
}

impl ConnectProtocol {
    /// Begins the opening of a connection; `admin` asks for an administrative one.
    pub fn begin(admin: bool) -> (r: ConnectProtocol)
        ensures
            r == ConnectProtocol::initial(admin),
    {
        ConnectProtocol { admin, state: ConnectState::Opening }
    }

}

/// Where the opening of a session stands.
#[derive(Debug, Clone, Copy, PartialEq, Eq, Structural)]
pub enum OpenSessionState {
    /// The session is asked for.
    Session,
    /// The session exists; the producer that it owns is asked for.
    Producer { session: usize },
    /// The producer was refused; the session is being closed again.
    Abandon { session: usize, failure: Error },
}

/// The opening of a session on a connection, with the producer that the session owns.
#[derive(Debug, Clone, Copy, PartialEq, Eq, Structural)]
pub struct OpenSessionProtocol {
    /// The connection that the session is opened on.
    pub connection: usize,
    /// The acknowledge mode that the session is asked for with.
    pub mode: tibemsAcknowledgeMode,
    /// Where the opening stands.
    pub state: OpenSessionState,
}

/// The acknowledge mode that a session is asked for with: a session with transaction
/// support acknowledges each message on the client's explicit call, any other session
/// acknowledges by itself.
pub open spec fn acknowledge_mode(transacted: bool) -> tibemsAcknowledgeMode {
    if transacted {
        tibemsAcknowledgeMode::TIBEMS_EXPLICIT_CLIENT_ACKNOWLEDGE
    } else {
        tibemsAcknowledgeMode::TIBEMS_AUTO_ACKNOWLEDGE
    }
}

impl OpenSessionProtocol {
    /// The opening in the given state.
    pub open spec fn at(self, state: OpenSessionState) -> OpenSessionProtocol {
        OpenSessionProtocol { state, ..self }
    }

    /// The first state of the opening of a session on a connection.
    pub open spec fn initial(connection: Connection, transacted: bool) -> OpenSessionProtocol {
        OpenSessionProtocol {
            connection: connection.handle_of(),
            mode: acknowledge_mode(transacted),
            state: OpenSessionState::Session,
        }
    }
}

impl Protocol for OpenSessionProtocol {
    type Output = (usize, usize);

    open spec fn request_of(self) -> Request {
        match self.state {
            OpenSessionState::Session => Request::CreateSession {
                connection: self.connection,
                transacted: false,
                mode: self.mode,
            },
            OpenSessionState::Producer { session } => Request::CreateProducer {
                session,
                target: None,
            },
            OpenSessionState::Abandon { session, .. } => Request::CloseSession { session },
        }
    }

    open spec fn next(self, reply: Reply) -> Progress<OpenSessionProtocol, (usize, usize)> {
        match self.state {
            OpenSessionState::Session => if reply.succeeded() {
                Progress::Next(self.at(OpenSessionState::Producer { session: reply.handle }))
            } else {
                Progress::Finish(Err(Error::SessionCreateFailure(reply.status)))
            },
            OpenSessionState::Producer { session } => if reply.succeeded() {
                Progress::Finish(Ok((session, reply.handle)))
            } else {
                Progress::Next(
                    self.at(
                        OpenSessionState::Abandon {
                            session,
                            failure: Error::ProducerCreateFailure(reply.status),
                        },
                    ),
                )
            },
            OpenSessionState::Abandon { failure, .. } => Progress::Finish(Err(failure)),
        }
    }

    /// The request that the opening asks for in this state.
    fn request(&self) -> (r: Request)
        ensures
            r == self.request_of(),
    {
        match self.state {
            OpenSessionState::Session => Request::CreateSession {
                connection: self.connection,
                transacted: false,
                mode: self.mode,
            },
            OpenSessionState::Producer { session } => Request::CreateProducer {
                session,
                target: None,
            },
            OpenSessionState::Abandon { session, .. } => Request::CloseSession { session },
        }
    }

    /// Takes the reply to the request of this state, and says how the opening goes on.
    /// It finishes with the handles of the session and of its producer.
    fn advance(self, reply: Reply) -> (r: Progress<OpenSessionProtocol, (usize, usize)>)
        ensures
            r == self.next(reply),
    {
        match self.state {
            OpenSessionState::Session => {
                if reply.is_ok() {
                    let state = OpenSessionState::Producer { session: reply.handle };
                    Progress::Next(OpenSessionProtocol { state, ..self })
                } else {
                    Progress::Finish(Err(Error::SessionCreateFailure(reply.status)))
                }
            },
            OpenSessionState::Producer { session } => {
                if reply.is_ok() {
                    Progress::Finish(Ok((session, reply.handle)))
                } else {
                    let failure = Error::ProducerCreateFailure(reply.status);
                    let state = OpenSessionState::Abandon { session, failure };
                    Progress::Next(OpenSessionProtocol { state, ..self })
                }
            },
            OpenSessionState::Abandon { failure, .. } => Progress::Finish(Err(failure)),
        }
    }
}

impl OpenSessionProtocol {
    /// Begins the opening of a session on a connection, with or without transaction
    /// support.
    pub fn begin(connection: &Connection, transacted: bool) -> (r: OpenSessionProtocol)
        ensures
            r == OpenSessionProtocol::initial(*connection, transacted),
    {
        let mode = if transacted {
            tibemsAcknowledgeMode::TIBEMS_EXPLICIT_CLIENT_ACKNOWLEDGE
        } else {
            tibemsAcknowledgeMode::TIBEMS_AUTO_ACKNOWLEDGE
        };
        OpenSessionProtocol {
            connection: connection.handle(),
            mode,
            state: OpenSessionState::Session,
        }
    }

}

/// The three ways in which a consumer reads from a destination.
#[derive(Debug, Clone, Copy, PartialEq, Eq, Structural)]
pub enum Subscription {
    /// A consumer of its own, on a queue or a topic.
    Plain,
    /// A consumer that shares a named subscription on a topic.
    Shared,
    /// A consumer that shares a named durable subscription on a topic.
    Durable,
}

/// How the request for a consumer ended.
#[derive(Debug, Clone, Copy, PartialEq, Eq, Structural)]
pub enum Granted {
    /// The consumer was created; this is its handle.
    Consumer(usize),
    /// The consumer was refused.
    Refused(Error),
}

impl Granted {
    /// The result that the creation finishes with.
    pub open spec fn result_of(self) -> Result<usize, Error> {
        match self {
            Granted::Consumer(consumer) => Ok(consumer),
            Granted::Refused(e) => Err(e),
        }
    }

    /// The result that the creation finishes with.
    pub fn result(self) -> (r: Result<usize, Error>)
        ensures
            r == self.result_of(),
    {
        match self {
            Granted::Consumer(consumer) => Ok(consumer),
            Granted::Refused(e) => Err(e),
        }
    }
}

/// Where the creation of a consumer stands.
#[derive(Debug, Clone, Copy, PartialEq, Eq, Structural)]
pub enum ConsumerState {
    /// The reference to the destination is asked for.
    Destination,
    /// The destination reference exists; the consumer is asked for.
    Consumer { destination: usize },
    /// The consumer was created or refused; the destination reference is being
    /// destroyed.
    Release { destination: usize, granted: Granted },
}

/// The creation of a consumer on a session.
#[derive(Debug, Clone, Copy, PartialEq, Eq, Structural)]
pub struct ConsumerProtocol {
    /// The session that the consumer is created on.
    pub session: usize,
    /// The kind of the destination that the consumer reads from.
    pub kind: tibemsDestinationType,
    /// The way in which the consumer reads.
    pub subscription: Subscription,
    /// Where the creation stands.
    pub state: ConsumerState,
}

impl ConsumerProtocol {
    /// The creation in the given state.
    pub open spec fn at(self, state: ConsumerState) -> ConsumerProtocol {
        ConsumerProtocol { state, ..self }
    }

    /// How the creation of a consumer begins: a shared subscription is refused on a
    /// queue before anything is asked of the broker; every other creation begins with
    /// the request for the destination reference.
    pub open spec fn start(
        session: Session,
        destination: Destination,
        subscription: Subscription,
    ) -> Progress<ConsumerProtocol, usize> {
        if subscription != Subscription::Plain && destination is Queue {
            Progress::Finish(Err(Error::WrongDestinationKind))
        } else {
            Progress::Next(
                ConsumerProtocol {
                    session: session.handle_of(),
                    kind: destination.kind_of(),
                    subscription,
                    state: ConsumerState::Destination,
                },
            )
        }
    }
}

impl Protocol for ConsumerProtocol {
    type Output = usize;

    open spec fn request_of(self) -> Request {
        match self.state {
            ConsumerState::Destination => Request::CreateDestination { kind: self.kind },
            ConsumerState::Consumer { destination } => match self.subscription {
                Subscription::Plain => Request::CreateConsumer {
                    session: self.session,
                    destination,
                    no_local: true,
                },
                Subscription::Shared => Request::CreateSharedConsumer {
                    session: self.session,
                    destination,
                },
                Subscription::Durable => Request::CreateSharedDurableConsumer {
                    session: self.session,
                    destination,
                },
            },
            ConsumerState::Release { destination, .. } => Request::DestroyDestination {
                destination,
            },
        }
    }

    open spec fn next(self, reply: Reply) -> Progress<ConsumerProtocol, usize> {
        match self.state {
            ConsumerState::Destination => if reply.succeeded() {
                Progress::Next(self.at(ConsumerState::Consumer { destination: reply.handle }))
            } else {
                Progress::Finish(
                    Err(Error::ConsumerCreateFailure(ConsumerStep::Destination, reply.status)),
                )
            },
            ConsumerState::Consumer { destination } => Progress::Next(
                self.at(
                    ConsumerState::Release {
                        destination,
                        granted: if reply.succeeded() {
                            Granted::Consumer(reply.handle)
                        } else {
                            Granted::Refused(
                                Error::ConsumerCreateFailure(ConsumerStep::Consumer, reply.status),
                            )
                        },
                    },
                ),
            ),
            ConsumerState::Release { granted, .. } => Progress::Finish(granted.result_of()),
        }
    }

    /// The request that the creation asks for in this state.
    fn request(&self) -> (r: Request)
        ensures
            r == self.request_of(),
    {
        match self.state {
            ConsumerState::Destination => Request::CreateDestination { kind: self.kind },
            ConsumerState::Consumer { destination } => match self.subscription {
                Subscription::Plain => Request::CreateConsumer {
                    session: self.session,
                    destination,
                    no_local: true,
                },
                Subscription::Shared => Request::CreateSharedConsumer {
                    session: self.session,
                    destination,
                },
                Subscription::Durable => Request::CreateSharedDurableConsumer {
                    session: self.session,
                    destination,
                },
            },
            ConsumerState::Release { destination, .. } => Request::DestroyDestination {
                destination,
            },
        }
    }

    /// Takes the reply to the request of this state, and says how the creation goes
    /// on. It finishes with the handle of the consumer.
    fn advance(self, reply: Reply) -> (r: Progress<ConsumerProtocol, usize>)
        ensures
            r == self.next(reply),
    {
        match self.state {
            ConsumerState::Destination => {
                if reply.is_ok() {
                    let state = ConsumerState::Consumer { destination: reply.handle };
                    Progress::Next(ConsumerProtocol { state, ..self })
                } else {
                    Progress::Finish(
                        Err(Error::ConsumerCreateFailure(ConsumerStep::Destination, reply.status)),
                    )
                }
            },
            ConsumerState::Consumer { destination } => {
                let granted = if reply.is_ok() {
                    Granted::Consumer(reply.handle)
                } else {
                    Granted::Refused(
                        Error::ConsumerCreateFailure(ConsumerStep::Consumer, reply.status),
                    )
                };
                let state = ConsumerState::Release { destination, granted };
                Progress::Next(ConsumerProtocol { state, ..self })
            },
            ConsumerState::Release { granted, .. } => Progress::Finish(granted.result()),
        }
    }
}

impl ConsumerProtocol {
    /// Begins the creation of a consumer on a session that reads from a destination.
    ///
    /// A shared or durable subscription needs a topic: on a queue the creation fails
    /// here, and nothing is asked of the broker. A plain consumer reads from either
    /// kind of destination.
    pub fn begin(session: &Session, destination: &Destination, subscription: Subscription) -> (r:
        Progress<ConsumerProtocol, usize>)
        ensures
            r == ConsumerProtocol::start(*session, *destination, subscription),
    {
        let plain = match subscription {
            Subscription::Plain => true,
            _ => false,
        };
        if !plain && !destination.is_topic() {
            Progress::Finish(Err(Error::WrongDestinationKind))
        } else {
            Progress::Next(
                ConsumerProtocol {
                    session: session.handle(),
                    kind: destination.kind(),
                    subscription,
                    state: ConsumerState::Destination,
                },
            )
        }
    }

}

/// The wait of a consumer for a message.
#[derive(Debug, Clone, Copy, PartialEq, Eq, Structural)]
pub struct ReceiveProtocol {
    /// The consumer that waits.
    pub consumer: usize,
    /// For how many milliseconds it waits; without a number, for as long as it takes.
    pub wait: Option<i64>,
}

impl Protocol for ReceiveProtocol {
    type Output = Option<usize>;

    open spec fn request_of(self) -> Request {
        match self.wait {
            Some(millis) => Request::ReceiveTimeout { consumer: self.consumer, millis },
            None => Request::Receive { consumer: self.consumer },
        }
    }

    open spec fn next(self, reply: Reply) -> Progress<ReceiveProtocol, Option<usize>> {
        if reply.succeeded() {
            Progress::Finish(Ok(Some(reply.handle)))
        } else if reply.timed_out() && self.wait is Some {
            Progress::Finish(Ok(None))
        } else {
            Progress::Finish(Err(Error::ReceiveFailure(reply.status)))
        }
    }

    /// The request that the wait asks for.
    fn request(&self) -> (r: Request)
        ensures
            r == self.request_of(),
    {
        match self.wait {
            Some(millis) => Request::ReceiveTimeout { consumer: self.consumer, millis },
            None => Request::Receive { consumer: self.consumer },
        }
    }

    /// Takes the reply to the request, and finishes: with the handle of the wire
    /// message that was delivered; with nothing, if the time of a timed wait ran out;
    /// else with the failure.
    fn advance(self, reply: Reply) -> (r: Progress<ReceiveProtocol, Option<usize>>)
        ensures
            r == self.next(reply),
    {
        if reply.is_ok() {
            Progress::Finish(Ok(Some(reply.handle)))
        } else if reply.is_timeout() && self.wait.is_some() {
            Progress::Finish(Ok(None))
        } else {
            Progress::Finish(Err(Error::ReceiveFailure(reply.status)))
        }
    }
}

impl ReceiveProtocol {
    /// Begins the wait of a consumer for a message, for the given number of
    /// milliseconds or, without a number, for as long as it takes.
    pub fn begin(consumer: &Consumer, wait: Option<i64>) -> (r: ReceiveProtocol)
        ensures
            r == (ReceiveProtocol { consumer: consumer.handle_of(), wait }),
    {
        ReceiveProtocol { consumer: consumer.handle(), wait }
    }

}

/// Where the end of a session stands.
#[derive(Debug, Clone, Copy, PartialEq, Eq, Structural)]
pub enum TeardownState {
    /// The producer that the session owns is being closed.
    Producer { producer: usize },
    /// The session itself is being closed.
    Session,
}

/// The end of a session: the producer that it owns is closed, then the session.
#[derive(Debug, Clone, Copy, PartialEq, Eq, Structural)]
pub struct TeardownProtocol {
    /// The session that ends.
    pub session: usize,
    /// Where the end stands.
    pub state: TeardownState,
}

impl TeardownProtocol {
    /// The first state of the end of a session.
    pub open spec fn initial(session: Session) -> TeardownProtocol {
        TeardownProtocol {
            session: session.handle_of(),
            state: if session.producer_of() != 0 {
                TeardownState::Producer { producer: session.producer_of() }
            } else {
                TeardownState::Session
            },
        }
    }
}

impl Protocol for TeardownProtocol {
    type Output = ();

    open spec fn request_of(self) -> Request {
        match self.state {
            TeardownState::Producer { producer } => Request::CloseProducer { producer },
            TeardownState::Session => Request::CloseSession { session: self.session },
        }
    }

    open spec fn next(self, reply: Reply) -> Progress<TeardownProtocol, ()> {
        match self.state {
            TeardownState::Producer { .. } => Progress::Next(
                TeardownProtocol { state: TeardownState::Session, ..self },
            ),
            TeardownState::Session => Progress::Finish(Ok(())),
        }
    }

    /// The request that the end of the session asks for in this state.
    fn request(&self) -> (r: Request)
        ensures
            r == self.request_of(),
    {
        match self.state {
            TeardownState::Producer { producer } => Request::CloseProducer { producer },
            TeardownState::Session => Request::CloseSession { session: self.session },
        }
    }

    /// Takes the reply to the request of this state, and says how the end goes on. The
    /// reply is not looked at: a close that fails is not tried again and stops nothing.
    fn advance(self, reply: Reply) -> (r: Progress<TeardownProtocol, ()>)
        ensures
            r == self.next(reply),
    {
        match self.state {
            TeardownState::Producer { .. } => Progress::Next(
                TeardownProtocol { state: TeardownState::Session, ..self },
            ),
            TeardownState::Session => Progress::Finish(Ok(())),
        }
    }
}

impl Session {
    /// Begins the end of the session: the first request closes the producer that the
    /// session owns, or the session itself where it owns none.
    pub fn close(&self) -> (r: TeardownProtocol)
        ensures
            r == TeardownProtocol::initial(*self),
    {
        let state = if self.producer() != 0 {
            TeardownState::Producer { producer: self.producer() }
        } else {
            TeardownState::Session
        };
        TeardownProtocol { session: self.handle(), state }
    }
}

/// A session that owns a producer ends with exactly two requests, whatever the broker
/// answers: the producer is closed, then the session. A close of the producer that
/// fails does not keep the session from being closed.
pub proof fn law_teardown_with_producer(session: Session, replies: Seq<Reply>)
    requires
        session.producer_of() != 0,
        replies.len() >= 2,
    ensures
        trace(TeardownProtocol::initial(session), replies) == seq![
            Request::CloseProducer { producer: session.producer_of() },
            Request::CloseSession { session: session.handle_of() },
        ],
        outcome(TeardownProtocol::initial(session), replies) == Some(Ok::<(), Error>(())),
{
    reveal_with_fuel(trace_from, 3);
    reveal_with_fuel(outcome_from, 3);
}

/// A session that owns no producer ends with the one request that closes it.
pub proof fn law_teardown_without_producer(session: Session, replies: Seq<Reply>)
    requires
        session.producer_of() == 0,
        replies.len() >= 1,
    ensures
        trace(TeardownProtocol::initial(session), replies) == seq![
            Request::CloseSession { session: session.handle_of() },
        ],
        outcome(TeardownProtocol::initial(session), replies) == Some(Ok::<(), Error>(())),
{
    reveal_with_fuel(trace_from, 2);
    reveal_with_fuel(outcome_from, 2);
}

/// The opening of a session asks for the session and then for its producer, which is
/// bound to no destination. If the producer is refused, the session is closed again
/// before the opening fails.
pub proof fn law_open_session(connection: Connection, transacted: bool, replies: Seq<Reply>)
    requires
        replies.len() >= 3,
    ensures
        ({
            let p = OpenSessionProtocol::initial(connection, transacted);
            let session = replies[0].handle;
            let create = Request::CreateSession {
                connection: connection.handle_of(),
                transacted: false,
                mode: acknowledge_mode(transacted),
            };
            let produce = Request::CreateProducer { session, target: None };
            if !replies[0].succeeded() {
                &&& trace(p, replies) == seq![create]
                &&& outcome(p, replies) == Some(
                    Err::<(usize, usize), Error>(Error::SessionCreateFailure(replies[0].status)),
                )
            } else if !replies[1].succeeded() {
                &&& trace(p, replies) == seq![create, produce, Request::CloseSession { session }]
                &&& outcome(p, replies) == Some(
                    Err::<(usize, usize), Error>(Error::ProducerCreateFailure(replies[1].status)),
                )
            } else {
                &&& trace(p, replies) == seq![create, produce]
                &&& outcome(p, replies) == Some(
                    Ok::<(usize, usize), Error>((session, replies[1].handle)),
                )
            }
        }),
{
    reveal_with_fuel(trace_from, 4);
    reveal_with_fuel(outcome_from, 4);
}

/// The creation of a consumer asks for the destination reference and for the
/// consumer, and destroys the reference again whether or not the consumer was given.
pub proof fn law_create_consumer(p: ConsumerProtocol, replies: Seq<Reply>)
    requires
        p.state == ConsumerState::Destination,
        replies.len() >= 3,
    ensures
        ({
            let destination = replies[0].handle;
            let create = Request::CreateDestination { kind: p.kind };
            let consume = p.at(ConsumerState::Consumer { destination }).request_of();
            if !replies[0].succeeded() {
                &&& trace(p, replies) == seq![create]
                &&& outcome(p, replies) == Some(
                    Err::<usize, Error>(
                        Error::ConsumerCreateFailure(ConsumerStep::Destination, replies[0].status),
                    ),
                )
            } else {
                &&& trace(p, replies) == seq![
                    create,
                    consume,
                    Request::DestroyDestination { destination },
                ]
                &&& outcome(p, replies) == Some(
                    if replies[1].succeeded() {
                        Ok::<usize, Error>(replies[1].handle)
                    } else {
                        Err(Error::ConsumerCreateFailure(ConsumerStep::Consumer, replies[1].status))
                    },
                )
            }
        }),
{
    reveal_with_fuel(trace_from, 4);
    reveal_with_fuel(outcome_from, 4);
}

/// A plain connection is opened and then started; it is handed out only if both
/// succeed.
pub proof fn law_connect(replies: Seq<Reply>)
    requires
        replies.len() >= 2,
    ensures
        ({
            let p = ConnectProtocol::initial(false);
            let open = Request::Connect { admin: false };
            if !replies[0].succeeded() {
                &&& trace(p, replies) == seq![open]
                &&& outcome(p, replies) == Some(
                    Err::<usize, Error>(Error::ConnectFailure(ConnectStep::Open, replies[0].status)),
                )
            } else {
                &&& trace(p, replies) == seq![
                    open,
                    Request::Start { connection: replies[0].handle },
                ]
                &&& outcome(p, replies) == Some(
                    if replies[1].succeeded() {
                        Ok::<usize, Error>(replies[0].handle)
                    } else {
                        Err(Error::ConnectFailure(ConnectStep::Start, replies[1].status))
                    },
                )
            }
        }),
{
    reveal_with_fuel(trace_from, 3);
    reveal_with_fuel(outcome_from, 3);
}

/// An administrative connection takes five requests: a plain connection is opened and
/// started and asked for the url of the active server, and then the administrative
/// connection is opened and started. It is the second connection that is handed out,
/// and only if every request succeeds.
pub proof fn law_connect_admin(replies: Seq<Reply>)
    requires
        replies.len() >= 5,
    ensures
        ({
            let p = ConnectProtocol::initial(true);
            let script = seq![
                Request::Connect { admin: false },
                Request::Start { connection: replies[0].handle },
                Request::GetActiveUrl { connection: replies[0].handle },
                Request::Connect { admin: true },
                Request::Start { connection: replies[3].handle },
            ];
            if !replies[0].succeeded() {
                &&& trace(p, replies) == script.subrange(0, 1)
                &&& outcome(p, replies) == Some(
                    Err::<usize, Error>(Error::ConnectFailure(ConnectStep::Open, replies[0].status)),
                )
            } else if !replies[1].succeeded() {
                &&& trace(p, replies) == script.subrange(0, 2)
                &&& outcome(p, replies) == Some(
                    Err::<usize, Error>(Error::ConnectFailure(ConnectStep::Start, replies[1].status)),
                )
            } else if !replies[2].succeeded() {
                &&& trace(p, replies) == script.subrange(0, 3)
                &&& outcome(p, replies) == Some(
                    Err::<usize, Error>(
                        Error::ConnectFailure(ConnectStep::ActiveUrl, replies[2].status),
                    ),
                )
            } else if !replies[3].succeeded() {
                &&& trace(p, replies) == script.subrange(0, 4)
                &&& outcome(p, replies) == Some(
                    Err::<usize, Error>(Error::ConnectFailure(ConnectStep::Open, replies[3].status)),
                )
            } else {
                &&& trace(p, replies) == script
                &&& outcome(p, replies) == Some(
                    if replies[4].succeeded() {
                        Ok::<usize, Error>(replies[3].handle)
                    } else {
                        Err(Error::ConnectFailure(ConnectStep::Start, replies[4].status))
                    },
                )
            }
        }),
{
    reveal_with_fuel(trace_from, 6);
    reveal_with_fuel(outcome_from, 6);
    let p = ConnectProtocol::initial(true);
    let script = seq![
        Request::Connect { admin: false },
        Request::Start { connection: replies[0].handle },
        Request::GetActiveUrl { connection: replies[0].handle },
        Request::Connect { admin: true },
        Request::Start { connection: replies[3].handle },
    ];
    if !replies[0].succeeded() {
        assert(trace(p, replies) =~= script.subrange(0, 1));
    } else if !replies[1].succeeded() {
        assert(trace(p, replies) =~= script.subrange(0, 2));
    } else if !replies[2].succeeded() {
        assert(trace(p, replies) =~= script.subrange(0, 3));
    } else if !replies[3].succeeded() {
        assert(trace(p, replies) =~= script.subrange(0, 4));
    } else {
        assert(trace(p, replies) =~= script);
    }
}

/// The text of a selector as the broker is given it: the selector itself, and the
/// empty text where there is none. A selector is not looked into.
pub fn selector_text(selector: Option<&str>) -> (r: String)
    ensures
        r@ == match selector {
            Some(s) => s@,
            None => Seq::<char>::empty(),
        },
{
    match selector {
        Some(s) => s.to_owned(),
        None => String::new(),
    }
}

impl Connection {
    /// The request that asks for the url of the server that the connection is active
    /// on.
    pub fn active_url_request(&self) -> (r: Request)
        ensures
            r == (Request::GetActiveUrl { connection: self.handle_of() }),
    {
        Request::GetActiveUrl { connection: self.handle() }
    }
}

/// Whether the broker told the url of the active server: it did if the request
/// completed normally, and else the connection counts as failed at this step.
pub fn active_url_result(reply: Reply) -> (r: Result<(), Error>)
    ensures
        r == if reply.succeeded() {
            Ok::<(), Error>(())
        } else {
            Err(Error::ConnectFailure(ConnectStep::ActiveUrl, reply.status))
        },
{
    if reply.is_ok() {
        Ok(())
    } else {
        Err(Error::ConnectFailure(ConnectStep::ActiveUrl, reply.status))
    }
}

} // verus!
