//! An in-memory broker, for exercising callers without a live server.
//!
//! The broker holds at most one connection and one session, a log of every message
//! that was sent with the destination it was sent to, and the destination that the
//! consumer created last reads from. Nothing is ever taken from the log: a receive
//! hands out a copy of the first message in the log that is addressed to the consumer's
//! destination, and the same message again the next time. No receive ever waits.

use vstd::prelude::*;
use vstd::std_specs::convert::IntoSpec;
use crate::destination::Destination;
use crate::destination::DestinationView;
use crate::destination::destination_view;
use crate::error::Error;
use crate::handles::Connection;
use crate::handles::Consumer;
use crate::handles::Session;
use crate::message::BytesMessage;
use crate::message::MapMessage;
use crate::message::Message;
use crate::message::MessageView;
use crate::message::ObjectMessage;
use crate::message::TextMessage;

verus! {

/// The in-memory broker.
#[derive(Debug)]
pub struct MockServer {
    /// The connection that is open, if one is.
    pub connection: Option<Connection>,
    /// The session that is open, if one is.
    pub session: Option<Session>,
    /// Every message that was sent, with the destination that it was sent to, in the
    /// order of sending.
    pub messages: Vec<(Destination, Message)>,
    /// The destination that the consumer reads from.
    pub consumer: Option<Destination>,
}

/// Whether the entry at position `i` is the first in the log that is addressed to
/// `target`.
pub open spec fn first_at(
    log: Seq<(DestinationView, MessageView)>,
    target: DestinationView,
    i: int,
) -> bool {
    &&& 0 <= i < log.len()
    &&& log[i].0 == target
    &&& forall|j: int| 0 <= j < i ==> (#[trigger] log[j]).0 != target
}

/// What a consumer that reads from `target` receives from a log: a copy, without a
/// handle, of the first message in the log that is addressed to `target`; nothing if
/// there is no such message or no such consumer.
pub open spec fn delivery(
    log: Seq<(DestinationView, MessageView)>,
    target: Option<DestinationView>,
) -> Option<MessageView> {
    match target {
        Some(t) => if exists|i: int| first_at(log, t, i) {
            Some(log[choose|i: int| first_at(log, t, i)].1.without_handle())
        } else {
            None
        },
        None => None,
    }
}

/// The model of a message that may be absent.
pub open spec fn message_view(m: Option<Message>) -> Option<MessageView> {
    match m {
        Some(m) => Some(m@),
        None => None,
    }
}

/// At most one entry is the first that is addressed to a destination.
pub proof fn lemma_first_at_unique(
    log: Seq<(DestinationView, MessageView)>,
    target: DestinationView,
    i: int,
    j: int,
)
    requires
        first_at(log, target, i),
        first_at(log, target, j),
    ensures
        i == j,
{
    if i < j {
        assert(log[i].0 != target);
    } else if j < i {
        assert(log[j].0 != target);
    }
}

/// A message that is sent to a destination to which nothing in the log is addressed
/// is what a consumer on that destination receives; a consumer on any other
/// destination receives what it received before the send, which is nothing if nothing
/// in the log is addressed to it.
pub proof fn law_send_then_receive(
    log: Seq<(DestinationView, MessageView)>,
    destination: DestinationView,
    message: MessageView,
    other: DestinationView,
)
    requires
        other != destination,
    ensures
        (forall|i: int| 0 <= i < log.len() ==> (#[trigger] log[i]).0 != destination) ==> delivery(
            log.push((destination, message)),
            Some(destination),
        ) == Some(message.without_handle()),
        delivery(log.push((destination, message)), Some(other)) == delivery(log, Some(other)),
        (forall|i: int| 0 <= i < log.len() ==> (#[trigger] log[i]).0 != other) ==> delivery(
            log.push((destination, message)),
            Some(other),
        ) is None,
{
    let sent = log.push((destination, message));
    if forall|i: int| 0 <= i < log.len() ==> (#[trigger] log[i]).0 != destination {
        assert(first_at(sent, destination, log.len() as int)) by {
            assert forall|j: int| 0 <= j < log.len() implies (#[trigger] sent[j]).0
                != destination by {
                assert(sent[j] == log[j]);
            }
        }
        let i = choose|i: int| first_at(sent, destination, i);
        lemma_first_at_unique(sent, destination, i, log.len() as int);
    }
    if exists|i: int| first_at(log, other, i) {
        let i = choose|i: int| first_at(log, other, i);
        assert(first_at(sent, other, i)) by {
            assert(sent[i] == log[i]);
            assert forall|j: int| 0 <= j < i implies (#[trigger] sent[j]).0 != other by {
                assert(sent[j] == log[j]);
            }
        }
        let k = choose|k: int| first_at(sent, other, k);
        lemma_first_at_unique(sent, other, i, k);
    } else if exists|k: int| first_at(sent, other, k) {
        let k = choose|k: int| first_at(sent, other, k);
        assert(k < log.len());
        assert(first_at(log, other, k)) by {
            assert(sent[k] == log[k]);
            assert forall|j: int| 0 <= j < k implies (#[trigger] log[j]).0 != other by {
                assert(sent[j] == log[j]);
            }
        }
    }
    if forall|i: int| 0 <= i < log.len() ==> (#[trigger] log[i]).0 != other {
        if exists|i: int| first_at(log, other, i) {
            let i = choose|i: int| first_at(log, other, i);
            assert(log[i].0 != other);
        }
    }
}

impl MockServer {
    /// The log: every message that was sent, with the destination it was sent to.
    pub open spec fn log(&self) -> Seq<(DestinationView, MessageView)> {
        Seq::new(self.messages@.len(), |i: int| (self.messages@[i].0@, self.messages@[i].1@))
    }

    /// The destination that the consumer reads from.
    pub open spec fn target(&self) -> Option<DestinationView> {
        destination_view(self.consumer)
    }

    /// A broker with no connection, no session, no consumer and an empty log.
    pub fn new() -> (r: Self)
        ensures
            r.connection is None,
            r.session is None,
            r.consumer is None,
            r.log() == Seq::<(DestinationView, MessageView)>::empty(),
    {
        MockServer { connection: None, session: None, messages: Vec::new(), consumer: None }
    }

    /// Appends a message to the log.
    fn append(&mut self, destination: Destination, message: Message)
        ensures
            final(self).log() == old(self).log().push((destination@, message@)),
            final(self).consumer == old(self).consumer,
            final(self).connection == old(self).connection,
            final(self).session == old(self).session,
    {
        self.messages.push((destination, message));
        assert(self.log() =~= old(self).log().push((destination@, message@)));
    }

    /// The first message in the log that is addressed to the consumer's destination.
    fn first(&self) -> (r: Option<&Message>)
        ensures
            match r {
                Some(m) => delivery(self.log(), self.target()) == Some(m@.without_handle()),
                None => delivery(self.log(), self.target()) is None,
            },
    {
        match &self.consumer {
            None => None,
            Some(target) => {
                let mut i: usize = 0;
                while i < self.messages.len()
                    invariant
                        i <= self.messages.len(),
                        self.target() == Some(target@),
                        forall|j: int| 0 <= j < i ==> (#[trigger] self.log()[j]).0 != target@,
                    decreases self.messages.len() - i,
                {
                    if self.messages[i].0 == *target {
                        proof {
                            assert(self.log()[i as int].0 == target@);
                            assert(self.log()[i as int].1 == self.messages@[i as int].1@);
                            assert(first_at(self.log(), target@, i as int));
                            let k = choose|k: int| first_at(self.log(), target@, k);
                            lemma_first_at_unique(self.log(), target@, k, i as int);
                        }
                        return Some(&self.messages[i].1);
                    }
                    proof {
                        assert(self.log()[i as int].0 != target@);
                    }
                    i += 1;
                }
                proof {
                    if exists|k: int| first_at(self.log(), target@, k) {
                        let k = choose|k: int| first_at(self.log(), target@, k);
                        assert(self.log()[k].0 != target@);
                    }
                }
                None
            },
        }
    }
}

/// Opens the connection of the in-memory broker. The url and the credentials are not
/// looked at, and the connection never fails.
pub fn connect(server: &mut MockServer, url: &str, user: &str, password: &str) -> (r: Result<
    Connection,
    Error,
>)
    ensures
        r matches Ok(c) && c.handle_of() == 0,
        final(server).connection matches Some(c) && c.handle_of() == 0,
        final(server).session == old(server).session,
        final(server).consumer == old(server).consumer,
        final(server).log() == old(server).log(),
{
    server.connection = Some(Connection::new(0));
    Ok(Connection::new(0))
}

impl Connection {
    /// Opens the session of the in-memory broker. It owns no producer and never fails.
    pub fn session(&self, server: &mut MockServer) -> (r: Result<Session, Error>)
        ensures
            r matches Ok(s) && s.handle_of() == 0 && s.producer_of() == 0,
            final(server).session matches Some(s) && s.handle_of() == 0 && s.producer_of() == 0,
            final(server).connection == old(server).connection,
            final(server).consumer == old(server).consumer,
            final(server).log() == old(server).log(),
    {
        server.session = Some(Session::new(0, 0));
        Ok(Session::new(0, 0))
    }

    /// Opens the session of the in-memory broker, as one with transaction support. It
    /// owns no producer and never fails.
    pub fn transacted_session(&self, server: &mut MockServer) -> (r: Result<Session, Error>)
        ensures
            r matches Ok(s) && s.handle_of() == 0 && s.producer_of() == 0,
            final(server).session matches Some(s) && s.handle_of() == 0 && s.producer_of() == 0,
            final(server).connection == old(server).connection,
            final(server).consumer == old(server).consumer,
            final(server).log() == old(server).log(),
    {
        server.session = Some(Session::new(0, 0));
        Ok(Session::new(0, 0))
    }

    /// The url of the active server: the in-memory broker has none, and says so with
    /// the empty text.
    pub fn get_active_url(&self) -> (r: Result<String, Error>)
        ensures
            r matches Ok(url) && url@ == Seq::<char>::empty(),
    {
        Ok(String::new())
    }
}

impl Session {
    /// Creates the consumer of the in-memory broker on a queue or a topic: from now
    /// on the consumer reads from this destination. The selector is not looked at.
    pub fn queue_consumer(
        &self,
        server: &mut MockServer,
        destination: &Destination,
        selector: Option<&str>,
    ) -> (r: Result<Consumer, Error>)
        ensures
            r matches Ok(c) && c.handle_of() == 0,
            final(server).target() == Some(destination@),
            final(server).log() == old(server).log(),
            final(server).connection == old(server).connection,
            final(server).session == old(server).session,
    {
        server.consumer = Some(destination.clone());
        Ok(Consumer::new(0))
    }

    /// Creates the consumer of the in-memory broker on a topic: from now on the
    /// consumer reads from this topic. On a queue it fails with `WrongDestinationKind`
    /// and changes nothing. The name of the subscription and the selector are not
    /// looked at.
    pub fn topic_consumer(
        &self,
        server: &mut MockServer,
        destination: &Destination,
        subscription_name: &str,
        selector: Option<&str>,
    ) -> (r: Result<Consumer, Error>)
        ensures
            match r {
                Ok(c) => {
                    &&& destination is Topic
                    &&& c.handle_of() == 0
                    &&& final(server).target() == Some(destination@)
                },
                Err(e) => {
                    &&& destination is Queue
                    &&& e == Error::WrongDestinationKind
                    &&& final(server).target() == old(server).target()
                },
            },
            final(server).log() == old(server).log(),
            final(server).connection == old(server).connection,
            final(server).session == old(server).session,
    {
        if destination.is_topic() {
            server.consumer = Some(destination.clone());
            Ok(Consumer::new(0))
        } else {
            Err(Error::WrongDestinationKind)
        }
    }

    /// Creates the consumer of the in-memory broker on a topic, as a durable one: from
    /// now on the consumer reads from this topic. On a queue it fails with
    /// `WrongDestinationKind` and changes nothing. The name and the selector are not
    /// looked at.
    pub fn topic_durable_consumer(
        &self,
        server: &mut MockServer,
        destination: &Destination,
        durable_name: &str,
        selector: Option<&str>,
    ) -> (r: Result<Consumer, Error>)
        ensures
            match r {
                Ok(c) => {
                    &&& destination is Topic
                    &&& c.handle_of() == 0
                    &&& final(server).target() == Some(destination@)
                },
                Err(e) => {
                    &&& destination is Queue
                    &&& e == Error::WrongDestinationKind
                    &&& final(server).target() == old(server).target()
                },
            },
            final(server).log() == old(server).log(),
            final(server).connection == old(server).connection,
            final(server).session == old(server).session,
    {
        if destination.is_topic() {
            server.consumer = Some(destination.clone());
            Ok(Consumer::new(0))
        } else {
            Err(Error::WrongDestinationKind)
        }
    }

    /// Sends a message to a destination of the in-memory broker: the message is
    /// appended to the log. The send never fails.
    pub fn send_message<M: Into<Message>>(
        &self,
        server: &mut MockServer,
        destination: &Destination,
        message: M,
    ) -> (r: Result<(), Error>)
        ensures
            r is Ok,
            final(server).log().len() == old(server).log().len() + 1,
            final(server).log().drop_last() == old(server).log(),
            final(server).log().last().0 == destination@,
            M::obeys_into_spec() ==> final(server).log().last().1 == message.into_spec()@,
            final(server).consumer == old(server).consumer,
            final(server).connection == old(server).connection,
            final(server).session == old(server).session,
    {
        let message: Message = message.into();
        server.append(destination.clone(), message);
        assert(server.log().drop_last() =~= old(server).log());
        Ok(())
    }

    /// Sends a message to a destination of the in-memory broker and waits for no
    /// reply: the message is appended to the log as by a send, and the result is
    /// that no reply arrived.
    pub fn request_reply<M: Into<Message>>(
        &self,
        server: &mut MockServer,
        destination: &Destination,
        message: M,
        timeout: i64,
    ) -> (r: Result<Option<Message>, Error>)
        ensures
            r matches Ok(None),
            final(server).log().len() == old(server).log().len() + 1,
            final(server).log().drop_last() == old(server).log(),
            final(server).log().last().0 == destination@,
            M::obeys_into_spec() ==> final(server).log().last().1 == message.into_spec()@,
            final(server).consumer == old(server).consumer,
            final(server).connection == old(server).connection,
            final(server).session == old(server).session,
    {
        let message: Message = message.into();
        server.append(destination.clone(), message);
        assert(server.log().drop_last() =~= old(server).log());
        Ok(None)
    }
}

impl Consumer {
    /// Receives from the in-memory broker: a copy of the first message in the log
    /// that is addressed to the consumer's destination, or nothing if there is none.
    /// The message stays in the log. The time to wait is not looked at.
    pub fn receive_message(&self, server: &MockServer, wait_time_ms: Option<i64>) -> (r: Result<
        Option<Message>,
        Error,
    >)
        ensures
            r matches Ok(m) && message_view(m) == delivery(server.log(), server.target()),
    {
        match server.first() {
            Some(m) => Ok(Some(m.clone())),
            None => Ok(None),
        }
    }

    /// Receives a text message from the in-memory broker: a copy of the first message
    /// in the log that is addressed to the consumer's destination, if it is a text
    /// message; else nothing.
    pub fn receive_text_message(&self, server: &MockServer, wait_time_ms: Option<i64>) -> (r:
        Result<Option<TextMessage>, Error>)
        ensures
            r is Ok,
            match r->Ok_0 {
                Some(m) => delivery(server.log(), server.target()) == Some(m@),
                None => !(delivery(server.log(), server.target()) matches Some(m)
                    && m.body is Text),
            },
    {
        match server.first() {
            Some(Message::TextMessage(m)) => Ok(Some(m.clone())),
            _ => Ok(None),
        }
    }

    /// Receives a bytes message from the in-memory broker: a copy of the first
    /// message in the log that is addressed to the consumer's destination, if it is a
    /// bytes message; else nothing.
    pub fn receive_bytes_message(&self, server: &MockServer, wait_time_ms: Option<i64>) -> (r:
        Result<Option<BytesMessage>, Error>)
        ensures
            r is Ok,
            match r->Ok_0 {
                Some(m) => delivery(server.log(), server.target()) == Some(m@),
                None => !(delivery(server.log(), server.target()) matches Some(m)
                    && m.body is Bytes),
            },
    {
        match server.first() {
            Some(Message::BytesMessage(m)) => Ok(Some(m.clone())),
            _ => Ok(None),
        }
    }

    /// Receives a map message from the in-memory broker: a copy of the first message
    /// in the log that is addressed to the consumer's destination, if it is a map
    /// message; else nothing.
    pub fn receive_map_message(&self, server: &MockServer, wait_time_ms: Option<i64>) -> (r:
        Result<Option<MapMessage>, Error>)
        ensures
            r is Ok,
            match r->Ok_0 {
                Some(m) => delivery(server.log(), server.target()) == Some(m@),
                None => !(delivery(server.log(), server.target()) matches Some(m)
                    && m.body is Fields),
            },
    {
        match server.first() {
            Some(Message::MapMessage(m)) => Ok(Some(m.clone())),
            _ => Ok(None),
        }
    }

    /// Receives an object message from the in-memory broker: a copy of the first
    /// message in the log that is addressed to the consumer's destination, if it is
    /// an object message; else nothing.
    pub fn receive_object_message(&self, server: &MockServer, wait_time_ms: Option<i64>) -> (r:
        Result<Option<ObjectMessage>, Error>)
        ensures
            r is Ok,
            match r->Ok_0 {
                Some(m) => delivery(server.log(), server.target()) == Some(m@),
                None => !(delivery(server.log(), server.target()) matches Some(m)
                    && m.body is Object),
            },
    {
        match server.first() {
            Some(Message::ObjectMessage(m)) => Ok(Some(m.clone())),
            _ => Ok(None),
        }
    }
}

} // verus!
