//! A consumer as a stream of messages of one kind.

use std::rc::Rc;
use vstd::prelude::*;
use crate::destination::Destination;
use crate::error::Error;
use crate::handles::Connection;
use crate::handles::Consumer;
use crate::handles::Session;
use crate::message::BytesMessage;
use crate::message::Message;
use crate::message::TextMessage;
use crate::mock::MockServer;
use crate::mock::delivery;

verus! {

/// A stream of the messages of one kind that a consumer receives.
pub struct MessageStream<T> {
    /// The connection of the stream.
    pub connection: Rc<Connection>,
    /// The session of the stream.
    pub session: Rc<Session>,
    /// The consumer that the stream reads from.
    pub consumer: Rc<Consumer>,
    /// The message that was read last.
    pub message: Option<T>,
}

/// The next item of a stream of text messages, by what the consumer received: the
/// message, if it is a text message; the end of the stream, if something else or
/// nothing was received, or the receive failed.
pub fn next_text(received: Result<Option<Message>, Error>) -> (r: Option<TextMessage>)
    ensures
        match r {
            Some(m) => received == Ok::<Option<Message>, Error>(Some(Message::TextMessage(m))),
            None => !(received matches Ok(Some(Message::TextMessage(_)))),
        },
{
    match received {
        Ok(Some(Message::TextMessage(m))) => Some(m),
        _ => None,
    }
}

/// The next item of a stream of bytes messages, by what the consumer received: the
/// message, if it is a bytes message; the end of the stream, if something else or
/// nothing was received, or the receive failed.
pub fn next_bytes(received: Result<Option<Message>, Error>) -> (r: Option<BytesMessage>)
    ensures
        match r {
            Some(m) => received == Ok::<Option<Message>, Error>(Some(Message::BytesMessage(m))),
            None => !(received matches Ok(Some(Message::BytesMessage(_)))),
        },
{
    match received {
        Ok(Some(Message::BytesMessage(m))) => Some(m),
        _ => None,
    }
}

impl Connection {
    /// Opens a stream on a destination of the in-memory broker: the session and the
    /// consumer of the broker are opened for it, and the consumer reads from the
    /// destination.
    pub fn open_stream<T>(
        &self,
        server: &mut MockServer,
        destination: &Destination,
        selector: Option<&str>,
    ) -> (r: Result<MessageStream<T>, Error>)
        ensures
            r matches Ok(stream) && stream.message is None && stream.connection.handle_of()
                == self.handle_of() && stream.session.handle_of() == 0
                && stream.session.producer_of() == 0 && stream.consumer.handle_of() == 0,
            final(server).target() == Some(destination@),
            final(server).log() == old(server).log(),
    {
        let session = self.session(server)?;
        let consumer = session.queue_consumer(server, destination, selector)?;
        Ok(
            MessageStream {
                connection: Rc::new(Connection::new(self.handle())),
                session: Rc::new(session),
                consumer: Rc::new(consumer),
                message: None,
            },
        )
    }
}

impl MessageStream<TextMessage> {
    /// The next text message of the stream, from the in-memory broker: what the
    /// consumer receives, if it is a text message; else the end of the stream.
    pub fn poll_next(&self, server: &MockServer) -> (r: Option<TextMessage>)
        ensures
            match r {
                Some(m) => delivery(server.log(), server.target()) == Some(m@),
                None => !(delivery(server.log(), server.target()) matches Some(m)
                    && m.body is Text),
            },
    {
        next_text(self.consumer.receive_message(server, None))
    }
}

impl MessageStream<BytesMessage> {
    /// The next bytes message of the stream, from the in-memory broker: what the
    /// consumer receives, if it is a bytes message; else the end of the stream.
    pub fn poll_next(&self, server: &MockServer) -> (r: Option<BytesMessage>)
        ensures
            match r {
                Some(m) => delivery(server.log(), server.target()) == Some(m@),
                None => !(delivery(server.log(), server.target()) matches Some(m)
                    && m.body is Bytes),
            },
    {
        next_bytes(self.consumer.receive_message(server, None))
    }
}

} // verus!
