//! The failures that the library reports.

use vstd::prelude::*;
use crate::c_binding::tibems_status;

verus! {

/// The step of connecting at which the broker refused.
#[derive(Debug, Clone, Copy, PartialEq, Eq, Structural)]
pub enum ConnectStep {
    /// Opening the connection with the url and the credentials.
    Open,
    /// Starting the delivery of inbound messages on the new connection.
    Start,
    /// Asking for the url of the server that the connection is active on.
    ActiveUrl,
}

/// The step of creating a consumer at which the broker refused.
#[derive(Debug, Clone, Copy, PartialEq, Eq, Structural)]
pub enum ConsumerStep {
    /// Creating the destination reference that the consumer reads from.
    Destination,
    /// Creating the consumer itself.
    Consumer,
}

/// The step of sending at which the broker refused.
#[derive(Debug, Clone, Copy, PartialEq, Eq, Structural)]
pub enum SendStep {
    /// Creating the temporary destination that a reply is expected on.
    TemporaryDestination,
    /// Creating the reference to the destination that is sent to.
    Destination,
    /// Creating the producer that is used for this one call.
    Producer,
    /// Creating the wire message.
    Message,
    /// Setting the address that a reply is expected on.
    ReplyTo,
    /// Handing the wire message to the producer.
    Transmit,
}

/// A failure, with the step that failed and the status the broker gave for it.
#[derive(Debug, Clone, Copy, PartialEq, Eq, Structural)]
pub enum Error {
    /// The broker rejected the url or the credentials, or the connection did not start.
    ConnectFailure(ConnectStep, tibems_status),
    /// The broker did not create the session.
    SessionCreateFailure(tibems_status),
    /// The broker did not create the producer.
    ProducerCreateFailure(tibems_status),
    /// The broker did not create the consumer.
    ConsumerCreateFailure(ConsumerStep, tibems_status),
    /// A topic was required and a queue was given.
    WrongDestinationKind,
    /// The message was not sent.
    SendFailure(SendStep, tibems_status),
    /// Waiting for a message ended with a status other than success or timeout.
    ReceiveFailure(tibems_status),
    /// A value of one type was asked for as another.
    ConversionFailure,
    /// A value has no wire form.
    UnsupportedType,
}

impl Error {
    /// The status that the broker gave, for the failures that come from the broker.
    pub open spec fn status_of(self) -> Option<tibems_status> {
        match self {
            Error::ConnectFailure(_, s) => Some(s),
            Error::SessionCreateFailure(s) => Some(s),
            Error::ProducerCreateFailure(s) => Some(s),
            Error::ConsumerCreateFailure(_, s) => Some(s),
            Error::SendFailure(_, s) => Some(s),
            Error::ReceiveFailure(s) => Some(s),
            Error::WrongDestinationKind => None,
            Error::ConversionFailure => None,
            Error::UnsupportedType => None,
        }
    }

    /// The status that the broker gave, if the failure comes from the broker.
    pub fn status(&self) -> (r: Option<tibems_status>)
        ensures
            r == self.status_of(),
    {
        match self {
            Error::ConnectFailure(_, s) => Some(*s),
            Error::SessionCreateFailure(s) => Some(*s),
            Error::ProducerCreateFailure(s) => Some(*s),
            Error::ConsumerCreateFailure(_, s) => Some(*s),
            Error::SendFailure(_, s) => Some(*s),
            Error::ReceiveFailure(s) => Some(*s),
            Error::WrongDestinationKind => None,
            Error::ConversionFailure => None,
            Error::UnsupportedType => None,
        }
    }
}

} // verus!
