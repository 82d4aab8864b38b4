//! Client-side messaging layer over a message broker.
//!
//! The crate holds the typed message model, the marshaling of messages to and from
//! their wire form, the session protocols (send, timed receive, request-reply and
//! ordered teardown) as state machines over the broker's primitives, and an
//! in-memory broker for exercising callers without a live server.

pub mod admin;
pub mod c_binding;
pub mod destination;
pub mod error;
pub mod handles;
pub mod lifecycle;
pub mod marshal;
pub mod message;
pub mod mock;
pub mod number;
pub mod protocol;
pub mod request_reply;
pub mod send;
pub mod stream;
pub mod tracing;
pub mod value;
pub mod wire;

pub use crate::destination::Destination;
pub use crate::error::Error;
pub use crate::handles::Connection;
pub use crate::handles::Consumer;
pub use crate::handles::Session;
pub use crate::message::BytesMessage;
pub use crate::message::MapMessage;
pub use crate::message::Message;
pub use crate::message::ObjectMessage;
pub use crate::message::TextMessage;
pub use crate::mock::connect;
pub use crate::mock::MockServer;
pub use crate::value::TypedValue;
pub use crate::value::ValueMap;
