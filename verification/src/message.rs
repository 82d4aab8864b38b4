//! Messages: the four kinds of payload, each with header, destination and reply address.

use vstd::prelude::*;
use vstd::std_specs::convert::FromSpecImpl;
use crate::destination::Destination;
use crate::destination::DestinationView;
use crate::destination::destination_view;
use crate::error::Error;
use crate::protocol::Request;
use crate::value::TypedValue;
use crate::value::ValueMap;
use crate::value::ValueView;
use crate::value::map_view;

verus! {

/// Mathematical model of the body of a message.
pub enum BodyView {
    /// The text of a text message.
    Text(Seq<char>),
    /// The bytes of a bytes message.
    Bytes(Seq<u8>),
    /// The fields of a map message.
    Fields(Map<Seq<char>, ValueView>),
    /// The bytes of an object message.
    Object(Seq<u8>),
}

/// Mathematical model of a message of any kind.
pub struct MessageView {
    /// The body, whose variant tells the kind of the message.
    pub body: BodyView,
    /// The header, if the message has one.
    pub header: Option<Map<Seq<char>, ValueView>>,
    /// Where the message was delivered.
    pub destination: Option<DestinationView>,
    /// Where a reply is expected.
    pub reply_to: Option<DestinationView>,
    /// The handle of the wire message that this message was made from.
    pub pointer: Option<usize>,
}

impl MessageView {
    /// The same message without a handle.
    pub open spec fn without_handle(self) -> MessageView {
        MessageView { pointer: None, ..self }
    }
}

/// A text message.
#[derive(Debug, PartialEq)]
pub struct TextMessage {
    /// The message body.
    pub body: String,
    /// The message header.
    pub header: Option<ValueMap>,
    /// Where the message was delivered.
    pub destination: Option<Destination>,
    /// Where a reply is expected.
    pub reply_to: Option<Destination>,
    /// The handle of the wire message that this message was made from.
    pub pointer: Option<usize>,
}

/// A bytes message.
#[derive(Debug, PartialEq)]
pub struct BytesMessage {
    /// The message body.
    pub body: Vec<u8>,
    /// The message header.
    pub header: Option<ValueMap>,
    /// Where the message was delivered.
    pub destination: Option<Destination>,
    /// Where a reply is expected.
    pub reply_to: Option<Destination>,
    /// The handle of the wire message that this message was made from.
    pub pointer: Option<usize>,
}

/// An object message.
#[derive(Debug, PartialEq)]
pub struct ObjectMessage {
    /// The message body.
    pub body: Vec<u8>,
    /// The message header.
    pub header: Option<ValueMap>,
    /// Where the message was delivered.
    pub destination: Option<Destination>,
    /// Where a reply is expected.
    pub reply_to: Option<Destination>,
    /// The handle of the wire message that this message was made from.
    pub pointer: Option<usize>,
}

/// A map message.
#[derive(Debug, PartialEq)]
pub struct MapMessage {
    /// The message body: named, typed fields.
    pub body: ValueMap,
    /// The message header.
    pub header: Option<ValueMap>,
    /// Where the message was delivered.
    pub destination: Option<Destination>,
    /// Where a reply is expected.
    pub reply_to: Option<Destination>,
    /// The handle of the wire message that this message was made from.
    pub pointer: Option<usize>,
}

/// A message of one of the four kinds.
#[derive(Debug, PartialEq)]
pub enum Message {
    /// A text message.
    TextMessage(TextMessage),
    /// A bytes message.
    BytesMessage(BytesMessage),
    /// A map message.
    MapMessage(MapMessage),
    /// An object message.
    ObjectMessage(ObjectMessage),
}

impl View for TextMessage {
    type V = MessageView;

    open spec fn view(&self) -> MessageView {
        MessageView {
            body: BodyView::Text(self.body@),
            header: map_view(self.header),
            destination: destination_view(self.destination),
            reply_to: destination_view(self.reply_to),
            pointer: self.pointer,
        }
    }
}

impl View for BytesMessage {
    type V = MessageView;

    open spec fn view(&self) -> MessageView {
        MessageView {
            body: BodyView::Bytes(self.body@),
            header: map_view(self.header),
            destination: destination_view(self.destination),
            reply_to: destination_view(self.reply_to),
            pointer: self.pointer,
        }
    }
}

impl View for ObjectMessage {
    type V = MessageView;

    open spec fn view(&self) -> MessageView {
        MessageView {
            body: BodyView::Object(self.body@),
            header: map_view(self.header),
            destination: destination_view(self.destination),
            reply_to: destination_view(self.reply_to),
            pointer: self.pointer,
        }
    }
}

impl View for MapMessage {
    type V = MessageView;

    open spec fn view(&self) -> MessageView {
        MessageView {
            body: BodyView::Fields(self.body@),
            header: map_view(self.header),
            destination: destination_view(self.destination),
            reply_to: destination_view(self.reply_to),
            pointer: self.pointer,
        }
    }
}

impl View for Message {
    type V = MessageView;

    open spec fn view(&self) -> MessageView {
        match self {
            Message::TextMessage(m) => m@,
            Message::BytesMessage(m) => m@,
            Message::MapMessage(m) => m@,
            Message::ObjectMessage(m) => m@,
        }
    }
}

/// A copy of a header that may be absent.
fn clone_header(header: &Option<ValueMap>) -> (r: Option<ValueMap>)
    ensures
        map_view(r) == map_view(*header),
    decreases header,
{
    match header {
        Some(h) => Some(h.clone()),
        None => None,
    }
}

/// A copy of a destination that may be absent.
fn clone_destination(destination: &Option<Destination>) -> (r: Option<Destination>)
    ensures
        r == *destination,
{
    match destination {
        Some(d) => Some(d.clone()),
        None => None,
    }
}

impl Clone for TextMessage {
    /// A copy of the message that holds no handle: the handle stays with the message
    /// that was copied.
    fn clone(&self) -> (r: Self)
        ensures
            r.pointer is None,
            r@ == self@.without_handle(),
    {
        TextMessage {
            body: self.body.clone(),
            header: clone_header(&self.header),
            destination: clone_destination(&self.destination),
            reply_to: clone_destination(&self.reply_to),
            pointer: None,
        }
    }
}

impl Clone for BytesMessage {
    /// A copy of the message that holds no handle: the handle stays with the message
    /// that was copied.
    fn clone(&self) -> (r: Self)
        ensures
            r.pointer is None,
            r@ == self@.without_handle(),
    {
        BytesMessage {
            body: self.body.clone(),
            header: clone_header(&self.header),
            destination: clone_destination(&self.destination),
            reply_to: clone_destination(&self.reply_to),
            pointer: None,
        }
    }
}

impl Clone for ObjectMessage {
    /// A copy of the message that holds no handle: the handle stays with the message
    /// that was copied.
    fn clone(&self) -> (r: Self)
        ensures
            r.pointer is None,
            r@ == self@.without_handle(),
    {
        ObjectMessage {
            body: self.body.clone(),
            header: clone_header(&self.header),
            destination: clone_destination(&self.destination),
            reply_to: clone_destination(&self.reply_to),
            pointer: None,
        }
    }
}

impl Clone for MapMessage {
    /// A copy of the message that holds no handle: the handle stays with the message
    /// that was copied.
    fn clone(&self) -> (r: Self)
        ensures
            r.pointer is None,
            r@ == self@.without_handle(),
        decreases self,
    {
        MapMessage {
            body: self.body.clone(),
            header: clone_header(&self.header),
            destination: clone_destination(&self.destination),
            reply_to: clone_destination(&self.reply_to),
            pointer: None,
        }
    }
}

impl Clone for Message {
    /// A copy of the message that holds no handle: the handle stays with the message
    /// that was copied.
    fn clone(&self) -> (r: Self)
        ensures
            r@ == self@.without_handle(),
            r@.pointer is None,
            self is TextMessage <==> r is TextMessage,
            self is BytesMessage <==> r is BytesMessage,
            self is MapMessage <==> r is MapMessage,
            self is ObjectMessage <==> r is ObjectMessage,
    {
        match self {
            Message::TextMessage(m) => Message::TextMessage(m.clone()),
            Message::BytesMessage(m) => Message::BytesMessage(m.clone()),
            Message::MapMessage(m) => Message::MapMessage(m.clone()),
            Message::ObjectMessage(m) => Message::ObjectMessage(m.clone()),
        }
    }
}

impl Message {
    /// The header of the message, if it has one.
    pub fn header(&self) -> (r: &Option<ValueMap>)
        ensures
            map_view(*r) == self@.header,
    {
        match self {
            Message::TextMessage(m) => &m.header,
            Message::BytesMessage(m) => &m.header,
            Message::MapMessage(m) => &m.header,
            Message::ObjectMessage(m) => &m.header,
        }
    }

    /// Where the message was delivered, if it was delivered.
    pub fn destination(&self) -> (r: &Option<Destination>)
        ensures
            destination_view(*r) == self@.destination,
    {
        match self {
            Message::TextMessage(m) => &m.destination,
            Message::BytesMessage(m) => &m.destination,
            Message::MapMessage(m) => &m.destination,
            Message::ObjectMessage(m) => &m.destination,
        }
    }

    /// Where a reply to the message is expected, if one is.
    pub fn reply_to(&self) -> (r: &Option<Destination>)
        ensures
            destination_view(*r) == self@.reply_to,
    {
        match self {
            Message::TextMessage(m) => &m.reply_to,
            Message::BytesMessage(m) => &m.reply_to,
            Message::MapMessage(m) => &m.reply_to,
            Message::ObjectMessage(m) => &m.reply_to,
        }
    }

    /// The handle of the wire message that this message was made from, if it was made
    /// from one and has not given the handle up.
    pub fn pointer(&self) -> (r: Option<usize>)
        ensures
            r == self@.pointer,
    {
        match self {
            Message::TextMessage(m) => m.pointer,
            Message::BytesMessage(m) => m.pointer,
            Message::MapMessage(m) => m.pointer,
            Message::ObjectMessage(m) => m.pointer,
        }
    }
}

impl Default for TextMessage {
    /// The message with an empty body and nothing else.
    fn default() -> (r: Self)
        ensures
            r@ == (MessageView {
                body: BodyView::Text(Seq::empty()),
                header: None,
                destination: None,
                reply_to: None,
                pointer: None,
            }),
    {
        TextMessage {
            body: String::new(),
            header: None,
            destination: None,
            reply_to: None,
            pointer: None,
        }
    }
}

impl From<TextMessage> for Message {
    fn from(msg: TextMessage) -> (r: Message) {
        Message::TextMessage(msg)
    }
}

impl FromSpecImpl<TextMessage> for Message {
    open spec fn obeys_from_spec() -> bool {
        true
    }

    open spec fn from_spec(msg: TextMessage) -> Message {
        Message::TextMessage(msg)
    }
}

impl Default for BytesMessage {
    /// The message with an empty body and nothing else.
    fn default() -> (r: Self)
        ensures
            r@ == (MessageView {
                body: BodyView::Bytes(Seq::empty()),
                header: None,
                destination: None,
                reply_to: None,
                pointer: None,
            }),
    {
        BytesMessage {
            body: Vec::new(),
            header: None,
            destination: None,
            reply_to: None,
            pointer: None,
        }
    }
}

impl From<BytesMessage> for Message {
    fn from(msg: BytesMessage) -> (r: Message) {
        Message::BytesMessage(msg)
    }
}

impl FromSpecImpl<BytesMessage> for Message {
    open spec fn obeys_from_spec() -> bool {
        true
    }

    open spec fn from_spec(msg: BytesMessage) -> Message {
        Message::BytesMessage(msg)
    }
}

impl Default for ObjectMessage {
    /// The message with an empty body and nothing else.
    fn default() -> (r: Self)
        ensures
            r@ == (MessageView {
                body: BodyView::Object(Seq::empty()),
                header: None,
                destination: None,
                reply_to: None,
                pointer: None,
            }),
    {
        ObjectMessage {
            body: Vec::new(),
            header: None,
            destination: None,
            reply_to: None,
            pointer: None,
        }
    }
}

impl From<ObjectMessage> for Message {
    fn from(msg: ObjectMessage) -> (r: Message) {
        Message::ObjectMessage(msg)
    }
}

impl FromSpecImpl<ObjectMessage> for Message {
    open spec fn obeys_from_spec() -> bool {
        true
    }

    open spec fn from_spec(msg: ObjectMessage) -> Message {
        Message::ObjectMessage(msg)
    }
}

impl Default for MapMessage {
    /// The message with an empty body and nothing else.
    fn default() -> (r: Self)
        ensures
            r@ == (MessageView {
                body: BodyView::Fields(Map::empty()),
                header: None,
                destination: None,
                reply_to: None,
                pointer: None,
            }),
    {
        MapMessage {
            body: ValueMap::new(),
            header: None,
            destination: None,
            reply_to: None,
            pointer: None,
        }
    }
}

impl From<MapMessage> for Message {
    fn from(msg: MapMessage) -> (r: Message) {
        Message::MapMessage(msg)
    }
}

impl FromSpecImpl<MapMessage> for Message {
    open spec fn obeys_from_spec() -> bool {
        true
    }

    open spec fn from_spec(msg: MapMessage) -> Message {
        Message::MapMessage(msg)
    }
}

/// The header of a message after the two ids of a trace were put on it: a message
/// without a header stays without one.
pub open spec fn traced_header(
    header: Option<Map<Seq<char>, ValueView>>,
    span_id: Seq<char>,
    trace_id: Seq<char>,
) -> Option<Map<Seq<char>, ValueView>> {
    match header {
        Some(h) => Some(
            h.insert("spanId"@, ValueView::String(span_id)).insert(
                "traceId"@,
                ValueView::String(trace_id),
            ),
        ),
        None => None,
    }
}

/// Puts the two ids of a trace on a header, if there is one.
fn trace_header(header: &mut Option<ValueMap>, span_id: String, trace_id: String)
    ensures
        map_view(*final(header)) == traced_header(map_view(*old(header)), span_id@, trace_id@),
{
    match header {
        Some(h) => {
            h.insert("spanId".to_owned(), TypedValue::String(span_id));
            h.insert("traceId".to_owned(), TypedValue::String(trace_id));
        },
        None => {},
    }
}

impl Message {
    /// The name of the kind of the message.
    pub open spec fn kind_name(self) -> Seq<char> {
        match self {
            Message::TextMessage(_) => "TextMessage"@,
            Message::BytesMessage(_) => "BytesMessage"@,
            Message::MapMessage(_) => "MapMessage"@,
            Message::ObjectMessage(_) => "ObjectMessage"@,
        }
    }

    /// The message as a text: the name of its kind.
    pub fn to_text(&self) -> (r: String)
        ensures
            r@ == self.kind_name(),
    {
        match self {
            Message::TextMessage(_) => "TextMessage".to_owned(),
            Message::BytesMessage(_) => "BytesMessage".to_owned(),
            Message::MapMessage(_) => "MapMessage".to_owned(),
            Message::ObjectMessage(_) => "ObjectMessage".to_owned(),
        }
    }

    /// The text message, if this is one; else a conversion failure.
    pub fn into_text_message(self) -> (r: Result<TextMessage, Error>)
        ensures
            match r {
                Ok(m) => self == Message::TextMessage(m),
                Err(e) => !(self is TextMessage) && e == Error::ConversionFailure,
            },
    {
        match self {
            Message::TextMessage(m) => Ok(m),
            _ => Err(Error::ConversionFailure),
        }
    }

    /// The bytes message, if this is one; else a conversion failure.
    pub fn into_bytes_message(self) -> (r: Result<BytesMessage, Error>)
        ensures
            match r {
                Ok(m) => self == Message::BytesMessage(m),
                Err(e) => !(self is BytesMessage) && e == Error::ConversionFailure,
            },
    {
        match self {
            Message::BytesMessage(m) => Ok(m),
            _ => Err(Error::ConversionFailure),
        }
    }

    /// The map message, if this is one; else a conversion failure.
    pub fn into_map_message(self) -> (r: Result<MapMessage, Error>)
        ensures
            match r {
                Ok(m) => self == Message::MapMessage(m),
                Err(e) => !(self is MapMessage) && e == Error::ConversionFailure,
            },
    {
        match self {
            Message::MapMessage(m) => Ok(m),
            _ => Err(Error::ConversionFailure),
        }
    }

    /// The object message, if this is one; else a conversion failure.
    pub fn into_object_message(self) -> (r: Result<ObjectMessage, Error>)
        ensures
            match r {
                Ok(m) => self == Message::ObjectMessage(m),
                Err(e) => !(self is ObjectMessage) && e == Error::ConversionFailure,
            },
    {
        match self {
            Message::ObjectMessage(m) => Ok(m),
            _ => Err(Error::ConversionFailure),
        }
    }

    /// Gives up the handle of the message, and says what is to be asked of the broker
    /// for it: that the wire message be destroyed. A message without a handle asks for
    /// nothing, so a handle is given up once.
    pub fn destroy(&mut self) -> (r: Option<Request>)
        ensures
            final(self)@ == old(self)@.without_handle(),
            r == match old(self)@.pointer {
                Some(message) => Some(Request::DestroyMessage { message }),
                None => None,
            },
    {
        let pointer = match self {
            Message::TextMessage(m) => m.pointer.take(),
            Message::BytesMessage(m) => m.pointer.take(),
            Message::MapMessage(m) => m.pointer.take(),
            Message::ObjectMessage(m) => m.pointer.take(),
        };
        match pointer {
            Some(message) => Some(Request::DestroyMessage { message }),
            None => None,
        }
    }

    /// What is to be asked of the broker to confirm the message: that the wire message
    /// be acknowledged. A message without a handle asks for nothing.
    pub fn confirm(&self) -> (r: Option<Request>)
        ensures
            r == match self@.pointer {
                Some(message) => Some(Request::Acknowledge { message }),
                None => None,
            },
    {
        match self.pointer() {
            Some(message) => Some(Request::Acknowledge { message }),
            None => None,
        }
    }

    /// What is to be asked of the broker to roll the message back: that the wire
    /// message be delivered again. A message without a handle asks for nothing.
    pub fn rollback(&self) -> (r: Option<Request>)
        ensures
            r == match self@.pointer {
                Some(message) => Some(Request::Recover { message }),
                None => None,
            },
    {
        match self.pointer() {
            Some(message) => Some(Request::Recover { message }),
            None => None,
        }
    }

    /// Puts the ids of a span and of its trace on the header of the message, under
    /// the names `spanId` and `traceId`. A message without a header is left as it is.
    pub fn add_trace(&mut self, span_id: String, trace_id: String)
        ensures
            final(self)@ == (MessageView {
                header: traced_header(old(self)@.header, span_id@, trace_id@),
                ..old(self)@
            }),
    {
        match self {
            Message::TextMessage(m) => trace_header(&mut m.header, span_id, trace_id),
            Message::BytesMessage(m) => trace_header(&mut m.header, span_id, trace_id),
            Message::MapMessage(m) => trace_header(&mut m.header, span_id, trace_id),
            Message::ObjectMessage(m) => trace_header(&mut m.header, span_id, trace_id),
        }
    }
}

} // verus!
