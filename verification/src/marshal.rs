//! Marshaling of whole messages: from a message to its wire form and back.
//!
//! Encoding looks at the kind of the message, writes the body in the form of that
//! kind, and then treats every kind alike: the header entries become the properties,
//! two of them also the correlation id and the type of the wire message, and the reply
//! address is taken over. Decoding looks at the kind of the body first, reads the body
//! in the form of that kind, and then treats every kind alike: header, destination and
//! reply address are filled in the same way.

use vstd::prelude::*;
use crate::c_binding::tibemsDestinationType;
use crate::c_binding::tibemsMsgType;
use crate::destination::Destination;
use crate::destination::DestinationView;
use crate::destination::destination_view;
use crate::error::Error;
use crate::message::BodyView;
use crate::message::BytesMessage;
use crate::message::MapMessage;
use crate::message::Message;
use crate::message::MessageView;
use crate::message::ObjectMessage;
use crate::message::TextMessage;
use crate::value::TypedValue;
use crate::value::ValueMap;
use crate::value::ValueView;
use crate::value::map_view;
use crate::wire::WireFields;
use crate::wire::WireView;
use crate::wire::decode_map;
use crate::wire::encode_map;
use crate::wire::law_fields_round_trip;
use crate::wire::typed_fields;
use crate::wire::wire_fields;

verus! {

/// A destination as the broker tells it of a wire message: a kind and a name.
#[derive(Debug, PartialEq)]
pub struct WireDestination {
    /// The kind of the destination.
    pub kind: tibemsDestinationType,
    /// The name of the destination.
    pub name: String,
}

/// What the broker holds of a message.
#[derive(Debug, PartialEq)]
pub struct WireMessage {
    /// The kind of the body.
    pub kind: tibemsMsgType,
    /// The text, for a body of text.
    pub text: Option<String>,
    /// The bytes, for a body of bytes or an object body.
    pub bytes: Vec<u8>,
    /// The fields, for a map body.
    pub fields: WireFields,
    /// The id that the broker gave the message.
    pub message_id: Option<String>,
    /// The correlation id.
    pub correlation_id: Option<String>,
    /// The type that the sender gave the message.
    pub message_type: Option<String>,
    /// The properties.
    pub properties: WireFields,
    /// Where the message was delivered.
    pub destination: Option<WireDestination>,
    /// Where a reply is expected.
    pub reply_to: Option<WireDestination>,
}

/// Mathematical model of a [`WireMessage`].
pub struct WireMessageView {
    /// The kind of the body.
    pub kind: tibemsMsgType,
    /// The text, for a body of text.
    pub text: Option<Seq<char>>,
    /// The bytes, for a body of bytes or an object body.
    pub bytes: Seq<u8>,
    /// The fields, for a map body.
    pub fields: Map<Seq<char>, WireView>,
    /// The id that the broker gave the message.
    pub message_id: Option<Seq<char>>,
    /// The correlation id.
    pub correlation_id: Option<Seq<char>>,
    /// The type that the sender gave the message.
    pub message_type: Option<Seq<char>>,
    /// The properties.
    pub properties: Map<Seq<char>, WireView>,
    /// Where the message was delivered: a kind and a name.
    pub destination: Option<(tibemsDestinationType, Seq<char>)>,
    /// Where a reply is expected: a kind and a name.
    pub reply_to: Option<(tibemsDestinationType, Seq<char>)>,
}

/// The model of a text that may be absent.
pub open spec fn text_view(t: Option<String>) -> Option<Seq<char>> {
    match t {
        Some(t) => Some(t@),
        None => None,
    }
}

/// The model of a wire destination that may be absent.
pub open spec fn address_view(d: Option<WireDestination>) -> Option<
    (tibemsDestinationType, Seq<char>),
> {
    match d {
        Some(d) => Some((d.kind, d.name@)),
        None => None,
    }
}

impl View for WireMessage {
    type V = WireMessageView;

    open spec fn view(&self) -> WireMessageView {
        WireMessageView {
            kind: self.kind,
            text: text_view(self.text),
            bytes: self.bytes@,
            fields: self.fields@,
            message_id: text_view(self.message_id),
            correlation_id: text_view(self.correlation_id),
            message_type: text_view(self.message_type),
            properties: self.properties@,
            destination: address_view(self.destination),
            reply_to: address_view(self.reply_to),
        }
    }
}

/// The name of the header entry that holds the id of the message.
pub open spec fn message_id_name() -> Seq<char> {
    "MessageID"@
}

/// The name of the header entry that holds the correlation id.
pub open spec fn correlation_id_name() -> Seq<char> {
    "CorrelationID"@
}

/// The name of the header entry that holds the type of the message.
pub open spec fn message_type_name() -> Seq<char> {
    "JMSType"@
}

/// The text that a header holds under a name: none where there is no header or the
/// header does not hold the name, a conversion failure where the value is no string.
pub open spec fn header_text(
    header: Option<Map<Seq<char>, ValueView>>,
    name: Seq<char>,
) -> Result<Option<Seq<char>>, Error> {
    match header {
        None => Ok(None),
        Some(h) => if !h.contains_key(name) {
            Ok(None)
        } else {
            match h[name] {
                ValueView::String(s) => Ok(Some(s)),
                _ => Err(Error::ConversionFailure),
            }
        },
    }
}

/// The kind of wire body that a message body is written as.
pub open spec fn body_kind(body: BodyView) -> tibemsMsgType {
    match body {
        BodyView::Text(_) => tibemsMsgType::TIBEMS_TEXT_MESSAGE,
        BodyView::Bytes(_) => tibemsMsgType::TIBEMS_BYTES_MESSAGE,
        BodyView::Fields(_) => tibemsMsgType::TIBEMS_MAP_MESSAGE,
        BodyView::Object(_) => tibemsMsgType::TIBEMS_OBJECT_MESSAGE,
    }
}

/// A destination as a kind and a name.
pub open spec fn wire_address(d: Option<DestinationView>) -> Option<
    (tibemsDestinationType, Seq<char>),
> {
    match d {
        Some(DestinationView::Queue(name)) => Some((tibemsDestinationType::TIBEMS_QUEUE, name)),
        Some(DestinationView::Topic(name)) => Some((tibemsDestinationType::TIBEMS_TOPIC, name)),
        None => None,
    }
}

/// The destination of a kind and a name: none for a kind that is neither queue nor
/// topic.
pub open spec fn typed_address(a: Option<(tibemsDestinationType, Seq<char>)>) -> Option<
    DestinationView,
> {
    match a {
        Some((tibemsDestinationType::TIBEMS_QUEUE, name)) => Some(DestinationView::Queue(name)),
        Some((tibemsDestinationType::TIBEMS_TOPIC, name)) => Some(DestinationView::Topic(name)),
        _ => None,
    }
}

/// The wire form of the properties of a header; a message without a header has none.
pub open spec fn wire_properties(header: Option<Map<Seq<char>, ValueView>>) -> Option<
    Map<Seq<char>, WireView>,
> {
    match header {
        Some(h) => wire_fields(h, false),
        None => Some(Map::empty()),
    }
}

/// The wire form of the fields of a body; only a map body has fields.
pub open spec fn wire_body_fields(body: BodyView) -> Option<Map<Seq<char>, WireView>> {
    match body {
        BodyView::Fields(f) => wire_fields(f, true),
        _ => Some(Map::empty()),
    }
}

/// The wire form of a message, or the failure for which it has none.
///
/// The message has no wire form if its map body holds bytes at any depth
/// (`UnsupportedType`), if its header holds a correlation id or a type that is no
/// string (`ConversionFailure`), or if its header holds bytes or a nested body
/// (`UnsupportedType`); the first of these that applies is the failure.
pub open spec fn wire_message(m: MessageView) -> Result<WireMessageView, Error> {
    let fields = wire_body_fields(m.body);
    let correlation_id = header_text(m.header, correlation_id_name());
    let message_type = header_text(m.header, message_type_name());
    let properties = wire_properties(m.header);
    if fields is None {
        Err(Error::UnsupportedType)
    } else if correlation_id is Err {
        Err(Error::ConversionFailure)
    } else if message_type is Err {
        Err(Error::ConversionFailure)
    } else if properties is None {
        Err(Error::UnsupportedType)
    } else {
        Ok(
            WireMessageView {
                kind: body_kind(m.body),
                text: match m.body {
                    BodyView::Text(t) => Some(t),
                    _ => None,
                },
                bytes: match m.body {
                    BodyView::Bytes(b) => b,
                    BodyView::Object(b) => b,
                    _ => Seq::empty(),
                },
                fields: fields->Some_0,
                message_id: None,
                correlation_id: correlation_id->Ok_0,
                message_type: message_type->Ok_0,
                properties: properties->Some_0,
                destination: None,
                reply_to: wire_address(m.reply_to),
            },
        )
    }
}

/// Whether a wire body of this kind stands for a message body.
pub open spec fn known_kind(kind: tibemsMsgType) -> bool {
    kind == tibemsMsgType::TIBEMS_TEXT_MESSAGE || kind == tibemsMsgType::TIBEMS_BYTES_MESSAGE
        || kind == tibemsMsgType::TIBEMS_MAP_MESSAGE || kind
        == tibemsMsgType::TIBEMS_OBJECT_MESSAGE
}

/// The body that a wire message of a known kind stands for, given the fields that its
/// wire fields stand for. A body of text without a text is the empty text.
pub open spec fn typed_body(w: WireMessageView, fields: Map<Seq<char>, ValueView>) -> BodyView {
    match w.kind {
        tibemsMsgType::TIBEMS_TEXT_MESSAGE => BodyView::Text(
            match w.text {
                Some(t) => t,
                None => Seq::empty(),
            },
        ),
        tibemsMsgType::TIBEMS_BYTES_MESSAGE => BodyView::Bytes(w.bytes),
        tibemsMsgType::TIBEMS_OBJECT_MESSAGE => BodyView::Object(w.bytes),
        _ => BodyView::Fields(fields),
    }
}

/// The header that a wire message stands for, given the values that its properties
/// stand for: the id of the message and the correlation id, where the wire message
/// has them; over these the properties; over these the type of the message, where the
/// wire message has one that is not empty.
pub open spec fn typed_header(
    w: WireMessageView,
    properties: Map<Seq<char>, ValueView>,
) -> Map<Seq<char>, ValueView> {
    let h0 = Map::<Seq<char>, ValueView>::empty();
    let h1 = match w.message_id {
        Some(id) => h0.insert(message_id_name(), ValueView::String(id)),
        None => h0,
    };
    let h2 = match w.correlation_id {
        Some(id) => h1.insert(correlation_id_name(), ValueView::String(id)),
        None => h1,
    };
    let h3 = h2.union_prefer_right(properties);
    match w.message_type {
        Some(t) => if t.len() > 0 {
            h3.insert(message_type_name(), ValueView::String(t))
        } else {
            h3
        },
        None => h3,
    }
}

/// The fields that the wire fields of a message stand for; only a map body has fields.
pub open spec fn typed_body_fields(w: WireMessageView) -> Option<Map<Seq<char>, ValueView>> {
    if w.kind == tibemsMsgType::TIBEMS_MAP_MESSAGE {
        typed_fields(w.fields, true)
    } else {
        Some(Map::empty())
    }
}

/// The message that a wire message with the given handle stands for, or the failure
/// for which it stands for none.
///
/// The wire message stands for no message if the kind of its body is none of text,
/// bytes, map and object, if its map body holds bytes at any depth, or if its
/// properties hold bytes or a nested body; the failure is `UnsupportedType`.
pub open spec fn typed_message(w: WireMessageView, handle: usize) -> Result<MessageView, Error> {
    let fields = typed_body_fields(w);
    let properties = typed_fields(w.properties, false);
    if !known_kind(w.kind) || fields is None || properties is None {
        Err(Error::UnsupportedType)
    } else {
        Ok(
            MessageView {
                body: typed_body(w, fields->Some_0),
                header: Some(typed_header(w, properties->Some_0)),
                destination: typed_address(w.destination),
                reply_to: typed_address(w.reply_to),
                pointer: Some(handle),
            },
        )
    }
}

/// A message that has a wire form comes back from it as it went in: with the same
/// body and the same reply address, with the same header (an empty one where it had
/// none), with the handle of the wire message, and without a destination, which only
/// a delivery gives.
pub proof fn law_message_round_trip(m: MessageView, handle: usize)
    requires
        wire_message(m) is Ok,
    ensures
        typed_message(wire_message(m)->Ok_0, handle) == Ok::<MessageView, Error>(
            MessageView {
                body: m.body,
                header: Some(
                    match m.header {
                        Some(h) => h,
                        None => Map::empty(),
                    },
                ),
                destination: None,
                reply_to: m.reply_to,
                pointer: Some(handle),
            },
        ),
{
    let w = wire_message(m)->Ok_0;
    let header = match m.header {
        Some(h) => h,
        None => Map::empty(),
    };
    match m.body {
        BodyView::Fields(f) => {
            law_fields_round_trip(f, true);
        },
        _ => {},
    }
    match m.header {
        Some(h) => {
            law_fields_round_trip(h, false);
        },
        None => {
            assert(typed_fields(Map::<Seq<char>, WireView>::empty(), false)->Some_0
                =~= Map::<Seq<char>, ValueView>::empty());
        },
    }
    assert(typed_fields(w.properties, false) == Some(header));
    assert(typed_header(w, header) =~= header);
}

/// Whether the property of this name is read as a flag: the broker's mark of a
/// compressed message is one, every other property is read as a text.
pub fn is_flag_property(name: &str) -> (r: bool)
    ensures
        r == (name@ == "JMS_TIBCO_COMPRESS"@),
{
    name.to_owned() == "JMS_TIBCO_COMPRESS".to_owned()
}

/// The text that a header holds under a name.
fn header_string(header: &Option<ValueMap>, name: &str) -> (r: Result<Option<String>, Error>)
    ensures
        header_text(map_view(*header), name@) == match r {
            Ok(t) => Ok::<Option<Seq<char>>, Error>(text_view(t)),
            Err(e) => Err(e),
        },
{
    match header {
        None => Ok(None),
        Some(h) => match h.get(name) {
            None => Ok(None),
            Some(value) => match value.as_string() {
                Ok(s) => Ok(Some(s.clone())),
                Err(e) => Err(e),
            },
        },
    }
}

/// A destination as a kind and a name.
fn encode_address(destination: &Option<Destination>) -> (r: Option<WireDestination>)
    ensures
        address_view(r) == wire_address(destination_view(*destination)),
{
    match destination {
        Some(d) => Some(WireDestination { kind: d.kind(), name: d.name().clone() }),
        None => None,
    }
}

/// The destination of a kind and a name.
fn decode_address(address: &Option<WireDestination>) -> (r: Option<Destination>)
    ensures
        destination_view(r) == typed_address(address_view(*address)),
{
    match address {
        Some(a) => Destination::from_kind(a.kind, a.name.clone()),
        None => None,
    }
}

/// The wire form of a message.
///
/// Succeeds exactly where the message has a wire form, and fails with the failure
/// that [`wire_message`] names.
pub fn encode(message: &Message) -> (r: Result<WireMessage, Error>)
    ensures
        wire_message(message@) == match r {
            Ok(w) => Ok::<WireMessageView, Error>(w@),
            Err(e) => Err(e),
        },
{
    let fields = match message {
        Message::MapMessage(m) => encode_map(&m.body, true)?,
        _ => WireFields::new(),
    };
    let header = message.header();
    let correlation_id = header_string(header, "CorrelationID")?;
    let message_type = header_string(header, "JMSType")?;
    let properties = match header {
        Some(h) => encode_map(h, false)?,
        None => WireFields::new(),
    };
    let reply_to = encode_address(message.reply_to());
    let (kind, text, bytes) = match message {
        Message::TextMessage(m) => (
            tibemsMsgType::TIBEMS_TEXT_MESSAGE,
            Some(m.body.clone()),
            Vec::new(),
        ),
        Message::BytesMessage(m) => (tibemsMsgType::TIBEMS_BYTES_MESSAGE, None, m.body.clone()),
        Message::MapMessage(_) => (tibemsMsgType::TIBEMS_MAP_MESSAGE, None, Vec::new()),
        Message::ObjectMessage(m) => (tibemsMsgType::TIBEMS_OBJECT_MESSAGE, None, m.body.clone()),
    };
    Ok(
        WireMessage {
            kind,
            text,
            bytes,
            fields,
            message_id: None,
            correlation_id,
            message_type,
            properties,
            destination: None,
            reply_to,
        },
    )
}

/// The wire form of a message that a reply is asked for: the wire form of the message
/// without a reply address. The address that the sender put on the message does not
/// count for such a call; the temporary destination of the call takes its place.
pub fn encode_request(message: &Message) -> (r: Result<WireMessage, Error>)
    ensures
        wire_message(MessageView { reply_to: None, ..message@ }) == match r {
            Ok(w) => Ok::<WireMessageView, Error>(w@),
            Err(e) => Err(e),
        },
{
    match encode(message) {
        Ok(w) => Ok(WireMessage { reply_to: None, ..w }),
        Err(e) => Err(e),
    }
}

/// The header that a wire message stands for, given the values that its properties
/// stand for.
fn decode_header(wire: &WireMessage, properties: &ValueMap) -> (r: ValueMap)
    ensures
        r@ == typed_header(wire@, properties@),
{
    let mut header = ValueMap::new();
    match &wire.message_id {
        Some(id) => {
            header.insert("MessageID".to_owned(), TypedValue::String(id.clone()));
        },
        None => {},
    }
    match &wire.correlation_id {
        Some(id) => {
            header.insert("CorrelationID".to_owned(), TypedValue::String(id.clone()));
        },
        None => {},
    }
    header.extend(properties);
    match &wire.message_type {
        Some(t) => {
            if !t.as_str().is_empty() {
                header.insert("JMSType".to_owned(), TypedValue::String(t.clone()));
            }
        },
        None => {},
    }
    header
}

/// The message that a wire message with the given handle stands for. The message
/// holds the handle.
///
/// Succeeds exactly where the wire message stands for a message, and fails with
/// `UnsupportedType` where it does not.
pub fn decode(wire: &WireMessage, handle: usize) -> (r: Result<Message, Error>)
    ensures
        typed_message(wire@, handle) == match r {
            Ok(m) => Ok::<MessageView, Error>(m@),
            Err(e) => Err(e),
        },
        r matches Ok(m) ==> body_kind(m@.body) == wire.kind,
{
    let known = match wire.kind {
        tibemsMsgType::TIBEMS_TEXT_MESSAGE => true,
        tibemsMsgType::TIBEMS_BYTES_MESSAGE => true,
        tibemsMsgType::TIBEMS_MAP_MESSAGE => true,
        tibemsMsgType::TIBEMS_OBJECT_MESSAGE => true,
        _ => false,
    };
    if !known {
        return Err(Error::UnsupportedType);
    }
    let fields = match wire.kind {
        tibemsMsgType::TIBEMS_MAP_MESSAGE => decode_map(&wire.fields, true)?,
        _ => ValueMap::new(),
    };
    let properties = decode_map(&wire.properties, false)?;
    let header = Some(decode_header(wire, &properties));
    let destination = decode_address(&wire.destination);
    let reply_to = decode_address(&wire.reply_to);
    let pointer = Some(handle);
    let message = match wire.kind {
        tibemsMsgType::TIBEMS_TEXT_MESSAGE => {
            let body = match &wire.text {
                Some(t) => t.clone(),
                None => String::new(),
            };
            Message::TextMessage(TextMessage { body, header, destination, reply_to, pointer })
        },
        tibemsMsgType::TIBEMS_BYTES_MESSAGE => Message::BytesMessage(
            BytesMessage { body: wire.bytes.clone(), header, destination, reply_to, pointer },
        ),
        tibemsMsgType::TIBEMS_OBJECT_MESSAGE => Message::ObjectMessage(
            ObjectMessage { body: wire.bytes.clone(), header, destination, reply_to, pointer },
        ),
        _ => Message::MapMessage(
            MapMessage { body: fields, header, destination, reply_to, pointer },
        ),
    };
    Ok(message)
}

} // verus!
