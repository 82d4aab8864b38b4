use tibco_ems::BytesMessage;
use tibco_ems::Destination;
use tibco_ems::MapMessage;
use tibco_ems::Message;
use tibco_ems::ObjectMessage;
use tibco_ems::TextMessage;
use tibco_ems::TypedValue;
use tibco_ems::ValueMap;

#[test]
fn test_text_message_default() {
    let text_message = TextMessage::default();

    assert_eq!(text_message.body, String::new());
    assert_eq!(text_message.header, None);
    assert_eq!(text_message.destination, None);
    assert_eq!(text_message.reply_to, None);
    assert_eq!(text_message.pointer, None);
}

#[test]
fn test_text_message_creation() {
    let body = "Hello, world!".to_string();

    let mut header = ValueMap::new();
    header.insert(
        "header_key".to_string(),
        TypedValue::String("header_value".to_string()),
    );

    let destination = Some(Destination::Queue("test1".to_string()));
    let reply_to = Some(Destination::Queue("test1".to_string()));
    let pointer = Some(123);

    let text_message = TextMessage {
        body: body.clone(),
        header: Some(header.clone()),
        destination,
        reply_to,
        pointer,
    };

    assert_eq!(text_message.body, body);
    assert_eq!(text_message.header, Some(header));
    assert_eq!(
        text_message.destination,
        Some(Destination::Queue("test1".to_string()))
    );
    assert_eq!(
        text_message.reply_to,
        Some(Destination::Queue("test1".to_string()))
    );
    assert_eq!(text_message.pointer, Some(123));
}

#[test]
fn test_text_message_clone() {
    let msg = TextMessage {
        pointer: Some(5),
        ..Default::default()
    };
    let msg2 = msg.clone();
    assert_eq!(msg2.pointer, None)
}

#[test]
fn test_text_message_display() {
    let msg = TextMessage {
        pointer: None,
        ..Default::default()
    };
    let msg2: Message = msg.into();
    let str = msg2.to_text();
    assert_eq!(str, "TextMessage")
}

#[test]
fn test_bytes_message_default() {
    let bytes_message = BytesMessage::default();

    assert_eq!(bytes_message.body, Vec::new());
    assert_eq!(bytes_message.header, None);
    assert_eq!(bytes_message.destination, None);
    assert_eq!(bytes_message.reply_to, None);
    assert_eq!(bytes_message.pointer, None);
}

#[test]
fn test_bytes_message_creation() {
    let body = vec![1, 2, 3, 4];

    let mut header = ValueMap::new();
    header.insert(
        "header_key".to_string(),
        TypedValue::String("header_value".to_string()),
    );

    let destination = Some(Destination::Topic("test1".to_string()));
    let reply_to = Some(Destination::Topic("test1".to_string()));
    let pointer = Some(123);

    let bytes_message = BytesMessage {
        body: body.clone(),
        header: Some(header.clone()),
        destination,
        reply_to,
        pointer,
    };

    assert_eq!(bytes_message.body, body);
    assert_eq!(bytes_message.header, Some(header));
    assert_eq!(
        bytes_message.destination,
        Some(Destination::Topic("test1".to_string()))
    );
    assert_eq!(
        bytes_message.reply_to,
        Some(Destination::Topic("test1".to_string()))
    );
    assert_eq!(bytes_message.pointer, Some(123));
}

#[test]
fn test_bytes_message_clone() {
    let msg = BytesMessage {
        pointer: Some(5),
        ..Default::default()
    };
    let msg2 = msg.clone();
    assert_eq!(msg2.pointer, None)
}

#[test]
fn test_bytes_message_display() {
    let msg = BytesMessage {
        pointer: None,
        ..Default::default()
    };
    let msg2: Message = msg.into();
    let str = msg2.to_text();
    assert_eq!(str, "BytesMessage")
}

#[test]
fn test_object_message_default() {
    let object_message = ObjectMessage::default();

    assert_eq!(object_message.body, Vec::new());
    assert_eq!(object_message.header, None);
    assert_eq!(object_message.destination, None);
    assert_eq!(object_message.reply_to, None);
    assert_eq!(object_message.pointer, None);
}

#[test]
fn test_object_message_creation() {
    let body = vec![1, 2, 3, 4];

    let mut header = ValueMap::new();
    header.insert(
        "header_key".to_string(),
        TypedValue::String("header_value".to_string()),
    );

    let destination = Some(Destination::Topic("test1".to_string()));
    let reply_to = Some(Destination::Topic("test1".to_string()));
    let pointer = Some(123);

    let object_message = ObjectMessage {
        body: body.clone(),
        header: Some(header.clone()),
        destination,
        reply_to,
        pointer,
    };

    assert_eq!(object_message.body, body);
    assert_eq!(object_message.header, Some(header));
    assert_eq!(
        object_message.destination,
        Some(Destination::Topic("test1".to_string()))
    );
    assert_eq!(
        object_message.reply_to,
        Some(Destination::Topic("test1".to_string()))
    );
    assert_eq!(object_message.pointer, Some(123));
}

#[test]
fn test_object_message_clone() {
    let msg = ObjectMessage {
        pointer: Some(5),
        ..Default::default()
    };
    let msg2 = msg.clone();
    assert_eq!(msg2.pointer, None)
}

#[test]
fn test_object_message_display() {
    let msg = ObjectMessage {
        pointer: None,
        ..Default::default()
    };
    let msg2: Message = msg.into();
    let str = msg2.to_text();
    assert_eq!(str, "ObjectMessage")
}

#[test]
fn test_map_message_default() {
    let map_message = MapMessage::default();

    assert_eq!(map_message.body, ValueMap::new());
    assert_eq!(map_message.header, None);
    assert_eq!(map_message.destination, None);
    assert_eq!(map_message.reply_to, None);
    assert_eq!(map_message.pointer, None);
}

#[test]
fn test_map_message_creation() {
    let mut body = ValueMap::new();
    body.insert("key".to_string(), TypedValue::Integer(42));

    let mut header = ValueMap::new();
    header.insert(
        "header_key".to_string(),
        TypedValue::String("header_value".to_string()),
    );

    let destination = Some(Destination::Queue("test1".to_string()));
    let reply_to = Some(Destination::Queue("test1".to_string()));
    let pointer = Some(123);

    let map_message = MapMessage {
        body: body.clone(),
        header: Some(header.clone()),
        destination,
        reply_to,
        pointer,
    };

    assert_eq!(map_message.body, body);
    assert_eq!(map_message.header, Some(header));
    assert_eq!(
        map_message.destination,
        Some(Destination::Queue("test1".to_string()))
    );
    assert_eq!(
        map_message.reply_to,
        Some(Destination::Queue("test1".to_string()))
    );
    assert_eq!(map_message.pointer, Some(123));
}

#[test]
fn test_map_message_clone() {
    let msg = MapMessage {
        pointer: Some(5),
        ..Default::default()
    };
    let msg2 = msg.clone();
    assert_eq!(msg2.pointer, None)
}

#[test]
fn test_map_message_display() {
    let msg = tibco_ems::MapMessage {
        pointer: None,
        ..Default::default()
    };
    let msg2: Message = msg.into();
    let str = msg2.to_text();
    assert_eq!(str, "MapMessage")
}

#[test]
fn test_text_message_variant() {
    let text_message = TextMessage {
        ..Default::default()
    };
    let message = Message::TextMessage(text_message.clone());

    assert_eq!(message, Message::TextMessage(text_message));
}

#[test]
fn test_bytes_message_variant() {
    let bytes_message = BytesMessage {
        ..Default::default()
    };
    let message = Message::BytesMessage(bytes_message.clone());

    assert_eq!(message, Message::BytesMessage(bytes_message));
}

#[test]
fn test_object_message_variant() {
    let object_message = ObjectMessage {
        ..Default::default()
    };
    let message = Message::ObjectMessage(object_message.clone());

    assert_eq!(message, Message::ObjectMessage(object_message));
}

#[test]
fn test_map_message_variant() {
    let map_message = MapMessage {
        ..Default::default()
    };
    let message = Message::MapMessage(map_message.clone());

    assert_eq!(message, Message::MapMessage(map_message));
}

#[test]
fn test_typed_value_string() {
    let value = TypedValue::String("Hello".to_string());
    let formatted = value.to_text().unwrap();
    assert_eq!(formatted, "Hello");
}

#[test]
fn test_typed_value_boolean() {
    let value = TypedValue::Boolean(true);
    let formatted = value.to_text().unwrap();
    assert_eq!(formatted, "true");
}

#[test]
fn test_typed_value_integer() {
    let value = TypedValue::Integer(42);
    let formatted = value.to_text().unwrap();
    assert_eq!(formatted, "42");
}

#[test]
fn test_typed_value_long() {
    let value = TypedValue::Long(1234567890);
    let formatted = value.to_text().unwrap();
    assert_eq!(formatted, "1234567890");
}

#[test]
fn test_typed_value_binary() {
    let value = TypedValue::Binary(vec![0x01, 0x02, 0x03]);
    let formatted = value.to_text().unwrap();
    assert_eq!(formatted, "[1, 2, 3]");
}

#[test]
fn typed_value_without_text() {
    assert_eq!(TypedValue::Float(3.14f32.to_bits()).to_text(), None);
    assert_eq!(TypedValue::Double(2.71828f64.to_bits()).to_text(), None);
    assert_eq!(TypedValue::Nested(MapMessage::default()).to_text(), None);
    assert_eq!(TypedValue::Boolean(false).to_text().unwrap(), "false");
    assert_eq!(TypedValue::Long(-7).to_text().unwrap(), "-7");
    assert_eq!(TypedValue::Binary(vec![]).to_text().unwrap(), "[]");
}
