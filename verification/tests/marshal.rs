use tibco_ems::c_binding::tibemsDestinationType;
use tibco_ems::c_binding::tibemsMsgType;
use tibco_ems::marshal::decode;
use tibco_ems::marshal::encode;
use tibco_ems::marshal::encode_request;
use tibco_ems::marshal::WireDestination;
use tibco_ems::marshal::WireMessage;
use tibco_ems::protocol::Request;
use tibco_ems::c_binding::tibems_status;
use tibco_ems::wire::after_nested;
use tibco_ems::wire::after_text;
use tibco_ems::wire::decode_map;
use tibco_ems::wire::decode_value;
use tibco_ems::wire::encode_map;
use tibco_ems::wire::encode_value;
use tibco_ems::wire::Probe;
use tibco_ems::wire::WireFields;
use tibco_ems::wire::WireValue;
use tibco_ems::BytesMessage;
use tibco_ems::Destination;
use tibco_ems::Error;
use tibco_ems::MapMessage;
use tibco_ems::Message;
use tibco_ems::ObjectMessage;
use tibco_ems::TextMessage;
use tibco_ems::TypedValue;
use tibco_ems::ValueMap;

fn nested(body: ValueMap) -> TypedValue {
    TypedValue::Nested(MapMessage { body, ..Default::default() })
}

fn empty_wire(kind: tibemsMsgType) -> WireMessage {
    WireMessage {
        kind,
        text: None,
        bytes: Vec::new(),
        fields: WireFields::new(),
        message_id: None,
        correlation_id: None,
        message_type: None,
        properties: WireFields::new(),
        destination: None,
        reply_to: None,
    }
}

#[test]
fn every_kind_of_value_comes_back() {
    let values = vec![
        TypedValue::String("x".to_string()),
        TypedValue::Integer(-1),
        TypedValue::Long(1 << 40),
        TypedValue::Float(3.14f32.to_bits()),
        TypedValue::Double(2.71828f64.to_bits()),
        TypedValue::Boolean(true),
    ];
    for value in values {
        let wire = encode_value(&value, true).unwrap();
        assert_eq!(decode_value(&wire, true), Ok(value.clone()));
        let wire = encode_value(&value, false).unwrap();
        assert_eq!(decode_value(&wire, false), Ok(value));
    }
    assert_eq!(
        encode_value(&TypedValue::Float(3.14f32.to_bits()), true),
        Ok(WireValue::Float(0x4048f5c3))
    );
    assert_eq!(encode_value(&TypedValue::Integer(7), true), Ok(WireValue::Int(7)));
}

#[test]
fn nested_map_round_trip() {
    let mut inner = ValueMap::new();
    inner.insert("c".to_string(), TypedValue::String("x".to_string()));
    let mut body = ValueMap::new();
    body.insert("a".to_string(), TypedValue::Integer(1));
    body.insert("b".to_string(), nested(inner));
    let message = Message::MapMessage(MapMessage { body: body.clone(), ..Default::default() });

    let wire = encode(&message).unwrap();
    assert_eq!(wire.kind, tibemsMsgType::TIBEMS_MAP_MESSAGE);
    assert_eq!(wire.fields.len(), 2);
    let back = decode(&wire, 9).unwrap();
    match back {
        Message::MapMessage(m) => {
            assert_eq!(m.body, body);
            assert_eq!(m.body.get("a"), Some(&TypedValue::Integer(1)));
            match m.body.get("b") {
                Some(TypedValue::Nested(n)) => {
                    assert_eq!(n.body.get("c"), Some(&TypedValue::String("x".to_string())));
                    assert_eq!(n.pointer, None);
                }
                _ => panic!("the nested body is lost"),
            }
            assert_eq!(m.pointer, Some(9));
            assert_eq!(m.header, Some(ValueMap::new()));
            assert_eq!(m.destination, None);
            assert_eq!(m.reply_to, None);
        }
        _ => panic!("a map message comes back as a map message"),
    }
}

#[test]
fn bytes_in_a_map_body_have_no_wire_form() {
    assert_eq!(encode_value(&TypedValue::Binary(vec![1]), true), Err(Error::UnsupportedType));
    let mut inner = ValueMap::new();
    inner.insert("deep".to_string(), TypedValue::Binary(vec![1, 2]));
    let mut body = ValueMap::new();
    body.insert("a".to_string(), TypedValue::Integer(1));
    body.insert("b".to_string(), nested(inner));
    assert_eq!(encode_map(&body, true).map(|_| ()), Err(Error::UnsupportedType));
    let message = Message::MapMessage(MapMessage { body, ..Default::default() });
    assert_eq!(encode(&message).map(|_| ()), Err(Error::UnsupportedType));

    let mut fields = WireFields::new();
    fields.push("raw".to_string(), WireValue::Bytes(vec![1, 2, 3]));
    assert_eq!(decode_map(&fields, true).map(|_| ()), Err(Error::UnsupportedType));
    assert_eq!(decode_value(&WireValue::Bytes(vec![]), true), Err(Error::UnsupportedType));
    let mut wire = empty_wire(tibemsMsgType::TIBEMS_MAP_MESSAGE);
    wire.fields = fields;
    assert_eq!(decode(&wire, 1).map(|_| ()), Err(Error::UnsupportedType));
}

#[test]
fn a_value_replaced_in_the_map_does_not_count() {
    let mut body = ValueMap::new();
    body.insert("a".to_string(), TypedValue::Binary(vec![1]));
    body.insert("a".to_string(), TypedValue::Integer(2));
    let fields = encode_map(&body, true).unwrap();
    assert_eq!(fields.len(), 1);
    assert_eq!(fields.entries[0], ("a".to_string(), WireValue::Int(2)));

    let shadowed = ValueMap {
        entries: vec![
            ("a".to_string(), TypedValue::Binary(vec![1])),
            ("a".to_string(), TypedValue::Integer(2)),
        ],
    };
    let fields = encode_map(&shadowed, true).unwrap();
    assert_eq!(fields.entries, vec![("a".to_string(), WireValue::Int(2))]);
}

#[test]
fn header_becomes_properties() {
    let mut header = ValueMap::new();
    header.insert("CorrelationID".to_string(), TypedValue::String("VALUE_1".to_string()));
    header.insert("JMSType".to_string(), TypedValue::String("order".to_string()));
    header.insert("count".to_string(), TypedValue::Long(3));
    header.insert("flag".to_string(), TypedValue::Boolean(false));
    let message = Message::TextMessage(TextMessage {
        body: "hallo welt".to_string(),
        header: Some(header.clone()),
        reply_to: Some(Destination::Topic("answers".to_string())),
        ..Default::default()
    });
    let wire = encode(&message).unwrap();
    assert_eq!(wire.kind, tibemsMsgType::TIBEMS_TEXT_MESSAGE);
    assert_eq!(wire.text, Some("hallo welt".to_string()));
    assert_eq!(wire.correlation_id, Some("VALUE_1".to_string()));
    assert_eq!(wire.message_type, Some("order".to_string()));
    assert_eq!(wire.message_id, None);
    assert_eq!(wire.destination, None);
    assert_eq!(
        wire.reply_to,
        Some(WireDestination { kind: tibemsDestinationType::TIBEMS_TOPIC, name: "answers".to_string() })
    );
    assert_eq!(wire.properties.len(), 4);
    assert_eq!(wire.properties.entries[2], ("count".to_string(), WireValue::Long(3)));

    let back = decode(&wire, 77).unwrap();
    match back {
        Message::TextMessage(m) => {
            assert_eq!(m.body, "hallo welt");
            let h = m.header.unwrap();
            assert_eq!(h.len(), 4);
            assert_eq!(h.get("CorrelationID"), header.get("CorrelationID"));
            assert_eq!(h.get("JMSType"), header.get("JMSType"));
            assert_eq!(h.get("count"), Some(&TypedValue::Long(3)));
            assert_eq!(h.get("flag"), Some(&TypedValue::Boolean(false)));
            assert_eq!(m.reply_to, Some(Destination::Topic("answers".to_string())));
            assert_eq!(m.destination, None);
            assert_eq!(m.pointer, Some(77));
        }
        _ => panic!("a text message comes back as a text message"),
    }
}

#[test]
fn header_failures() {
    let mut header = ValueMap::new();
    header.insert("CorrelationID".to_string(), TypedValue::Integer(1));
    let message = Message::TextMessage(TextMessage { header: Some(header), ..Default::default() });
    assert_eq!(encode(&message).map(|_| ()), Err(Error::ConversionFailure));

    let mut header = ValueMap::new();
    header.insert("JMSType".to_string(), TypedValue::Boolean(true));
    let message = Message::BytesMessage(BytesMessage { header: Some(header), ..Default::default() });
    assert_eq!(encode(&message).map(|_| ()), Err(Error::ConversionFailure));

    let mut header = ValueMap::new();
    header.insert("raw".to_string(), TypedValue::Binary(vec![1]));
    let message = Message::ObjectMessage(ObjectMessage { header: Some(header), ..Default::default() });
    assert_eq!(encode(&message).map(|_| ()), Err(Error::UnsupportedType));

    let mut header = ValueMap::new();
    header.insert("sub".to_string(), nested(ValueMap::new()));
    let message = Message::TextMessage(TextMessage { header: Some(header), ..Default::default() });
    assert_eq!(encode(&message).map(|_| ()), Err(Error::UnsupportedType));

    let mut header = ValueMap::new();
    header.insert("CorrelationID".to_string(), TypedValue::Integer(1));
    let mut body = ValueMap::new();
    body.insert("raw".to_string(), TypedValue::Binary(vec![1]));
    let message = Message::MapMessage(MapMessage { body, header: Some(header), ..Default::default() });
    assert_eq!(encode(&message).map(|_| ()), Err(Error::UnsupportedType));
}

#[test]
fn bodies_of_bytes_and_objects() {
    let message = Message::BytesMessage(BytesMessage { body: vec![1, 2, 3, 4, 5], ..Default::default() });
    let wire = encode(&message).unwrap();
    assert_eq!(wire.kind, tibemsMsgType::TIBEMS_BYTES_MESSAGE);
    assert_eq!(wire.bytes, vec![1, 2, 3, 4, 5]);
    assert_eq!(wire.text, None);
    match decode(&wire, 1).unwrap() {
        Message::BytesMessage(m) => assert_eq!(m.body, vec![1, 2, 3, 4, 5]),
        _ => panic!("a bytes message comes back as a bytes message"),
    }

    let message = Message::ObjectMessage(ObjectMessage { body: vec![9], ..Default::default() });
    let wire = encode(&message).unwrap();
    assert_eq!(wire.kind, tibemsMsgType::TIBEMS_OBJECT_MESSAGE);
    match decode(&wire, 1).unwrap() {
        Message::ObjectMessage(m) => assert_eq!(m.body, vec![9]),
        _ => panic!("an object message comes back as an object message"),
    }
}

#[test]
fn decoding_fills_the_header() {
    let mut wire = empty_wire(tibemsMsgType::TIBEMS_TEXT_MESSAGE);
    wire.text = Some("hello".to_string());
    wire.message_id = Some("ID:1".to_string());
    wire.message_type = Some(String::new());
    wire.properties.push("JMS_TIBCO_COMPRESS".to_string(), WireValue::Boolean(true));
    wire.properties.push("note".to_string(), WireValue::String("n".to_string()));
    wire.destination = Some(WireDestination {
        kind: tibemsDestinationType::TIBEMS_QUEUE,
        name: "q1".to_string(),
    });
    wire.reply_to = Some(WireDestination {
        kind: tibemsDestinationType::TIBEMS_UNKNOWN,
        name: "lost".to_string(),
    });
    match decode(&wire, 5).unwrap() {
        Message::TextMessage(m) => {
            let h = m.header.unwrap();
            assert_eq!(h.get("MessageID"), Some(&TypedValue::String("ID:1".to_string())));
            assert_eq!(h.get("CorrelationID"), None);
            assert_eq!(h.get("JMSType"), None);
            assert_eq!(h.get("JMS_TIBCO_COMPRESS"), Some(&TypedValue::Boolean(true)));
            assert_eq!(h.get("note"), Some(&TypedValue::String("n".to_string())));
            assert_eq!(h.len(), 3);
            assert_eq!(m.destination, Some(Destination::Queue("q1".to_string())));
            assert_eq!(m.reply_to, None);
            assert_eq!(m.pointer, Some(5));
        }
        _ => panic!("a body of text stands for a text message"),
    }

    let mut wire = empty_wire(tibemsMsgType::TIBEMS_TEXT_MESSAGE);
    wire.correlation_id = Some("c".to_string());
    wire.message_type = Some("t".to_string());
    wire.properties.push("JMSType".to_string(), WireValue::String("from property".to_string()));
    match decode(&wire, 5).unwrap() {
        Message::TextMessage(m) => {
            assert_eq!(m.body, "");
            let h = m.header.unwrap();
            assert_eq!(h.get("CorrelationID"), Some(&TypedValue::String("c".to_string())));
            assert_eq!(h.get("JMSType"), Some(&TypedValue::String("t".to_string())));
        }
        _ => panic!("a body of text stands for a text message"),
    }
}

#[test]
fn unknown_kinds_of_body() {
    for kind in [
        tibemsMsgType::TIBEMS_MESSAGE_UNKNOWN,
        tibemsMsgType::TIBEMS_MESSAGE,
        tibemsMsgType::TIBEMS_STREAM_MESSAGE,
        tibemsMsgType::TIBEMS_MESSAGE_UNDEFINED,
    ] {
        assert_eq!(decode(&empty_wire(kind), 1).map(|_| ()), Err(Error::UnsupportedType));
    }
    let mut wire = empty_wire(tibemsMsgType::TIBEMS_TEXT_MESSAGE);
    wire.properties.push("sub".to_string(), WireValue::Fields(WireFields::new()));
    assert_eq!(decode(&wire, 1).map(|_| ()), Err(Error::UnsupportedType));
}

#[test]
fn a_request_carries_no_reply_address_of_its_own() {
    let message = Message::TextMessage(TextMessage {
        body: "hello".to_string(),
        reply_to: Some(Destination::Queue("mine".to_string())),
        ..Default::default()
    });
    let wire = encode_request(&message).unwrap();
    assert_eq!(wire.reply_to, None);
    assert_eq!(wire.text, Some("hello".to_string()));
    assert_eq!(encode(&message).unwrap().reply_to.unwrap().name, "mine");
}

#[test]
fn primitive_then_nested() {
    let mut fields = WireFields::new();
    fields.push("c".to_string(), WireValue::String("x".to_string()));
    let value = WireValue::Fields(fields);
    assert_eq!(value.primitive(), Err(Error::ConversionFailure));
    assert!(value.nested().is_ok());
    assert_eq!(WireValue::Int(1).nested().map(|_| ()), Err(Error::ConversionFailure));
    assert_eq!(WireValue::Int(1).primitive(), Ok(TypedValue::Integer(1)));
    assert_eq!(decode_value(&value, false), Err(Error::UnsupportedType));
    match decode_value(&value, true) {
        Ok(TypedValue::Nested(m)) => {
            assert_eq!(m.body.get("c"), Some(&TypedValue::String("x".to_string())))
        }
        _ => panic!("a nested body is taken as a nested message"),
    }
}

#[test]
fn handle_is_given_up_once() {
    let mut message = decode(&empty_wire(tibemsMsgType::TIBEMS_TEXT_MESSAGE), 12).unwrap();
    assert_eq!(message.pointer(), Some(12));
    assert_eq!(message.confirm(), Some(Request::Acknowledge { message: 12 }));
    assert_eq!(message.rollback(), Some(Request::Recover { message: 12 }));
    let copy = message.clone();
    assert_eq!(copy.pointer(), None);
    assert_eq!(copy.confirm(), None);
    assert_eq!(message.destroy(), Some(Request::DestroyMessage { message: 12 }));
    assert_eq!(message.destroy(), None);
    assert_eq!(message.pointer(), None);
    assert_eq!(message.rollback(), None);
}

#[test]
fn a_field_of_unknown_type_is_asked_for_in_turn() {
    assert_eq!(after_text(tibems_status::TIBEMS_OK, true), Probe::Take);
    assert_eq!(after_text(tibems_status::TIBEMS_OK, false), Probe::Skip);
    assert_eq!(after_text(tibems_status::TIBEMS_CONVERSION_FAILED, false), Probe::AskNested);
    assert_eq!(after_text(tibems_status::TIBEMS_CONVERSION_FAILED, true), Probe::AskNested);
    assert_eq!(after_text(tibems_status::TIBEMS_NOT_FOUND, false), Probe::Skip);
    assert_eq!(after_nested(tibems_status::TIBEMS_OK), Probe::Take);
    assert_eq!(after_nested(tibems_status::TIBEMS_CONVERSION_FAILED), Probe::Bytes);
    assert_eq!(after_nested(tibems_status::TIBEMS_INVALID_MSG), Probe::Skip);
}
