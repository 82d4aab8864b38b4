use tibco_ems::Destination;
use tibco_ems::Error;
use tibco_ems::MapMessage;
use tibco_ems::Message;
use tibco_ems::TextMessage;
use tibco_ems::TypedValue;
use tibco_ems::ValueMap;

#[test]
fn insert_sets_and_replaces() {
    let mut map = ValueMap::new();
    assert!(map.is_empty());
    assert_eq!(map.insert("a".to_string(), TypedValue::Integer(1)), None);
    assert_eq!(map.insert("b".to_string(), TypedValue::Integer(2)), None);
    assert_eq!(
        map.insert("a".to_string(), TypedValue::Integer(3)),
        Some(TypedValue::Integer(1))
    );
    assert_eq!(map.len(), 2);
    assert!(!map.is_empty());
    assert_eq!(map.get("a"), Some(&TypedValue::Integer(3)));
    assert_eq!(map.get("b"), Some(&TypedValue::Integer(2)));
    assert_eq!(map.get("c"), None);
    assert!(map.contains_key("b"));
    assert!(!map.contains_key("B"));
    assert_eq!(map.entries[0].0, "a");
    assert_eq!(map.position(&"b".to_string()), Some(1));
    assert_eq!(map.position(&"z".to_string()), None);
}

#[test]
fn the_last_entry_of_a_name_counts() {
    let map = ValueMap {
        entries: vec![
            ("a".to_string(), TypedValue::Integer(1)),
            ("b".to_string(), TypedValue::Integer(2)),
            ("a".to_string(), TypedValue::Integer(3)),
        ],
    };
    assert_eq!(map.get("a"), Some(&TypedValue::Integer(3)));
    assert_eq!(map.position(&"a".to_string()), Some(2));
    let mut copy = map.clone();
    assert_eq!(copy, map);
    assert_eq!(
        copy.insert("a".to_string(), TypedValue::Integer(4)),
        Some(TypedValue::Integer(3))
    );
    assert_eq!(copy.len(), 3);
    assert_eq!(copy.get("a"), Some(&TypedValue::Integer(4)));
}

#[test]
fn extend_prefers_the_other_map() {
    let mut left = ValueMap::new();
    left.insert("a".to_string(), TypedValue::Integer(1));
    left.insert("b".to_string(), TypedValue::Integer(2));
    let mut right = ValueMap::new();
    right.insert("b".to_string(), TypedValue::Boolean(true));
    right.insert("c".to_string(), TypedValue::Long(3));
    left.extend(&right);
    assert_eq!(left.len(), 3);
    assert_eq!(left.get("a"), Some(&TypedValue::Integer(1)));
    assert_eq!(left.get("b"), Some(&TypedValue::Boolean(true)));
    assert_eq!(left.get("c"), Some(&TypedValue::Long(3)));
    assert_eq!(ValueMap::default(), ValueMap::new());
}

#[test]
fn typed_accessors() {
    let s = TypedValue::String("x".to_string());
    let i = TypedValue::Integer(1);
    let l = TypedValue::Long(2);
    let f = TypedValue::Float(1.5f32.to_bits());
    let d = TypedValue::Double(2.5f64.to_bits());
    let b = TypedValue::Binary(vec![1, 2]);
    let m = TypedValue::Nested(MapMessage::default());
    let t = TypedValue::Boolean(true);

    assert_eq!(s.as_string(), Ok(&"x".to_string()));
    assert_eq!(i.as_integer(), Ok(1));
    assert_eq!(l.as_long(), Ok(2));
    assert_eq!(f.as_float().map(f32::from_bits), Ok(1.5));
    assert_eq!(d.as_double().map(f64::from_bits), Ok(2.5));
    assert_eq!(b.as_binary(), Ok(&vec![1, 2]));
    assert_eq!(m.as_map(), Ok(&MapMessage::default()));
    assert_eq!(t.as_boolean(), Ok(true));

    assert_eq!(i.as_string(), Err(Error::ConversionFailure));
    assert_eq!(s.as_integer(), Err(Error::ConversionFailure));
    assert_eq!(i.as_long(), Err(Error::ConversionFailure));
    assert_eq!(d.as_float(), Err(Error::ConversionFailure));
    assert_eq!(f.as_double(), Err(Error::ConversionFailure));
    assert_eq!(s.as_binary(), Err(Error::ConversionFailure));
    assert_eq!(b.as_map(), Err(Error::ConversionFailure));
    assert_eq!(i.as_boolean(), Err(Error::ConversionFailure));
}

#[test]
fn a_copy_of_a_value_leaves_nested_handles_behind() {
    let mut inner = MapMessage::default();
    inner.pointer = Some(4);
    inner.body.insert("k".to_string(), TypedValue::Integer(1));
    let value = TypedValue::Nested(inner);
    match value.clone() {
        TypedValue::Nested(copy) => {
            assert_eq!(copy.pointer, None);
            assert_eq!(copy.body.get("k"), Some(&TypedValue::Integer(1)));
        }
        _ => panic!("a copy is of the same kind"),
    }
}

#[test]
fn a_copy_of_a_message_holds_no_handle() {
    let mut header = ValueMap::new();
    header.insert("h".to_string(), TypedValue::Boolean(true));
    let text = TextMessage {
        body: "b".to_string(),
        header: Some(header),
        destination: Some(Destination::Queue("q".to_string())),
        reply_to: Some(Destination::Topic("t".to_string())),
        pointer: Some(5),
    };
    let message = Message::TextMessage(text);
    let copy = message.clone();
    assert_eq!(copy.pointer(), None);
    assert_eq!(message.pointer(), Some(5));
    match (&message, &copy) {
        (Message::TextMessage(a), Message::TextMessage(b)) => {
            assert_eq!(a.body, b.body);
            assert_eq!(a.header, b.header);
            assert_eq!(a.destination, b.destination);
            assert_eq!(a.reply_to, b.reply_to);
        }
        _ => panic!("a copy is of the same kind"),
    }
    assert_eq!(copy.header(), message.header());
    assert_eq!(copy.destination(), &Some(Destination::Queue("q".to_string())));
    assert_eq!(copy.reply_to(), &Some(Destination::Topic("t".to_string())));
}

#[test]
fn narrowing_a_message() {
    let text: Message = TextMessage::default().into();
    let map: Message = MapMessage::default().into();
    assert_eq!(text.into_text_message(), Ok(TextMessage::default()));
    assert_eq!(map.into_text_message(), Err(Error::ConversionFailure));
    let map: Message = MapMessage::default().into();
    assert_eq!(map.into_map_message(), Ok(MapMessage::default()));
    let text: Message = TextMessage::default().into();
    assert_eq!(text.into_bytes_message().map(|_| ()), Err(Error::ConversionFailure));
    let text: Message = TextMessage::default().into();
    assert_eq!(text.into_object_message().map(|_| ()), Err(Error::ConversionFailure));
    let text: Message = TextMessage::default().into();
    assert_eq!(text.into_map_message().map(|_| ()), Err(Error::ConversionFailure));
}

#[test]
fn destinations() {
    let q = Destination::Queue("n".to_string());
    let t = Destination::Topic("n".to_string());
    assert_ne!(q, t);
    assert_eq!(q, Destination::Queue("n".to_string()));
    assert_ne!(q, Destination::Queue("m".to_string()));
    assert_eq!(q.name(), "n");
    assert!(t.is_topic());
    assert!(!q.is_topic());
    assert_eq!(q.clone(), q);
}

#[test]
fn maps_are_equal_in_any_order() {
    let mut one = ValueMap::new();
    one.insert("a".to_string(), TypedValue::Integer(1));
    one.insert("b".to_string(), TypedValue::String("x".to_string()));
    let mut other = ValueMap::new();
    other.insert("b".to_string(), TypedValue::String("x".to_string()));
    other.insert("a".to_string(), TypedValue::Integer(1));
    assert_eq!(one, other);
    assert!(one.same_as(&other));

    other.insert("a".to_string(), TypedValue::Integer(2));
    assert_ne!(one, other);
    other.insert("a".to_string(), TypedValue::Integer(1));
    other.insert("c".to_string(), TypedValue::Boolean(true));
    assert_ne!(one, other);
    assert_ne!(other, one);
    assert_ne!(one, ValueMap::new());

    let shadowed = ValueMap {
        entries: vec![
            ("a".to_string(), TypedValue::Integer(9)),
            ("b".to_string(), TypedValue::String("x".to_string())),
            ("a".to_string(), TypedValue::Integer(1)),
        ],
    };
    assert_eq!(one, shadowed);
    assert_eq!(shadowed, one);
}

#[test]
fn values_are_equal_by_kind_and_content() {
    assert_eq!(TypedValue::Integer(1), TypedValue::Integer(1));
    assert_ne!(TypedValue::Integer(1), TypedValue::Long(1));
    assert_ne!(TypedValue::Float(1), TypedValue::Double(1));
    assert_eq!(TypedValue::Binary(vec![1, 2]), TypedValue::Binary(vec![1, 2]));
    assert_ne!(TypedValue::Binary(vec![1, 2]), TypedValue::Binary(vec![1, 3]));
    assert_ne!(TypedValue::Binary(vec![1, 2]), TypedValue::Binary(vec![1]));
    assert_ne!(TypedValue::String("a".to_string()), TypedValue::String("b".to_string()));
    assert_ne!(TypedValue::Boolean(true), TypedValue::Boolean(false));

    let mut body = ValueMap::new();
    body.insert("k".to_string(), TypedValue::Integer(1));
    let plain = MapMessage { body: body.clone(), ..Default::default() };
    let held = MapMessage { body, pointer: Some(3), ..Default::default() };
    assert_ne!(plain, held);
    assert_eq!(TypedValue::Nested(plain), TypedValue::Nested(held));
    assert_ne!(
        TypedValue::Nested(MapMessage::default()),
        TypedValue::Nested(MapMessage {
            body: ValueMap { entries: vec![("k".to_string(), TypedValue::Integer(1))] },
            ..Default::default()
        })
    );
}
