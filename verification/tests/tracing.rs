use tibco_ems::tracing::add_trace_to_message;
use tibco_ems::Message;
use tibco_ems::TextMessage;
use tibco_ems::TypedValue;
use tibco_ems::ValueMap;

fn with_header() -> Message {
    let mut header = ValueMap::new();
    header.insert("kept".to_string(), TypedValue::Integer(1));
    Message::TextMessage(TextMessage { body: "b".to_string(), header: Some(header), ..Default::default() })
}

fn header_text(message: &Message, name: &str) -> String {
    match message.header().as_ref().unwrap().get(name) {
        Some(TypedValue::String(s)) => s.clone(),
        _ => panic!("the header holds no text under {}", name),
    }
}

fn is_hex(text: &str) -> bool {
    text.chars().all(|c| c.is_ascii_hexdigit())
}

#[test]
fn known_ids_are_put_on_the_header() {
    let mut message = with_header();
    add_trace_to_message(
        &mut message,
        Some("00f067aa0ba902b7".to_string()),
        Some("4bf92f3577b34da6a3ce929d0e0e4736".to_string()),
    );
    assert_eq!(header_text(&message, "spanId"), "00f067aa0ba902b7");
    assert_eq!(header_text(&message, "traceId"), "4bf92f3577b34da6a3ce929d0e0e4736");
    assert_eq!(message.header().as_ref().unwrap().get("kept"), Some(&TypedValue::Integer(1)));
    assert_eq!(message.header().as_ref().unwrap().len(), 3);
}

#[test]
fn missing_ids_are_drawn() {
    let mut message = with_header();
    add_trace_to_message(&mut message, None, None);
    let span = header_text(&message, "spanId");
    let trace = header_text(&message, "traceId");
    assert_eq!(span.len(), 16);
    assert_eq!(trace.len(), 32);
    assert!(is_hex(&span));
    assert!(is_hex(&trace));

    let mut message = with_header();
    add_trace_to_message(&mut message, Some("abc".to_string()), None);
    assert_eq!(header_text(&message, "spanId"), "abc");
    assert_eq!(header_text(&message, "traceId").len(), 32);
}

#[test]
fn a_message_without_header_is_left_alone() {
    let mut message = Message::TextMessage(TextMessage::default());
    add_trace_to_message(&mut message, None, Some("t".to_string()));
    assert_eq!(message, Message::TextMessage(TextMessage::default()));
    let mut message = with_header();
    message.add_trace("s".to_string(), "t".to_string());
    assert_eq!(header_text(&message, "spanId"), "s");
    assert_eq!(header_text(&message, "traceId"), "t");
}
