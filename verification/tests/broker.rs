use std::time::Duration;
use std::time::Instant;
use tibco_ems::BytesMessage;
use tibco_ems::Destination;
use tibco_ems::Error;
use tibco_ems::MapMessage;
use tibco_ems::Message;
use tibco_ems::MockServer;
use tibco_ems::ObjectMessage;
use tibco_ems::TextMessage;

fn hello() -> TextMessage {
    TextMessage { body: "hello".to_string(), ..Default::default() }
}

#[test]
fn send_then_receive_on_the_same_queue() {
    let mut server = MockServer::new();
    let connection = tibco_ems::connect(&mut server, "tcp://example.org:7222", "admin", "admin").unwrap();
    let session = connection.session(&mut server).unwrap();
    let q1 = Destination::Queue("q1".to_string());
    session.send_message(&mut server, &q1, hello()).unwrap();
    let consumer = session.queue_consumer(&mut server, &q1, None).unwrap();
    let received = consumer.receive_message(&server, Some(1)).unwrap();
    assert_eq!(
        received,
        Some(Message::TextMessage(TextMessage {
            body: "hello".to_string(),
            header: None,
            destination: None,
            reply_to: None,
            pointer: None,
        }))
    );
}

#[test]
fn a_consumer_on_another_queue_receives_nothing() {
    let mut server = MockServer::new();
    let connection = tibco_ems::connect(&mut server, "url", "user", "password").unwrap();
    let session = connection.session(&mut server).unwrap();
    let q1 = Destination::Queue("q1".to_string());
    let q2 = Destination::Queue("q2".to_string());
    session.send_message(&mut server, &q1, hello()).unwrap();
    let consumer = session.queue_consumer(&mut server, &q2, None).unwrap();
    assert_eq!(consumer.receive_message(&server, None), Ok(None));
    let consumer = session
        .queue_consumer(&mut server, &Destination::Topic("q1".to_string()), None)
        .unwrap();
    assert_eq!(consumer.receive_message(&server, None), Ok(None));
}

#[test]
fn the_first_message_stays_in_the_log() {
    let mut server = MockServer::new();
    let connection = tibco_ems::connect(&mut server, "url", "user", "password").unwrap();
    let session = connection.transacted_session(&mut server).unwrap();
    let q1 = Destination::Queue("q1".to_string());
    let q2 = Destination::Queue("q2".to_string());
    let mut first = hello();
    first.pointer = Some(3);
    session.send_message(&mut server, &q2, BytesMessage::default()).unwrap();
    session.send_message(&mut server, &q1, first).unwrap();
    session
        .send_message(&mut server, &q1, TextMessage { body: "second".to_string(), ..Default::default() })
        .unwrap();
    let consumer = session.queue_consumer(&mut server, &q1, Some("a = 1")).unwrap();
    let once = consumer.receive_message(&server, Some(0)).unwrap().unwrap();
    let twice = consumer.receive_message(&server, None).unwrap().unwrap();
    assert_eq!(once, twice);
    assert_eq!(once, Message::TextMessage(hello()));
    assert_eq!(once.pointer(), None);
    assert_eq!(server.messages.len(), 3);
    assert_eq!(server.messages[1].1.pointer(), Some(3));
}

#[test]
fn receive_without_a_consumer() {
    let mut server = MockServer::new();
    let connection = tibco_ems::connect(&mut server, "url", "user", "password").unwrap();
    let session = connection.session(&mut server).unwrap();
    let q1 = Destination::Queue("q1".to_string());
    let consumer = session.queue_consumer(&mut server, &q1, None).unwrap();
    let mut other = MockServer::new();
    session.send_message(&mut other, &q1, hello()).unwrap();
    assert_eq!(consumer.receive_message(&other, None), Ok(None));
}

#[test]
fn request_reply_never_gets_a_reply() {
    let mut server = MockServer::new();
    let connection = tibco_ems::connect(&mut server, "url", "user", "password").unwrap();
    let session = connection.session(&mut server).unwrap();
    let q1 = Destination::Queue("q1".to_string());
    let started = Instant::now();
    let reply = session.request_reply(&mut server, &q1, hello(), 50);
    assert!(started.elapsed() < Duration::from_millis(50));
    assert_eq!(reply, Ok(None));
    assert_eq!(server.messages.len(), 1);
    assert_eq!(server.messages[0], (q1.clone(), Message::TextMessage(hello())));
    let consumer = session.queue_consumer(&mut server, &q1, None).unwrap();
    assert_eq!(consumer.receive_text_message(&server, None), Ok(Some(hello())));
}

#[test]
fn topic_consumers_need_a_topic() {
    let mut server = MockServer::new();
    let connection = tibco_ems::connect(&mut server, "url", "user", "password").unwrap();
    let session = connection.session(&mut server).unwrap();
    let queue = Destination::Queue("test-failure".to_string());
    let topic = Destination::Topic("test-success".to_string());
    assert_eq!(
        session.topic_consumer(&mut server, &queue, "test-3", None).map(|_| ()),
        Err(Error::WrongDestinationKind)
    );
    assert_eq!(
        session.topic_durable_consumer(&mut server, &queue, "test-durable-3", None).map(|_| ()),
        Err(Error::WrongDestinationKind)
    );
    assert_eq!(server.consumer, None);
    assert!(session.topic_consumer(&mut server, &topic, "test-1", None).is_ok());
    assert_eq!(server.consumer, Some(topic.clone()));
    assert!(session.queue_consumer(&mut server, &queue, None).is_ok());
    assert_eq!(server.consumer, Some(queue));
    assert!(session.topic_durable_consumer(&mut server, &topic, "test-durable-1", None).is_ok());
    assert_eq!(server.consumer, Some(topic));
}

#[test]
fn receive_by_kind() {
    let mut server = MockServer::new();
    let connection = tibco_ems::connect(&mut server, "url", "user", "password").unwrap();
    let session = connection.session(&mut server).unwrap();
    let text = Destination::Queue("text".to_string());
    let bytes = Destination::Queue("bytes".to_string());
    let map = Destination::Queue("map".to_string());
    let object = Destination::Queue("object".to_string());
    session.send_message(&mut server, &text, hello()).unwrap();
    session
        .send_message(&mut server, &bytes, BytesMessage { body: vec![1], ..Default::default() })
        .unwrap();
    session.send_message(&mut server, &map, MapMessage::default()).unwrap();
    session
        .send_message(&mut server, &object, ObjectMessage { body: vec![2], ..Default::default() })
        .unwrap();

    let consumer = session.queue_consumer(&mut server, &text, None).unwrap();
    assert_eq!(consumer.receive_text_message(&server, None), Ok(Some(hello())));
    assert_eq!(consumer.receive_bytes_message(&server, None), Ok(None));
    assert_eq!(consumer.receive_map_message(&server, None), Ok(None));
    assert_eq!(consumer.receive_object_message(&server, None), Ok(None));

    let consumer = session.queue_consumer(&mut server, &bytes, None).unwrap();
    assert_eq!(
        consumer.receive_bytes_message(&server, None),
        Ok(Some(BytesMessage { body: vec![1], ..Default::default() }))
    );
    assert_eq!(consumer.receive_text_message(&server, None), Ok(None));

    let consumer = session.queue_consumer(&mut server, &map, None).unwrap();
    assert_eq!(consumer.receive_map_message(&server, None), Ok(Some(MapMessage::default())));

    let consumer = session.queue_consumer(&mut server, &object, None).unwrap();
    assert_eq!(
        consumer.receive_object_message(&server, None),
        Ok(Some(ObjectMessage { body: vec![2], ..Default::default() }))
    );
}

#[test]
fn the_broker_remembers_connection_and_session() {
    let mut server = MockServer::new();
    assert!(server.connection.is_none());
    assert!(server.session.is_none());
    let connection = tibco_ems::connect(&mut server, "url", "user", "password").unwrap();
    assert_eq!(connection.handle(), 0);
    assert_eq!(server.connection.as_ref().map(|c| c.handle()), Some(0));
    let session = connection.session(&mut server).unwrap();
    assert_eq!((session.handle(), session.producer()), (0, 0));
    assert_eq!(server.session.as_ref().map(|s| s.handle()), Some(0));
    assert_eq!(connection.get_active_url(), Ok(String::new()));
}

#[test]
fn streams_of_one_kind() {
    let mut server = MockServer::new();
    let connection = tibco_ems::connect(&mut server, "url", "user", "password").unwrap();
    let session = connection.session(&mut server).unwrap();
    let q1 = Destination::Queue("test-success".to_string());
    session.send_message(&mut server, &q1, hello()).unwrap();
    let stream = connection.open_stream::<TextMessage>(&mut server, &q1, None).unwrap();
    assert!(stream.message.is_none());
    assert_eq!(stream.poll_next(&server), Some(hello()));
    let stream = connection.open_stream::<BytesMessage>(&mut server, &q1, None).unwrap();
    assert_eq!(stream.poll_next(&server), None);
    assert_eq!(tibco_ems::stream::next_text(Err(Error::UnsupportedType)), None);
    assert_eq!(tibco_ems::stream::next_bytes(Ok(None)), None);
    assert_eq!(
        tibco_ems::stream::next_bytes(Ok(Some(Message::BytesMessage(BytesMessage::default())))),
        Some(BytesMessage::default())
    );
}
