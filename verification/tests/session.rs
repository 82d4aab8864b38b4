use tibco_ems::MockServer;

#[test]
fn test_mock_session() -> Result<(), String> {
    let mut server = MockServer::new();
    let conn = tibco_ems::connect(&mut server, "tcp://example.org:7222", "admin", "admin").unwrap();
    let session = conn.session(&mut server);
    match session {
        Ok(_val) => {
            return Ok(());
        }
        Err(_err) => {
            return Err("no error was returned".to_string());
        }
    }
}

const USER: &str = "admin";
const PASSWORD: &str = "";
const URL: &str = "tcp://localhost:7222";

#[test]
fn test_queue_consumer_with_queue_success() {
    let mut server = MockServer::new();
    let con = tibco_ems::connect(&mut server, URL, USER, PASSWORD).unwrap();
    let session = con.session(&mut server).unwrap();
    let dest = tibco_ems::Destination::Queue("test-success".into());
    let queue_consumer = session.queue_consumer(&mut server, &dest, None);
    assert!(queue_consumer.is_ok());
}

#[test]
fn test_queue_consumer_with_topic_success() {
    let mut server = MockServer::new();
    let con = tibco_ems::connect(&mut server, URL, USER, PASSWORD).unwrap();
    let session = con.session(&mut server).unwrap();
    let dest = tibco_ems::Destination::Topic("test-success".into());
    let queue_consumer = session.queue_consumer(&mut server, &dest, None);
    assert!(queue_consumer.is_ok());
}

#[test]
fn test_topic_consumer_with_topic_success() {
    let mut server = MockServer::new();
    let con = tibco_ems::connect(&mut server, URL, USER, PASSWORD).unwrap();
    let session = con.session(&mut server).unwrap();
    let dest = tibco_ems::Destination::Topic("test-success".into());
    let topic_consumer = session.topic_consumer(&mut server, &dest, "test-1", None);
    assert!(topic_consumer.is_ok());
}

#[test]
fn test_topic_consumer_with_queue_failure() {
    let mut server = MockServer::new();
    let con = tibco_ems::connect(&mut server, URL, USER, PASSWORD).unwrap();
    let session = con.session(&mut server).unwrap();
    let dest = tibco_ems::Destination::Queue("test-failure".into());
    let topic_consumer = session.topic_consumer(&mut server, &dest, "test-3", None);
    assert!(topic_consumer.is_err());
}

#[test]
fn test_topic_durable_consumer_with_topic_success() {
    let mut server = MockServer::new();
    let con = tibco_ems::connect(&mut server, URL, USER, PASSWORD).unwrap();
    let session = con.session(&mut server).unwrap();
    let dest = tibco_ems::Destination::Topic("test-success".into());
    let topic_durable_consumer =
        session.topic_durable_consumer(&mut server, &dest, "test-durable-1", None);
    assert!(topic_durable_consumer.is_ok());
}

#[test]
fn test_topic_durable_consumer_with_queue_failure() {
    let mut server = MockServer::new();
    let con = tibco_ems::connect(&mut server, URL, USER, PASSWORD).unwrap();
    let session = con.session(&mut server).unwrap();
    let dest = tibco_ems::Destination::Queue("test-failure".into());
    let topic_durable_consumer =
        session.topic_durable_consumer(&mut server, &dest, "test-durable-3", None);
    assert!(topic_durable_consumer.is_err());
}

#[test]
fn test_send_message_to_queue_success() {
    let mut server = MockServer::new();
    let con = tibco_ems::connect(&mut server, URL, USER, PASSWORD).unwrap();
    let session = con.session(&mut server).unwrap();
    let dest = tibco_ems::Destination::Queue("test-success".into());
    let msg = tibco_ems::TextMessage {
        body: "hello".into(),
        ..Default::default()
    };
    let msg_sent = session.send_message(&mut server, &dest, msg);
    assert!(msg_sent.is_ok());
}

#[test]
fn test_send_message_to_topic_success() {
    let mut server = MockServer::new();
    let con = tibco_ems::connect(&mut server, URL, USER, PASSWORD).unwrap();
    let session = con.session(&mut server).unwrap();
    let dest = tibco_ems::Destination::Topic("test-success".into());
    let msg = tibco_ems::TextMessage {
        body: "hello".into(),
        ..Default::default()
    };
    let msg_sent = session.send_message(&mut server, &dest, msg);
    assert!(msg_sent.is_ok());
}

#[test]
fn test_request_reply_queue_success() {
    let mut server = MockServer::new();
    let con = tibco_ems::connect(&mut server, URL, USER, PASSWORD).unwrap();
    let session = con.session(&mut server).unwrap();
    let dest = tibco_ems::Destination::Queue("test-success".into());
    let msg = tibco_ems::TextMessage {
        body: "hello".into(),
        ..Default::default()
    };
    let msg_sent = session.request_reply(&mut server, &dest, msg, 5);
    assert!(msg_sent.is_ok());
    let unwrapped_msg = msg_sent.unwrap();
    assert!(unwrapped_msg.is_none());
}

#[test]
fn test_request_reply_topic_success() {
    let mut server = MockServer::new();
    let con = tibco_ems::connect(&mut server, URL, USER, PASSWORD).unwrap();
    let session = con.session(&mut server).unwrap();
    let dest = tibco_ems::Destination::Topic("test-success".into());
    let msg = tibco_ems::TextMessage {
        body: "hello".into(),
        ..Default::default()
    };
    let msg_sent = session.request_reply(&mut server, &dest, msg, 5);
    assert!(msg_sent.is_ok());
    let unwrapped_msg = msg_sent.unwrap();
    assert!(unwrapped_msg.is_none());
}
