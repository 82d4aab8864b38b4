use tibco_ems::admin::admin_queue;
use tibco_ems::admin::admin_url;
use tibco_ems::admin::connect;
use tibco_ems::admin::create_bridge;
use tibco_ems::admin::create_bridge_command;
use tibco_ems::admin::create_queue;
use tibco_ems::admin::create_queue_command;
use tibco_ems::admin::create_topic;
use tibco_ems::admin::create_topic_command;
use tibco_ems::admin::delete_bridge;
use tibco_ems::admin::delete_bridge_command;
use tibco_ems::admin::delete_queue;
use tibco_ems::admin::delete_queue_command;
use tibco_ems::admin::delete_topic;
use tibco_ems::admin::delete_topic_command;
use tibco_ems::admin::get_server_state;
use tibco_ems::admin::list_all_queues;
use tibco_ems::admin::list_all_topics;
use tibco_ems::admin::list_queues_command;
use tibco_ems::admin::list_topics_command;
use tibco_ems::admin::queues_from;
use tibco_ems::admin::read_queue;
use tibco_ems::admin::read_topic;
use tibco_ems::admin::server_state_command;
use tibco_ems::admin::server_state_from;
use tibco_ems::admin::topics_from;
use tibco_ems::admin::BridgeInfo;
use tibco_ems::admin::OverflowPolicy;
use tibco_ems::admin::QueueInfo;
use tibco_ems::admin::ServerState;
use tibco_ems::admin::TopicInfo;
use tibco_ems::Destination;
use tibco_ems::Error;
use tibco_ems::MapMessage;
use tibco_ems::Message;
use tibco_ems::MockServer;
use tibco_ems::TextMessage;
use tibco_ems::TypedValue;
use tibco_ems::ValueMap;

fn map(entries: &[(&str, TypedValue)]) -> ValueMap {
    let mut m = ValueMap::new();
    for (name, value) in entries {
        m.insert(name.to_string(), value.clone());
    }
    m
}

fn text(t: &str) -> TypedValue {
    TypedValue::String(t.to_string())
}

fn changing_header(code: i32) -> ValueMap {
    map(&[
        ("JMS_TIBCO_MSG_EXT", TypedValue::Boolean(true)),
        ("code", TypedValue::Integer(code)),
        ("save", TypedValue::Boolean(true)),
        ("arseq", TypedValue::Integer(1)),
    ])
}

fn asking_header(code: i32) -> ValueMap {
    map(&[
        ("code", TypedValue::Integer(code)),
        ("save", TypedValue::Boolean(true)),
        ("arseq", TypedValue::Integer(1)),
    ])
}

fn queue_figures() -> ValueMap {
    map(&[
        ("nm", text("10")),
        ("mb", text("1024")),
        ("mm", text("100")),
        ("op", text("1")),
        ("failsafe", text("1")),
        ("global", text("0")),
        ("sname", text("1")),
        ("pf", text("50")),
        ("cc", text("5")),
        ("expy", text("3600")),
        ("rdd", text("5000")),
        ("inct", text("1000")),
        ("outct", text("-2000")),
    ])
}

fn topic_figures() -> ValueMap {
    map(&[
        ("global", text("1")),
        ("pf", text("50")),
        ("expy", text("3600")),
        ("mb", text("1024")),
        ("mm", text("100")),
        ("cd", text("5")),
        ("sc", text("10")),
        ("nm", text("20")),
        ("inct", text("1000")),
        ("outct", text("2000")),
        ("op", text("2")),
    ])
}

fn nested(body: ValueMap) -> TypedValue {
    TypedValue::Nested(MapMessage { body, ..Default::default() })
}

#[test]
fn command_to_create_a_queue() {
    let queue = QueueInfo {
        name: "create_queue".to_string(),
        max_bytes: Some(1024),
        max_messages: Some(100),
        global: Some(false),
        prefetch: Some(50),
        pending_messages: Some(7),
        ..Default::default()
    };
    let command = create_queue_command(&queue);
    assert_eq!(
        command.body,
        map(&[
            ("dn", text("create_queue")),
            ("dt", TypedValue::Integer(1)),
            ("mb", TypedValue::Long(1024)),
            ("mm", TypedValue::Long(100)),
            ("global", TypedValue::Boolean(false)),
            ("pf", TypedValue::Integer(50)),
        ])
    );
    assert_eq!(command.header, Some(changing_header(18)));
    assert_eq!(command.destination, None);
    assert_eq!(command.reply_to, None);
    assert_eq!(command.pointer, None);

    let bare = create_queue_command(&QueueInfo { name: "q".to_string(), ..Default::default() });
    assert_eq!(bare.body, map(&[("dn", text("q")), ("dt", TypedValue::Integer(1))]));
}

#[test]
fn command_to_create_a_topic() {
    let topic = TopicInfo { name: "create_topic".to_string(), max_messages: Some(3), ..Default::default() };
    let command = create_topic_command(&topic);
    assert_eq!(
        command.body,
        map(&[
            ("dn", text("create_topic")),
            ("dt", TypedValue::Integer(2)),
            ("mm", TypedValue::Long(3)),
        ])
    );
    assert_eq!(command.header, Some(changing_header(18)));
}

#[test]
fn commands_to_delete() {
    let command = delete_queue_command("create_queue");
    assert_eq!(command.body, map(&[("dn", text("create_queue")), ("dt", TypedValue::Integer(1))]));
    assert_eq!(command.header, Some(changing_header(16)));
    let command = delete_topic_command("create_topic");
    assert_eq!(command.body, map(&[("dn", text("create_topic")), ("dt", TypedValue::Integer(2))]));
    assert_eq!(command.header, Some(changing_header(16)));
}

#[test]
fn commands_to_list() {
    let command = list_queues_command();
    assert_eq!(
        command.body,
        map(&[
            ("dt", TypedValue::Integer(1)),
            ("permType", TypedValue::Integer(6)),
            ("pattern", text(">")),
            ("ia", TypedValue::Boolean(true)),
            ("first", TypedValue::Integer(1000)),
        ])
    );
    assert_eq!(command.header, Some(asking_header(19)));
    assert_eq!(list_topics_command().body.get("dt"), Some(&TypedValue::Integer(2)));
    let command = server_state_command();
    assert!(command.body.is_empty());
    assert_eq!(command.header, Some(asking_header(127)));
}

#[test]
fn commands_on_bridges() {
    let bridge = BridgeInfo {
        source: Destination::Topic("create_bridge".to_string()),
        target: Destination::Queue("create_bridge".to_string()),
        selector: Some("a = 1".to_string()),
    };
    let command = create_bridge_command(&bridge);
    assert_eq!(
        command.body,
        map(&[
            ("st", TypedValue::Integer(2)),
            ("sn", text("create_bridge")),
            ("tt", TypedValue::Integer(1)),
            ("tn", text("create_bridge")),
            ("sel", text("a = 1")),
        ])
    );
    assert_eq!(command.header, Some(changing_header(220)));
    let command = delete_bridge_command(&bridge);
    assert_eq!(command.body.len(), 4);
    assert_eq!(command.body.get("sel"), None);
    assert_eq!(command.header, Some(changing_header(221)));
    let plain = BridgeInfo { selector: None, ..bridge };
    assert_eq!(create_bridge_command(&plain).body.len(), 4);
}

#[test]
fn reading_a_queue() {
    let queue = read_queue("my_queue", &queue_figures()).unwrap();
    assert_eq!(
        queue,
        QueueInfo {
            name: "my_queue".to_string(),
            pending_messages: Some(10),
            max_messages: Some(100),
            max_bytes: Some(1024),
            overflow_policy: Some(OverflowPolicy::DiscardOld),
            failsafe: Some(true),
            secure: Some(false),
            global: Some(false),
            sender_name: Some(true),
            sender_name_enforced: Some(false),
            prefetch: Some(50),
            expiry_override: Some(3600),
            redelivery_delay: Some(5000),
            consumer_count: Some(5),
            incoming_total_count: Some(1000),
            outgoing_total_count: Some(-2000),
        }
    );
}

#[test]
fn reading_a_queue_fails_on_a_bad_figure() {
    let mut figures = queue_figures();
    figures.insert("nm".to_string(), text("ten"));
    assert_eq!(read_queue("q", &figures), Err(Error::ConversionFailure));
    let mut figures = queue_figures();
    figures.insert("pf".to_string(), text("4294967296"));
    assert_eq!(read_queue("q", &figures), Err(Error::ConversionFailure));
    let mut figures = queue_figures();
    figures.insert("cc".to_string(), TypedValue::Integer(5));
    assert_eq!(read_queue("q", &figures), Err(Error::ConversionFailure));
    let mut figures = queue_figures();
    figures.insert("secure".to_string(), TypedValue::Boolean(true));
    assert_eq!(read_queue("q", &figures), Err(Error::ConversionFailure));
    let without: Vec<(String, TypedValue)> =
        queue_figures().entries.into_iter().filter(|e| e.0 != "op").collect();
    assert_eq!(read_queue("q", &ValueMap { entries: without }), Err(Error::ConversionFailure));
    assert_eq!(read_queue("q", &ValueMap::new()), Err(Error::ConversionFailure));
}

#[test]
fn reading_a_topic() {
    let topic = read_topic("my_topic", &topic_figures()).unwrap();
    assert_eq!(
        topic,
        TopicInfo {
            name: "my_topic".to_string(),
            expiry_override: Some(3600),
            global: Some(true),
            max_bytes: Some(1024),
            max_messages: Some(100),
            overflow_policy: Some(OverflowPolicy::RejectIncoming),
            prefetch: Some(50),
            durable_count: Some(5),
            subscriber_count: Some(10),
            pending_messages: Some(20),
            incoming_total_count: Some(1000),
            outgoing_total_count: Some(2000),
        }
    );
    let mut figures = topic_figures();
    figures.insert("sc".to_string(), text(""));
    assert_eq!(read_topic("t", &figures), Err(Error::ConversionFailure));
}

#[test]
fn overflow_policies() {
    assert_eq!(OverflowPolicy::from_text(&"0".to_string()), OverflowPolicy::Default);
    assert_eq!(OverflowPolicy::from_text(&"1".to_string()), OverflowPolicy::DiscardOld);
    assert_eq!(OverflowPolicy::from_text(&"2".to_string()), OverflowPolicy::RejectIncoming);
    assert_eq!(OverflowPolicy::from_text(&"3".to_string()), OverflowPolicy::Default);
    assert_eq!(OverflowPolicy::from_text(&"".to_string()), OverflowPolicy::Default);
}

#[test]
fn reading_the_answer_to_a_listing() {
    let body = map(&[("q.a", nested(queue_figures())), ("q.b", nested(queue_figures()))]);
    let answer = Message::MapMessage(MapMessage { body, ..Default::default() });
    let queues = queues_from(&answer).unwrap();
    assert_eq!(queues.len(), 2);
    assert_eq!(queues[0].name, "q.a");
    assert_eq!(queues[1].name, "q.b");
    assert_eq!(queues[1].pending_messages, Some(10));

    let body = map(&[("t.a", nested(topic_figures()))]);
    let answer = Message::MapMessage(MapMessage { body, ..Default::default() });
    let topics = topics_from(&answer).unwrap();
    assert_eq!(topics.len(), 1);
    assert_eq!(topics[0].name, "t.a");
    assert_eq!(topics[0].subscriber_count, Some(10));

    let body = map(&[("q.a", nested(queue_figures())), ("odd", TypedValue::Integer(1))]);
    let answer = Message::MapMessage(MapMessage { body, ..Default::default() });
    assert_eq!(queues_from(&answer), Err(Error::ConversionFailure));
    assert_eq!(topics_from(&answer), Err(Error::ConversionFailure));

    let other = Message::TextMessage(TextMessage::default());
    assert_eq!(queues_from(&other), Ok(vec![]));
    assert_eq!(topics_from(&other), Ok(vec![]));
}

#[test]
fn reading_the_state_of_the_server() {
    let standby = Message::MapMessage(MapMessage { body: map(&[("state", text("3"))]), ..Default::default() });
    let active = Message::MapMessage(MapMessage { body: map(&[("state", text("4"))]), ..Default::default() });
    let broken = Message::MapMessage(MapMessage {
        body: map(&[("state", TypedValue::Integer(3))]),
        ..Default::default()
    });
    let empty = Message::MapMessage(MapMessage::default());
    let other = Message::TextMessage(TextMessage::default());
    assert_eq!(server_state_from(&standby), Ok(ServerState::Standby));
    assert_eq!(server_state_from(&active), Ok(ServerState::Active));
    assert_eq!(server_state_from(&broken), Err(Error::ConversionFailure));
    assert_eq!(server_state_from(&empty), Err(Error::ConversionFailure));
    assert_eq!(server_state_from(&other), Ok(ServerState::Active));
}

#[test]
fn admin_connection_and_url() {
    assert_eq!(admin_url("tcp://localhost:7222"), "<$admin>:tcp://localhost:7222");
    assert_eq!(admin_url(""), "<$admin>:");
    assert_eq!(admin_queue(), Destination::Queue("$sys.admin".to_string()));
    let mut server = MockServer::new();
    let con = connect(&mut server, "tcp://localhost:7222", "admin", "");
    assert!(con.is_ok());
    assert!(server.connection.is_some());
}

#[test]
fn commands_against_the_in_memory_broker() {
    let mut server = MockServer::new();
    let con = connect(&mut server, "tcp://localhost:7222", "admin", "").unwrap();
    let session = con.session(&mut server).unwrap();

    let queue = QueueInfo { name: "create_queue".into(), ..Default::default() };
    assert_eq!(create_queue(&session, &mut server, &queue), Ok(()));
    assert_eq!(delete_queue(&session, &mut server, "create_queue"), Ok(()));
    let topic = TopicInfo { name: "create_topic".into(), ..Default::default() };
    assert_eq!(create_topic(&session, &mut server, &topic), Ok(()));
    assert_eq!(delete_topic(&session, &mut server, "create_topic"), Ok(()));
    let bridge = BridgeInfo {
        source: Destination::Topic("create_bridge".into()),
        target: Destination::Queue("create_bridge".into()),
        selector: None,
    };
    assert_eq!(create_bridge(&session, &mut server, &bridge), Ok(()));
    assert_eq!(delete_bridge(&session, &mut server, &bridge), Ok(()));
    assert_eq!(list_all_queues(&session, &mut server), Ok(vec![]));
    assert_eq!(list_all_topics(&session, &mut server), Ok(vec![]));
    assert_eq!(get_server_state(&session, &mut server), Ok(ServerState::Active));

    assert_eq!(server.messages.len(), 9);
    for (destination, _) in &server.messages {
        assert_eq!(destination, &admin_queue());
    }
    assert_eq!(server.messages[0].1, Message::MapMessage(create_queue_command(&queue)));
    assert_eq!(server.messages[1].1, Message::MapMessage(delete_queue_command("create_queue")));
    assert_eq!(server.messages[2].1, Message::MapMessage(create_topic_command(&topic)));
    assert_eq!(server.messages[3].1, Message::MapMessage(delete_topic_command("create_topic")));
    assert_eq!(server.messages[4].1, Message::MapMessage(create_bridge_command(&bridge)));
    assert_eq!(server.messages[5].1, Message::MapMessage(delete_bridge_command(&bridge)));
    assert_eq!(server.messages[6].1, Message::MapMessage(list_queues_command()));
    assert_eq!(server.messages[7].1, Message::MapMessage(list_topics_command()));
    assert_eq!(server.messages[8].1, Message::MapMessage(server_state_command()));
}
