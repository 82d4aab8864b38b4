use tibco_ems::admin::AdminCommands;
use tibco_ems::admin::BridgeInfo;
use tibco_ems::admin::OverflowPolicy;
use tibco_ems::admin::QueueInfo;
use tibco_ems::admin::ServerState;
use tibco_ems::admin::TopicInfo;
use tibco_ems::Destination;

#[test]
fn test_queue_info_default() {
    let queue_info = QueueInfo::default();

    assert_eq!(queue_info.name, String::new());
    assert_eq!(queue_info.pending_messages, None);
    assert_eq!(queue_info.max_messages, None);
    assert_eq!(queue_info.max_bytes, None);
    assert_eq!(queue_info.overflow_policy, None);
    assert_eq!(queue_info.failsafe, None);
    assert_eq!(queue_info.secure, None);
    assert_eq!(queue_info.global, None);
    assert_eq!(queue_info.sender_name, None);
    assert_eq!(queue_info.sender_name_enforced, None);
    assert_eq!(queue_info.prefetch, None);
    assert_eq!(queue_info.expiry_override, None);
    assert_eq!(queue_info.redelivery_delay, None);
    assert_eq!(queue_info.consumer_count, None);
    assert_eq!(queue_info.incoming_total_count, None);
    assert_eq!(queue_info.outgoing_total_count, None);
}

#[test]
fn test_topic_info_default() {
    let topic_info = TopicInfo::default();

    assert_eq!(topic_info.name, String::new());
    assert_eq!(topic_info.expiry_override, None);
    assert_eq!(topic_info.global, None);
    assert_eq!(topic_info.max_bytes, None);
    assert_eq!(topic_info.max_messages, None);
    assert_eq!(topic_info.overflow_policy, None);
    assert_eq!(topic_info.prefetch, None);
    assert_eq!(topic_info.durable_count, None);
    assert_eq!(topic_info.subscriber_count, None);
    assert_eq!(topic_info.pending_messages, None);
    assert_eq!(topic_info.incoming_total_count, None);
    assert_eq!(topic_info.outgoing_total_count, None);
}

#[test]
fn test_bridge_info_clone() {
    let bridge_info = BridgeInfo {
        source: Destination::Queue("source_queue".to_string()),
        target: Destination::Topic("target_topic".to_string()),
        selector: Some("some_selector".to_string()),
    };

    let cloned_bridge_info = bridge_info.clone();

    assert_eq!(cloned_bridge_info, bridge_info);
}

#[test]
fn test_overflow_policy_enum() {
    let default_policy: OverflowPolicy = OverflowPolicy::Default;
    let discard_old_policy: OverflowPolicy = OverflowPolicy::DiscardOld;
    let reject_incoming_policy: OverflowPolicy = OverflowPolicy::RejectIncoming;

    assert_eq!(default_policy.code(), 0);
    assert_eq!(discard_old_policy.code(), 1);
    assert_eq!(reject_incoming_policy.code(), 2);
}

#[test]
fn test_admin_commands_delete_destination() {
    let command = AdminCommands::DeleteDestination;
    assert_eq!(command, AdminCommands::DeleteDestination);
    assert_eq!(command.code(), 16);
}

#[test]
fn test_admin_commands_create_destination() {
    let command = AdminCommands::CreateDestination;
    assert_eq!(command, AdminCommands::CreateDestination);
    assert_eq!(command.code(), 18);
}

#[test]
fn test_admin_commands_list_destination() {
    let command = AdminCommands::ListDestination;
    assert_eq!(command, AdminCommands::ListDestination);
    assert_eq!(command.code(), 19);
}

#[test]
fn test_admin_commands_get_server_info() {
    let command = AdminCommands::GetServerInfo;
    assert_eq!(command, AdminCommands::GetServerInfo);
    assert_eq!(command.code(), 120);
}

#[test]
fn test_admin_commands_get_state_info() {
    let command = AdminCommands::GetStateInfo;
    assert_eq!(command, AdminCommands::GetStateInfo);
    assert_eq!(command.code(), 127);
}

#[test]
fn test_admin_commands_create_bridge() {
    let command = AdminCommands::CreateBridge;
    assert_eq!(command, AdminCommands::CreateBridge);
    assert_eq!(command.code(), 220);
}

#[test]
fn test_admin_commands_delete_bridge() {
    let command = AdminCommands::DeleteBridge;
    assert_eq!(command, AdminCommands::DeleteBridge);
    assert_eq!(command.code(), 221);
}

#[test]
fn test_server_state_standby() {
    let state = ServerState::Standby;
    assert_eq!(state, ServerState::Standby);
    assert_eq!(state.code(), 3);
}

#[test]
fn test_server_state_active() {
    let state = ServerState::Active;
    assert_eq!(state, ServerState::Active);
    assert_eq!(state.code(), 4);
}

const USER: &str = "admin";
const PASSWORD: &str = "";
const URL: &str = "tcp://localhost:7222";

#[test]
fn test_admin_connection_success() {
    let mut server = tibco_ems::MockServer::new();
    let con = tibco_ems::admin::connect(&mut server, URL, USER, PASSWORD);
    assert!(con.is_ok());
}

#[test]
fn test_admin_create_delete_queue_success() {
    let mut server = tibco_ems::MockServer::new();
    let con = tibco_ems::admin::connect(&mut server, URL, USER, PASSWORD).unwrap();
    let session = con.session(&mut server).unwrap();
    let queue = QueueInfo { name: "create_queue".into(), ..Default::default() };
    let create_res = tibco_ems::admin::create_queue(&session, &mut server, &queue);
    assert!(create_res.is_ok());
    let delete_res = tibco_ems::admin::delete_queue(&session, &mut server, "create_queue");
    assert!(delete_res.is_ok());
}

#[test]
fn test_admin_create_delete_topic_success() {
    let mut server = tibco_ems::MockServer::new();
    let con = tibco_ems::admin::connect(&mut server, URL, USER, PASSWORD).unwrap();
    let session = con.session(&mut server).unwrap();
    let topic = TopicInfo { name: "create_topic".into(), ..Default::default() };
    let create_res = tibco_ems::admin::create_topic(&session, &mut server, &topic);
    assert!(create_res.is_ok());
    let delete_res = tibco_ems::admin::delete_topic(&session, &mut server, "create_topic");
    assert!(delete_res.is_ok());
}

#[test]
fn test_admin_create_delete_bridge_success() {
    let mut server = tibco_ems::MockServer::new();
    let con = tibco_ems::admin::connect(&mut server, URL, USER, PASSWORD).unwrap();
    let session = con.session(&mut server).unwrap();
    let queue = QueueInfo { name: "create_bridge".into(), ..Default::default() };
    let _ = tibco_ems::admin::create_queue(&session, &mut server, &queue).unwrap();
    let topic = TopicInfo { name: "create_bridge".into(), ..Default::default() };
    let _ = tibco_ems::admin::create_topic(&session, &mut server, &topic).unwrap();
    let queue = tibco_ems::Destination::Queue("create_bridge".into());
    let topic = tibco_ems::Destination::Topic("create_bridge".into());
    let bridge = BridgeInfo { source: topic, target: queue, selector: None };
    let create_res = tibco_ems::admin::create_bridge(&session, &mut server, &bridge);
    assert!(create_res.is_ok());
    let delete_res = tibco_ems::admin::delete_bridge(&session, &mut server, &bridge);
    assert!(delete_res.is_ok());
    let _ = tibco_ems::admin::delete_queue(&session, &mut server, "create_bridge");
    let _ = tibco_ems::admin::delete_topic(&session, &mut server, "create_bridge");
}

#[test]
fn test_admin_get_server_state_success() {
    let mut server = tibco_ems::MockServer::new();
    let con = tibco_ems::admin::connect(&mut server, URL, USER, PASSWORD).unwrap();
    let session = con.session(&mut server).unwrap();
    let server_state_res = tibco_ems::admin::get_server_state(&session, &mut server);
    assert!(server_state_res.is_ok());
}
