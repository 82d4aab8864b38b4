//! Administration of the server: queues, topics, bridges and the state of the server.
//!
//! An administrative command is an ordinary map message that is sent to the
//! administrative queue of the server. Its header names the command by a number; its
//! body holds what the command is about. The server answers a listing with a map
//! message that holds one nested body for each destination, with the figures of the
//! destination as texts.
//!
//! This module builds the commands and reads the answers. The functions that take a
//! session and a server run a command against the in-memory broker.

use vstd::prelude::*;
use vstd::string::StringExecFns;
use crate::destination::Destination;
use crate::destination::DestinationView;
use crate::error::Error;
use crate::handles::Connection;
use crate::handles::Session;
use crate::message::BodyView;
use crate::message::MapMessage;
use crate::message::Message;
use crate::message::MessageView;
use crate::mock::MockServer;
use crate::mock::connect as connect_plain;
use crate::number::integer_of_text;
use crate::number::long_of_text;
use crate::number::parse_integer;
use crate::number::parse_long;
use crate::value::TypedValue;
use crate::value::ValueMap;
use crate::value::ValueView;

verus! {

/// What a server does with a message that a full destination cannot take.
#[derive(Debug, Clone, Copy, PartialEq, Eq, Structural)]
pub enum OverflowPolicy {
    /// The policy of the server.
    Default,
    /// The oldest message is discarded.
    DiscardOld,
    /// The incoming message is rejected.
    RejectIncoming,
}

/// The commands of the administrative queue.
#[derive(Debug, Clone, Copy, PartialEq, Eq, Structural)]
pub enum AdminCommands {
    /// Delete a destination.
    DeleteDestination,
    /// Create a destination.
    CreateDestination,
    /// List destinations.
    ListDestination,
    /// Get information on the server.
    GetServerInfo,
    /// Get the state of the server.
    GetStateInfo,
    /// Create a bridge.
    CreateBridge,
    /// Delete a bridge.
    DeleteBridge,
}

/// The states of a server.
#[derive(Debug, Clone, Copy, PartialEq, Eq, Structural)]
pub enum ServerState {
    /// The server stands by.
    Standby,
    /// The server is active.
    Active,
}

impl OverflowPolicy {
    /// The number that stands for the policy.
    pub open spec fn code_of(self) -> i32 {
        match self {
            OverflowPolicy::Default => 0,
            OverflowPolicy::DiscardOld => 1,
            OverflowPolicy::RejectIncoming => 2,
        }
    }

    /// The number that stands for the policy.
    pub fn code(&self) -> (r: i32)
        ensures
            r == self.code_of(),
    {
        match self {
            OverflowPolicy::Default => 0,
            OverflowPolicy::DiscardOld => 1,
            OverflowPolicy::RejectIncoming => 2,
        }
    }

    /// The policy that a text of the server stands for: `1` for discarding the oldest
    /// message, `2` for rejecting the incoming one, anything else for the policy of
    /// the server.
    pub open spec fn of_text(text: Seq<char>) -> OverflowPolicy {
        if text == "1"@ {
            OverflowPolicy::DiscardOld
        } else if text == "2"@ {
            OverflowPolicy::RejectIncoming
        } else {
            OverflowPolicy::Default
        }
    }

    /// The policy that a text of the server stands for.
    pub fn from_text(text: &String) -> (r: OverflowPolicy)
        ensures
            r == OverflowPolicy::of_text(text@),
    {
        if *text == "1".to_owned() {
            OverflowPolicy::DiscardOld
        } else if *text == "2".to_owned() {
            OverflowPolicy::RejectIncoming
        } else {
            OverflowPolicy::Default
        }
    }
}

impl AdminCommands {
    /// The number that names the command in the header of a command message.
    pub open spec fn code_of(self) -> i32 {
        match self {
            AdminCommands::DeleteDestination => 16,
            AdminCommands::CreateDestination => 18,
            AdminCommands::ListDestination => 19,
            AdminCommands::GetServerInfo => 120,
            AdminCommands::GetStateInfo => 127,
            AdminCommands::CreateBridge => 220,
            AdminCommands::DeleteBridge => 221,
        }
    }

    /// The number that names the command in the header of a command message.
    pub fn code(&self) -> (r: i32)
        ensures
            r == self.code_of(),
    {
        match self {
            AdminCommands::DeleteDestination => 16,
            AdminCommands::CreateDestination => 18,
            AdminCommands::ListDestination => 19,
            AdminCommands::GetServerInfo => 120,
            AdminCommands::GetStateInfo => 127,
            AdminCommands::CreateBridge => 220,
            AdminCommands::DeleteBridge => 221,
        }
    }
}

impl ServerState {
    /// The number that stands for the state.
    pub open spec fn code_of(self) -> i32 {
        match self {
            ServerState::Standby => 3,
            ServerState::Active => 4,
        }
    }

    /// The number that stands for the state.
    pub fn code(&self) -> (r: i32)
        ensures
            r == self.code_of(),
    {
        match self {
            ServerState::Standby => 3,
            ServerState::Active => 4,
        }
    }
}

/// What is known of a queue.
#[derive(Debug, Clone, PartialEq)]
pub struct QueueInfo {
    /// The name of the queue.
    pub name: String,
    /// The number of pending messages.
    pub pending_messages: Option<i64>,
    /// The greatest number of messages that the queue takes.
    pub max_messages: Option<i64>,
    /// The greatest number of bytes that the queue takes.
    pub max_bytes: Option<i64>,
    /// What happens to a message that the full queue cannot take.
    pub overflow_policy: Option<OverflowPolicy>,
    /// Whether the queue is failsafe.
    pub failsafe: Option<bool>,
    /// Whether the queue is secure.
    pub secure: Option<bool>,
    /// Whether the queue is global.
    pub global: Option<bool>,
    /// Whether messages carry the name of their sender.
    pub sender_name: Option<bool>,
    /// Whether the name of the sender is enforced.
    pub sender_name_enforced: Option<bool>,
    /// The number of messages that are fetched ahead.
    pub prefetch: Option<i32>,
    /// The expiration that overrides that of the messages.
    pub expiry_override: Option<i64>,
    /// The delay before a message is delivered again.
    pub redelivery_delay: Option<i64>,
    /// The number of consumers.
    pub consumer_count: Option<i32>,
    /// The number of messages that ever came in.
    pub incoming_total_count: Option<i64>,
    /// The number of messages that ever went out.
    pub outgoing_total_count: Option<i64>,
}

/// What is known of a topic.
#[derive(Debug, Clone, PartialEq)]
pub struct TopicInfo {
    /// The name of the topic.
    pub name: String,
    /// The expiration that overrides that of the messages.
    pub expiry_override: Option<i64>,
    /// Whether the topic is global.
    pub global: Option<bool>,
    /// The greatest number of bytes that the topic takes.
    pub max_bytes: Option<i64>,
    /// The greatest number of messages that the topic takes.
    pub max_messages: Option<i64>,
    /// What happens to a message that the full topic cannot take.
    pub overflow_policy: Option<OverflowPolicy>,
    /// The number of messages that are fetched ahead.
    pub prefetch: Option<i32>,
    /// The number of durable subscriptions.
    pub durable_count: Option<i32>,
    /// The number of subscribers.
    pub subscriber_count: Option<i32>,
    /// The number of pending messages.
    pub pending_messages: Option<i64>,
    /// The number of messages that ever came in.
    pub incoming_total_count: Option<i64>,
    /// The number of messages that ever went out.
    pub outgoing_total_count: Option<i64>,
}

/// A bridge from one destination to another.
#[derive(Debug, Clone, PartialEq)]
pub struct BridgeInfo {
    /// Where the bridge takes messages from.
    pub source: Destination,
    /// Where the bridge puts the messages.
    pub target: Destination,
    /// The selector that a message must meet to cross the bridge.
    pub selector: Option<String>,
}

impl Default for QueueInfo {
    /// A queue with an empty name of which nothing is known.
    fn default() -> (r: Self)
        ensures
            r.name@ == Seq::<char>::empty(),
            r.pending_messages is None,
            r.max_messages is None,
            r.max_bytes is None,
            r.overflow_policy is None,
            r.failsafe is None,
            r.secure is None,
            r.global is None,
            r.sender_name is None,
            r.sender_name_enforced is None,
            r.prefetch is None,
            r.expiry_override is None,
            r.redelivery_delay is None,
            r.consumer_count is None,
            r.incoming_total_count is None,
            r.outgoing_total_count is None,
    {
        QueueInfo {
            name: String::new(),
            pending_messages: None,
            max_messages: None,
            max_bytes: None,
            overflow_policy: None,
            failsafe: None,
            secure: None,
            global: None,
            sender_name: None,
            sender_name_enforced: None,
            prefetch: None,
            expiry_override: None,
            redelivery_delay: None,
            consumer_count: None,
            incoming_total_count: None,
            outgoing_total_count: None,
        }
    }
}

impl Default for TopicInfo {
    /// A topic with an empty name of which nothing is known.
    fn default() -> (r: Self)
        ensures
            r.name@ == Seq::<char>::empty(),
            r.expiry_override is None,
            r.global is None,
            r.max_bytes is None,
            r.max_messages is None,
            r.overflow_policy is None,
            r.prefetch is None,
            r.durable_count is None,
            r.subscriber_count is None,
            r.pending_messages is None,
            r.incoming_total_count is None,
            r.outgoing_total_count is None,
    {
        TopicInfo {
            name: String::new(),
            expiry_override: None,
            global: None,
            max_bytes: None,
            max_messages: None,
            overflow_policy: None,
            prefetch: None,
            durable_count: None,
            subscriber_count: None,
            pending_messages: None,
            incoming_total_count: None,
            outgoing_total_count: None,
        }
    }
}

/// The name of the administrative queue.
pub open spec fn admin_queue_name() -> Seq<char> {
    "$sys.admin"@
}

/// The administrative queue, to which every command is sent.
pub fn admin_queue() -> (r: Destination)
    ensures
        r@ == DestinationView::Queue(admin_queue_name()),
{
    Destination::Queue("$sys.admin".to_owned())
}

/// The number that stands for the kind of a destination in a command: 1 for a queue,
/// 2 for a topic.
pub open spec fn destination_code(d: DestinationView) -> i32 {
    match d {
        DestinationView::Queue(_) => 1,
        DestinationView::Topic(_) => 2,
    }
}

/// The name of a destination.
pub open spec fn destination_name(d: DestinationView) -> Seq<char> {
    match d {
        DestinationView::Queue(name) => name,
        DestinationView::Topic(name) => name,
    }
}

/// The header of a command: the number of the command, that the command is to be
/// saved, and the sequence number 1; before these, for a command that changes the
/// server, that the message is an extended one.
pub open spec fn command_header(command: AdminCommands, changing: bool) -> Map<
    Seq<char>,
    ValueView,
> {
    let h = if changing {
        Map::<Seq<char>, ValueView>::empty().insert(
            "JMS_TIBCO_MSG_EXT"@,
            ValueView::Boolean(true),
        )
    } else {
        Map::<Seq<char>, ValueView>::empty()
    };
    h.insert("code"@, ValueView::Integer(command.code_of())).insert(
        "save"@,
        ValueView::Boolean(true),
    ).insert("arseq"@, ValueView::Integer(1))
}

/// The message of a command with the given body.
pub open spec fn command(
    body: Map<Seq<char>, ValueView>,
    command: AdminCommands,
    changing: bool,
) -> MessageView {
    MessageView {
        body: BodyView::Fields(body),
        header: Some(command_header(command, changing)),
        destination: None,
        reply_to: None,
        pointer: None,
    }
}

/// A mapping with a long under a name, if there is one to put there.
pub open spec fn with_long(m: Map<Seq<char>, ValueView>, name: Seq<char>, v: Option<i64>) -> Map<
    Seq<char>,
    ValueView,
> {
    match v {
        Some(v) => m.insert(name, ValueView::Long(v)),
        None => m,
    }
}

/// A mapping with an integer under a name, if there is one to put there.
pub open spec fn with_integer(
    m: Map<Seq<char>, ValueView>,
    name: Seq<char>,
    v: Option<i32>,
) -> Map<Seq<char>, ValueView> {
    match v {
        Some(v) => m.insert(name, ValueView::Integer(v)),
        None => m,
    }
}

/// A mapping with a boolean under a name, if there is one to put there.
pub open spec fn with_boolean(
    m: Map<Seq<char>, ValueView>,
    name: Seq<char>,
    v: Option<bool>,
) -> Map<Seq<char>, ValueView> {
    match v {
        Some(v) => m.insert(name, ValueView::Boolean(v)),
        None => m,
    }
}

/// A mapping with a text under a name, if there is one to put there.
pub open spec fn with_text(
    m: Map<Seq<char>, ValueView>,
    name: Seq<char>,
    v: Option<Seq<char>>,
) -> Map<Seq<char>, ValueView> {
    match v {
        Some(v) => m.insert(name, ValueView::String(v)),
        None => m,
    }
}

/// The body of the command that creates a destination: its name and the number of its
/// kind, and of the greatest number of bytes, the greatest number of messages, the
/// global flag and the prefetch those that are given.
pub open spec fn creation_body(
    destination: DestinationView,
    max_bytes: Option<i64>,
    max_messages: Option<i64>,
    global: Option<bool>,
    prefetch: Option<i32>,
) -> Map<Seq<char>, ValueView> {
    let m = naming_body(destination);
    let m = with_long(m, "mb"@, max_bytes);
    let m = with_long(m, "mm"@, max_messages);
    let m = with_boolean(m, "global"@, global);
    with_integer(m, "pf"@, prefetch)
}

/// The body of a command that names a destination: its name and the number of its
/// kind.
pub open spec fn naming_body(destination: DestinationView) -> Map<Seq<char>, ValueView> {
    Map::<Seq<char>, ValueView>::empty().insert(
        "dn"@,
        ValueView::String(destination_name(destination)),
    ).insert("dt"@, ValueView::Integer(destination_code(destination)))
}

/// The body of the command that lists the destinations of a kind: the number of the
/// kind, the permanence 6, the pattern that matches every name, that inactive ones
/// are wanted too, and that up to 1000 are wanted.
pub open spec fn listing_body(kind: i32) -> Map<Seq<char>, ValueView> {
    Map::<Seq<char>, ValueView>::empty().insert("dt"@, ValueView::Integer(kind)).insert(
        "permType"@,
        ValueView::Integer(6),
    ).insert("pattern"@, ValueView::String(">"@)).insert("ia"@, ValueView::Boolean(true)).insert(
        "first"@,
        ValueView::Integer(1000),
    )
}

/// The body of a command on a bridge: kind and name of the source, kind and name of
/// the target, and the selector if one is given.
pub open spec fn bridge_body(
    source: DestinationView,
    target: DestinationView,
    selector: Option<Seq<char>>,
) -> Map<Seq<char>, ValueView> {
    let m = Map::<Seq<char>, ValueView>::empty().insert(
        "st"@,
        ValueView::Integer(destination_code(source)),
    ).insert("sn"@, ValueView::String(destination_name(source))).insert(
        "tt"@,
        ValueView::Integer(destination_code(target)),
    ).insert("tn"@, ValueView::String(destination_name(target)));
    with_text(m, "sel"@, selector)
}

/// The header of a command.
fn build_header(command: AdminCommands, changing: bool) -> (r: ValueMap)
    ensures
        r@ == command_header(command, changing),
{
    let mut header = ValueMap::new();
    if changing {
        header.insert("JMS_TIBCO_MSG_EXT".to_owned(), TypedValue::Boolean(true));
    }
    header.insert("code".to_owned(), TypedValue::Integer(command.code()));
    header.insert("save".to_owned(), TypedValue::Boolean(true));
    header.insert("arseq".to_owned(), TypedValue::Integer(1));
    header
}

/// The message of a command with the given body.
fn build_command(body: ValueMap, code: AdminCommands, changing: bool) -> (r: MapMessage)
    ensures
        r@ == command(body@, code, changing),
{
    MapMessage {
        body,
        header: Some(build_header(code, changing)),
        destination: None,
        reply_to: None,
        pointer: None,
    }
}

/// The body of a command that names a destination.
fn build_naming(name: &str, queue: bool) -> (r: ValueMap)
    ensures
        r@ == naming_body(
            if queue {
                DestinationView::Queue(name@)
            } else {
                DestinationView::Topic(name@)
            },
        ),
{
    let mut body = ValueMap::new();
    body.insert("dn".to_owned(), TypedValue::String(name.to_owned()));
    body.insert("dt".to_owned(), TypedValue::Integer(if queue { 1 } else { 2 }));
    body
}

/// The body of the command that creates a destination.
fn build_creation(
    name: &str,
    queue: bool,
    max_bytes: Option<i64>,
    max_messages: Option<i64>,
    global: Option<bool>,
    prefetch: Option<i32>,
) -> (r: ValueMap)
    ensures
        r@ == creation_body(
            if queue {
                DestinationView::Queue(name@)
            } else {
                DestinationView::Topic(name@)
            },
            max_bytes,
            max_messages,
            global,
            prefetch,
        ),
{
    let mut body = build_naming(name, queue);
    if let Some(v) = max_bytes {
        body.insert("mb".to_owned(), TypedValue::Long(v));
    }
    if let Some(v) = max_messages {
        body.insert("mm".to_owned(), TypedValue::Long(v));
    }
    if let Some(v) = global {
        body.insert("global".to_owned(), TypedValue::Boolean(v));
    }
    if let Some(v) = prefetch {
        body.insert("pf".to_owned(), TypedValue::Integer(v));
    }
    body
}

/// The body of the command that lists the destinations of a kind.
fn build_listing(kind: i32) -> (r: ValueMap)
    ensures
        r@ == listing_body(kind),
{
    let mut body = ValueMap::new();
    body.insert("dt".to_owned(), TypedValue::Integer(kind));
    body.insert("permType".to_owned(), TypedValue::Integer(6));
    body.insert("pattern".to_owned(), TypedValue::String(">".to_owned()));
    body.insert("ia".to_owned(), TypedValue::Boolean(true));
    body.insert("first".to_owned(), TypedValue::Integer(1000));
    body
}

/// The body of a command on a bridge.
fn build_bridge(bridge: &BridgeInfo, with_selector: bool) -> (r: ValueMap)
    ensures
        r@ == bridge_body(
            bridge.source@,
            bridge.target@,
            if with_selector {
                crate::marshal::text_view(bridge.selector)
            } else {
                None
            },
        ),
{
    let mut body = ValueMap::new();
    let source_code = if bridge.source.is_topic() { 2 } else { 1 };
    let target_code = if bridge.target.is_topic() { 2 } else { 1 };
    body.insert("st".to_owned(), TypedValue::Integer(source_code));
    body.insert("sn".to_owned(), TypedValue::String(bridge.source.name().clone()));
    body.insert("tt".to_owned(), TypedValue::Integer(target_code));
    body.insert("tn".to_owned(), TypedValue::String(bridge.target.name().clone()));
    if with_selector {
        if let Some(selector) = &bridge.selector {
            body.insert("sel".to_owned(), TypedValue::String(selector.clone()));
        }
    }
    body
}

/// The command that lists all queues.
pub fn list_queues_command() -> (r: MapMessage)
    ensures
        r@ == command(listing_body(1), AdminCommands::ListDestination, false),
{
    build_command(build_listing(1), AdminCommands::ListDestination, false)
}

/// The command that lists all topics.
pub fn list_topics_command() -> (r: MapMessage)
    ensures
        r@ == command(listing_body(2), AdminCommands::ListDestination, false),
{
    build_command(build_listing(2), AdminCommands::ListDestination, false)
}

/// The command that creates a queue.
pub fn create_queue_command(queue: &QueueInfo) -> (r: MapMessage)
    ensures
        r@ == command(
            creation_body(
                DestinationView::Queue(queue.name@),
                queue.max_bytes,
                queue.max_messages,
                queue.global,
                queue.prefetch,
            ),
            AdminCommands::CreateDestination,
            true,
        ),
{
    let body = build_creation(
        queue.name.as_str(),
        true,
        queue.max_bytes,
        queue.max_messages,
        queue.global,
        queue.prefetch,
    );
    build_command(body, AdminCommands::CreateDestination, true)
}

/// The command that creates a topic.
pub fn create_topic_command(topic: &TopicInfo) -> (r: MapMessage)
    ensures
        r@ == command(
            creation_body(
                DestinationView::Topic(topic.name@),
                topic.max_bytes,
                topic.max_messages,
                topic.global,
                topic.prefetch,
            ),
            AdminCommands::CreateDestination,
            true,
        ),
{
    let body = build_creation(
        topic.name.as_str(),
        false,
        topic.max_bytes,
        topic.max_messages,
        topic.global,
        topic.prefetch,
    );
    build_command(body, AdminCommands::CreateDestination, true)
}

/// The command that deletes the queue of the given name.
pub fn delete_queue_command(queue: &str) -> (r: MapMessage)
    ensures
        r@ == command(
            naming_body(DestinationView::Queue(queue@)),
            AdminCommands::DeleteDestination,
            true,
        ),
{
    build_command(build_naming(queue, true), AdminCommands::DeleteDestination, true)
}

/// The command that deletes the topic of the given name.
pub fn delete_topic_command(topic: &str) -> (r: MapMessage)
    ensures
        r@ == command(
            naming_body(DestinationView::Topic(topic@)),
            AdminCommands::DeleteDestination,
            true,
        ),
{
    build_command(build_naming(topic, false), AdminCommands::DeleteDestination, true)
}

/// The command that creates a bridge.
pub fn create_bridge_command(bridge: &BridgeInfo) -> (r: MapMessage)
    ensures
        r@ == command(
            bridge_body(bridge.source@, bridge.target@, crate::marshal::text_view(bridge.selector)),
            AdminCommands::CreateBridge,
            true,
        ),
{
    build_command(build_bridge(bridge, true), AdminCommands::CreateBridge, true)
}

/// The command that deletes a bridge. The selector of the bridge is not part of it.
pub fn delete_bridge_command(bridge: &BridgeInfo) -> (r: MapMessage)
    ensures
        r@ == command(
            bridge_body(bridge.source@, bridge.target@, None),
            AdminCommands::DeleteBridge,
            true,
        ),
{
    build_command(build_bridge(bridge, false), AdminCommands::DeleteBridge, true)
}

/// The command that asks for the state of the server.
pub fn server_state_command() -> (r: MapMessage)
    ensures
        r@ == command(
            Map::<Seq<char>, ValueView>::empty(),
            AdminCommands::GetStateInfo,
            false,
        ),
{
    build_command(ValueMap::new(), AdminCommands::GetStateInfo, false)
}

/// The url under which the server that is active at `active_url` takes
/// administrative connections.
pub fn admin_url(active_url: &str) -> (r: String)
    ensures
        r@ == "<$admin>:"@ + active_url@,
{
    "<$admin>:".to_owned().concat(active_url)
}

/// The text that the figures of a destination hold under a name; none where they do
/// not hold the name or hold something else than a text there.
pub open spec fn text_of(figures: Map<Seq<char>, ValueView>, name: Seq<char>) -> Option<
    Seq<char>,
> {
    if figures.contains_key(name) {
        match figures[name] {
            ValueView::String(t) => Some(t),
            _ => None,
        }
    } else {
        None
    }
}

/// The 64-bit number that the figures hold, as a text, under a name.
pub open spec fn long_of(figures: Map<Seq<char>, ValueView>, name: Seq<char>) -> Option<i64> {
    match text_of(figures, name) {
        Some(t) => long_of_text(t),
        None => None,
    }
}

/// The 32-bit number that the figures hold, as a text, under a name.
pub open spec fn integer_of(figures: Map<Seq<char>, ValueView>, name: Seq<char>) -> Option<i32> {
    match text_of(figures, name) {
        Some(t) => integer_of_text(t),
        None => None,
    }
}

/// The flag that the figures hold under a name: set if the text there is `1`, and not
/// set if the figures do not hold the name; none where they hold something else than
/// a text there.
pub open spec fn flag_of(figures: Map<Seq<char>, ValueView>, name: Seq<char>) -> Option<bool> {
    if figures.contains_key(name) {
        match figures[name] {
            ValueView::String(t) => Some(t == "1"@),
            _ => None,
        }
    } else {
        Some(false)
    }
}

/// The overflow policy that the figures hold, as a text, under the name `op`.
pub open spec fn policy_of(figures: Map<Seq<char>, ValueView>) -> Option<OverflowPolicy> {
    match text_of(figures, "op"@) {
        Some(t) => Some(OverflowPolicy::of_text(t)),
        None => None,
    }
}

/// The figures that a value holds, if it is a nested body.
pub open spec fn figures_of(value: ValueView) -> Option<Map<Seq<char>, ValueView>> {
    match value {
        ValueView::Nested(figures) => Some(figures),
        _ => None,
    }
}

/// Whether the figures hold all that is read of a queue.
pub open spec fn queue_readable(figures: Map<Seq<char>, ValueView>) -> bool {
    &&& long_of(figures, "nm"@) is Some
    &&& long_of(figures, "mb"@) is Some
    &&& long_of(figures, "mm"@) is Some
    &&& policy_of(figures) is Some
    &&& flag_of(figures, "failsafe"@) is Some
    &&& flag_of(figures, "secure"@) is Some
    &&& flag_of(figures, "global"@) is Some
    &&& flag_of(figures, "sname"@) is Some
    &&& flag_of(figures, "snameenf"@) is Some
    &&& integer_of(figures, "pf"@) is Some
    &&& integer_of(figures, "cc"@) is Some
    &&& long_of(figures, "expy"@) is Some
    &&& long_of(figures, "rdd"@) is Some
    &&& long_of(figures, "inct"@) is Some
    &&& long_of(figures, "outct"@) is Some
}

/// Whether `queue` is what the figures say of the queue of the given name.
pub open spec fn describes_queue(
    queue: QueueInfo,
    name: Seq<char>,
    figures: Map<Seq<char>, ValueView>,
) -> bool {
    &&& queue.name@ == name
    &&& queue.pending_messages == long_of(figures, "nm"@)
    &&& queue.max_bytes == long_of(figures, "mb"@)
    &&& queue.max_messages == long_of(figures, "mm"@)
    &&& queue.overflow_policy == policy_of(figures)
    &&& queue.failsafe == flag_of(figures, "failsafe"@)
    &&& queue.secure == flag_of(figures, "secure"@)
    &&& queue.global == flag_of(figures, "global"@)
    &&& queue.sender_name == flag_of(figures, "sname"@)
    &&& queue.sender_name_enforced == flag_of(figures, "snameenf"@)
    &&& queue.prefetch == integer_of(figures, "pf"@)
    &&& queue.consumer_count == integer_of(figures, "cc"@)
    &&& queue.expiry_override == long_of(figures, "expy"@)
    &&& queue.redelivery_delay == long_of(figures, "rdd"@)
    &&& queue.incoming_total_count == long_of(figures, "inct"@)
    &&& queue.outgoing_total_count == long_of(figures, "outct"@)
}

/// Whether the figures hold all that is read of a topic.
pub open spec fn topic_readable(figures: Map<Seq<char>, ValueView>) -> bool {
    &&& flag_of(figures, "global"@) is Some
    &&& integer_of(figures, "pf"@) is Some
    &&& long_of(figures, "expy"@) is Some
    &&& long_of(figures, "mb"@) is Some
    &&& long_of(figures, "mm"@) is Some
    &&& integer_of(figures, "cd"@) is Some
    &&& integer_of(figures, "sc"@) is Some
    &&& long_of(figures, "nm"@) is Some
    &&& long_of(figures, "inct"@) is Some
    &&& long_of(figures, "outct"@) is Some
    &&& policy_of(figures) is Some
}

/// Whether `topic` is what the figures say of the topic of the given name.
pub open spec fn describes_topic(
    topic: TopicInfo,
    name: Seq<char>,
    figures: Map<Seq<char>, ValueView>,
) -> bool {
    &&& topic.name@ == name
    &&& topic.global == flag_of(figures, "global"@)
    &&& topic.prefetch == integer_of(figures, "pf"@)
    &&& topic.expiry_override == long_of(figures, "expy"@)
    &&& topic.max_bytes == long_of(figures, "mb"@)
    &&& topic.max_messages == long_of(figures, "mm"@)
    &&& topic.durable_count == integer_of(figures, "cd"@)
    &&& topic.subscriber_count == integer_of(figures, "sc"@)
    &&& topic.pending_messages == long_of(figures, "nm"@)
    &&& topic.incoming_total_count == long_of(figures, "inct"@)
    &&& topic.outgoing_total_count == long_of(figures, "outct"@)
    &&& topic.overflow_policy == policy_of(figures)
}

/// The text under a name.
fn read_text<'a>(figures: &'a ValueMap, name: &str) -> (r: Option<&'a String>)
    ensures
        text_view_of(r) == text_of(figures@, name@),
{
    match figures.get(name) {
        Some(TypedValue::String(t)) => Some(t),
        _ => None,
    }
}

/// The model of a borrowed text that may be absent.
pub open spec fn text_view_of(t: Option<&String>) -> Option<Seq<char>> {
    match t {
        Some(t) => Some(t@),
        None => None,
    }
}

/// The 64-bit number under a name.
fn read_long(figures: &ValueMap, name: &str) -> (r: Option<i64>)
    ensures
        r == long_of(figures@, name@),
{
    match read_text(figures, name) {
        Some(t) => parse_long(t.as_str()),
        None => None,
    }
}

/// The 32-bit number under a name.
fn read_integer(figures: &ValueMap, name: &str) -> (r: Option<i32>)
    ensures
        r == integer_of(figures@, name@),
{
    match read_text(figures, name) {
        Some(t) => parse_integer(t.as_str()),
        None => None,
    }
}

/// The flag under a name.
fn read_flag(figures: &ValueMap, name: &str) -> (r: Option<bool>)
    ensures
        r == flag_of(figures@, name@),
{
    match figures.get(name) {
        Some(TypedValue::String(t)) => Some(*t == "1".to_owned()),
        Some(_) => None,
        None => Some(false),
    }
}

/// The overflow policy under the name `op`.
fn read_policy(figures: &ValueMap) -> (r: Option<OverflowPolicy>)
    ensures
        r == policy_of(figures@),
{
    match read_text(figures, "op") {
        Some(t) => Some(OverflowPolicy::from_text(t)),
        None => None,
    }
}

/// What the figures say of the queue of the given name.
///
/// Fails with a conversion failure exactly where a figure is missing, is no text, or
/// is no number where a number is read.
pub fn read_queue(name: &str, figures: &ValueMap) -> (r: Result<QueueInfo, Error>)
    ensures
        match r {
            Ok(queue) => queue_readable(figures@) && describes_queue(queue, name@, figures@),
            Err(e) => !queue_readable(figures@) && e == Error::ConversionFailure,
        },
{
    let pending_messages = read_long(figures, "nm");
    let max_bytes = read_long(figures, "mb");
    let max_messages = read_long(figures, "mm");
    let overflow_policy = read_policy(figures);
    let failsafe = read_flag(figures, "failsafe");
    let secure = read_flag(figures, "secure");
    let global = read_flag(figures, "global");
    let sender_name = read_flag(figures, "sname");
    let sender_name_enforced = read_flag(figures, "snameenf");
    let prefetch = read_integer(figures, "pf");
    let consumer_count = read_integer(figures, "cc");
    let expiry_override = read_long(figures, "expy");
    let redelivery_delay = read_long(figures, "rdd");
    let incoming_total_count = read_long(figures, "inct");
    let outgoing_total_count = read_long(figures, "outct");
    let complete = pending_messages.is_some() && max_bytes.is_some() && max_messages.is_some()
        && overflow_policy.is_some() && failsafe.is_some() && secure.is_some() && global.is_some()
        && sender_name.is_some() && sender_name_enforced.is_some() && prefetch.is_some()
        && consumer_count.is_some() && expiry_override.is_some() && redelivery_delay.is_some()
        && incoming_total_count.is_some() && outgoing_total_count.is_some();
    if complete {
        Ok(
            QueueInfo {
                name: name.to_owned(),
                pending_messages,
                max_messages,
                max_bytes,
                overflow_policy,
                failsafe,
                secure,
                global,
                sender_name,
                sender_name_enforced,
                prefetch,
                expiry_override,
                redelivery_delay,
                consumer_count,
                incoming_total_count,
                outgoing_total_count,
            },
        )
    } else {
        Err(Error::ConversionFailure)
    }
}

/// What the figures say of the topic of the given name.
///
/// Fails with a conversion failure exactly where a figure is missing, is no text, or
/// is no number where a number is read.
pub fn read_topic(name: &str, figures: &ValueMap) -> (r: Result<TopicInfo, Error>)
    ensures
        match r {
            Ok(topic) => topic_readable(figures@) && describes_topic(topic, name@, figures@),
            Err(e) => !topic_readable(figures@) && e == Error::ConversionFailure,
        },
{
    let global = read_flag(figures, "global");
    let prefetch = read_integer(figures, "pf");
    let expiry_override = read_long(figures, "expy");
    let max_bytes = read_long(figures, "mb");
    let max_messages = read_long(figures, "mm");
    let durable_count = read_integer(figures, "cd");
    let subscriber_count = read_integer(figures, "sc");
    let pending_messages = read_long(figures, "nm");
    let incoming_total_count = read_long(figures, "inct");
    let outgoing_total_count = read_long(figures, "outct");
    let overflow_policy = read_policy(figures);
    let complete = global.is_some() && prefetch.is_some() && expiry_override.is_some()
        && max_bytes.is_some() && max_messages.is_some() && durable_count.is_some()
        && subscriber_count.is_some() && pending_messages.is_some()
        && incoming_total_count.is_some() && outgoing_total_count.is_some()
        && overflow_policy.is_some();
    if complete {
        Ok(
            TopicInfo {
                name: name.to_owned(),
                expiry_override,
                global,
                max_bytes,
                max_messages,
                overflow_policy,
                prefetch,
                durable_count,
                subscriber_count,
                pending_messages,
                incoming_total_count,
                outgoing_total_count,
            },
        )
    } else {
        Err(Error::ConversionFailure)
    }
}

/// Whether an entry of the answer to a listing of queues is readable: its value is a
/// nested body that holds all that is read of a queue.
pub open spec fn queue_entry_readable(entry: (String, TypedValue)) -> bool {
    figures_of(entry.1@) matches Some(figures) && queue_readable(figures)
}

/// Whether an entry of the answer to a listing of topics is readable: its value is a
/// nested body that holds all that is read of a topic.
pub open spec fn topic_entry_readable(entry: (String, TypedValue)) -> bool {
    figures_of(entry.1@) matches Some(figures) && topic_readable(figures)
}

/// Whether `queue` is what an entry of the answer to a listing says of the queue that
/// the entry is named after: the value of the entry is a nested body that holds all
/// that is read of a queue, and `queue` is what it says.
pub open spec fn queue_of_entry(queue: QueueInfo, entry: (String, TypedValue)) -> bool {
    &&& queue_entry_readable(entry)
    &&& describes_queue(queue, entry.0@, figures_of(entry.1@)->Some_0)
}

/// What an entry of the answer to a listing of queues says of the queue that it is
/// named after.
fn read_queue_entry(entry: &(String, TypedValue)) -> (r: Result<QueueInfo, Error>)
    ensures
        match r {
            Ok(queue) => queue_of_entry(queue, *entry),
            Err(e) => !queue_entry_readable(*entry) && e == Error::ConversionFailure,
        },
{
    match &entry.1 {
        TypedValue::Nested(figures) => read_queue(entry.0.as_str(), &figures.body),
        _ => Err(Error::ConversionFailure),
    }
}

/// Whether `queues` are what the entries say, each of the queue that it is named
/// after.
pub open spec fn describes_queues(
    queues: Seq<QueueInfo>,
    entries: Seq<(String, TypedValue)>,
) -> bool {
    &&& queues.len() == entries.len()
    &&& forall|i: int| 0 <= i < queues.len() ==> #[trigger] queue_of_entry(queues[i], entries[i])
}

/// The queues that the body of the answer to a listing tells of: one for each entry, in
/// the order of the entries, named as the entry.
///
/// Fails with a conversion failure exactly where an entry is not readable.
pub fn queues_of(body: &ValueMap) -> (r: Result<Vec<QueueInfo>, Error>)
    ensures
        match r {
            Ok(queues) => describes_queues(queues@, body.entries@),
            Err(e) => e == Error::ConversionFailure && exists|i: int|
                0 <= i < body.entries@.len() && !queue_entry_readable(#[trigger] body.entries@[i]),
        },
{
    let mut queues: Vec<QueueInfo> = Vec::new();
    let mut i: usize = 0;
    while i < body.entries.len()
        invariant
            i <= body.entries.len(),
            queues@.len() == i,
            forall|j: int| 0 <= j < i ==> #[trigger] queue_of_entry(queues@[j], body.entries@[j]),
        decreases body.entries.len() - i,
    {
        match read_queue_entry(&body.entries[i]) {
            Ok(queue) => {
                queues.push(queue);
            },
            Err(e) => {
                assert(!queue_entry_readable(body.entries@[i as int]));
                return Err(e);
            },
        }
        i += 1;
    }
    Ok(queues)
}

/// The queues that the answer to a listing tells of. An answer that is no map message
/// tells of none.
///
/// Fails with a conversion failure exactly where the answer is a map message with an
/// entry that is not readable.
pub fn queues_from(answer: &Message) -> (r: Result<Vec<QueueInfo>, Error>)
    ensures
        match *answer {
            Message::MapMessage(m) => match r {
                Ok(queues) => describes_queues(queues@, m.body.entries@),
                Err(e) => e == Error::ConversionFailure && exists|i: int|
                    0 <= i < m.body.entries@.len() && !queue_entry_readable(
                        #[trigger] m.body.entries@[i],
                    ),
            },
            _ => r matches Ok(queues) && queues@.len() == 0,
        },
{
    match answer {
        Message::MapMessage(m) => queues_of(&m.body),
        _ => Ok(Vec::new()),
    }
}

/// Whether `topic` is what an entry of the answer to a listing says of the topic that
/// the entry is named after: the value of the entry is a nested body that holds all
/// that is read of a topic, and `topic` is what it says.
pub open spec fn topic_of_entry(topic: TopicInfo, entry: (String, TypedValue)) -> bool {
    &&& topic_entry_readable(entry)
    &&& describes_topic(topic, entry.0@, figures_of(entry.1@)->Some_0)
}

/// What an entry of the answer to a listing of topics says of the topic that it is
/// named after.
fn read_topic_entry(entry: &(String, TypedValue)) -> (r: Result<TopicInfo, Error>)
    ensures
        match r {
            Ok(topic) => topic_of_entry(topic, *entry),
            Err(e) => !topic_entry_readable(*entry) && e == Error::ConversionFailure,
        },
{
    match &entry.1 {
        TypedValue::Nested(figures) => read_topic(entry.0.as_str(), &figures.body),
        _ => Err(Error::ConversionFailure),
    }
}

/// Whether `topics` are what the entries say, each of the topic that it is named
/// after.
pub open spec fn describes_topics(
    topics: Seq<TopicInfo>,
    entries: Seq<(String, TypedValue)>,
) -> bool {
    &&& topics.len() == entries.len()
    &&& forall|i: int| 0 <= i < topics.len() ==> #[trigger] topic_of_entry(topics[i], entries[i])
}

/// The topics that the body of the answer to a listing tells of: one for each entry, in
/// the order of the entries, named as the entry.
///
/// Fails with a conversion failure exactly where an entry is not readable.
pub fn topics_of(body: &ValueMap) -> (r: Result<Vec<TopicInfo>, Error>)
    ensures
        match r {
            Ok(topics) => describes_topics(topics@, body.entries@),
            Err(e) => e == Error::ConversionFailure && exists|i: int|
                0 <= i < body.entries@.len() && !topic_entry_readable(#[trigger] body.entries@[i]),
        },
{
    let mut topics: Vec<TopicInfo> = Vec::new();
    let mut i: usize = 0;
    while i < body.entries.len()
        invariant
            i <= body.entries.len(),
            topics@.len() == i,
            forall|j: int| 0 <= j < i ==> #[trigger] topic_of_entry(topics@[j], body.entries@[j]),
        decreases body.entries.len() - i,
    {
        match read_topic_entry(&body.entries[i]) {
            Ok(topic) => {
                topics.push(topic);
            },
            Err(e) => {
                assert(!topic_entry_readable(body.entries@[i as int]));
                return Err(e);
            },
        }
        i += 1;
    }
    Ok(topics)
}

/// The topics that the answer to a listing tells of. An answer that is no map message
/// tells of none.
///
/// Fails with a conversion failure exactly where the answer is a map message with an
/// entry that is not readable.
pub fn topics_from(answer: &Message) -> (r: Result<Vec<TopicInfo>, Error>)
    ensures
        match *answer {
            Message::MapMessage(m) => match r {
                Ok(topics) => describes_topics(topics@, m.body.entries@),
                Err(e) => e == Error::ConversionFailure && exists|i: int|
                    0 <= i < m.body.entries@.len() && !topic_entry_readable(
                        #[trigger] m.body.entries@[i],
                    ),
            },
            _ => r matches Ok(topics) && topics@.len() == 0,
        },
{
    match answer {
        Message::MapMessage(m) => topics_of(&m.body),
        _ => Ok(Vec::new()),
    }
}

/// The state that an answer tells of the server: standing by if the answer is a map
/// message whose body holds the text `3` under the name `state`, active for any
/// other text there and for an answer that is no map message.
pub open spec fn state_of(answer: MessageView) -> Option<ServerState> {
    match answer.body {
        BodyView::Fields(body) => match text_of(body, "state"@) {
            Some(t) => Some(
                if t == "3"@ {
                    ServerState::Standby
                } else {
                    ServerState::Active
                },
            ),
            None => None,
        },
        _ => Some(ServerState::Active),
    }
}

/// The state that an answer tells of the server.
///
/// Fails with a conversion failure exactly where the answer is a map message whose
/// body holds no text under the name `state`.
pub fn server_state_from(answer: &Message) -> (r: Result<ServerState, Error>)
    ensures
        match r {
            Ok(state) => state_of(answer@) == Some(state),
            Err(e) => state_of(answer@) is None && e == Error::ConversionFailure,
        },
{
    match answer {
        Message::MapMessage(m) => match read_text(&m.body, "state") {
            Some(t) => {
                if *t == "3".to_owned() {
                    Ok(ServerState::Standby)
                } else {
                    Ok(ServerState::Active)
                }
            },
            None => Err(Error::ConversionFailure),
        },
        _ => Ok(ServerState::Active),
    }
}

/// What the log of the in-memory broker holds after a command was sent.
pub open spec fn commanded(
    log: Seq<(DestinationView, MessageView)>,
    command: MessageView,
) -> Seq<(DestinationView, MessageView)> {
    log.push((DestinationView::Queue(admin_queue_name()), command))
}

/// Sends a command to the administrative queue of the in-memory broker.
fn run(session: &Session, server: &mut MockServer, command: MapMessage) -> (r: Result<(), Error>)
    ensures
        r is Ok,
        final(server).log() == commanded(old(server).log(), command@),
        final(server).consumer == old(server).consumer,
        final(server).connection == old(server).connection,
        final(server).session == old(server).session,
{
    let queue = admin_queue();
    let r = session.send_message(server, &queue, command);
    assert(server.log() =~= commanded(old(server).log(), command@));
    r
}

/// Sends a command to the administrative queue of the in-memory broker and waits for
/// the answer, which never comes.
fn ask(session: &Session, server: &mut MockServer, command: MapMessage) -> (r: Result<
    Option<Message>,
    Error,
>)
    ensures
        r matches Ok(None),
        final(server).log() == commanded(old(server).log(), command@),
        final(server).consumer == old(server).consumer,
        final(server).connection == old(server).connection,
        final(server).session == old(server).session,
{
    let queue = admin_queue();
    let r = session.request_reply(server, &queue, command, 60000);
    assert(server.log() =~= commanded(old(server).log(), command@));
    r
}

/// Opens an administrative connection to the in-memory broker: a connection is
/// opened, asked for the url of the active server, and a second connection is opened
/// to that server as an administrative one. The in-memory broker takes both.
pub fn connect(server: &mut MockServer, url: &str, user: &str, password: &str) -> (r: Result<
    Connection,
    Error,
>)
    ensures
        r matches Ok(c) && c.handle_of() == 0,
        final(server).connection matches Some(c) && c.handle_of() == 0,
        final(server).session == old(server).session,
        final(server).consumer == old(server).consumer,
        final(server).log() == old(server).log(),
{
    match connect_plain(server, url, user, password) {
        Ok(connection) => match connection.get_active_url() {
            Ok(active_url) => {
                let admin = admin_url(active_url.as_str());
                connect_plain(server, admin.as_str(), user, password)
            },
            Err(e) => Err(e),
        },
        Err(e) => Err(e),
    }
}

/// Lists all queues of the in-memory broker: the command is sent, and since the
/// broker never answers, no queue is listed.
pub fn list_all_queues(session: &Session, server: &mut MockServer) -> (r: Result<
    Vec<QueueInfo>,
    Error,
>)
    ensures
        r matches Ok(queues) && queues@.len() == 0,
        final(server).log() == commanded(
            old(server).log(),
            command(listing_body(1), AdminCommands::ListDestination, false),
        ),
{
    match ask(session, server, list_queues_command()) {
        Ok(Some(answer)) => queues_from(&answer),
        Ok(None) => Ok(Vec::new()),
        Err(e) => Err(e),
    }
}

/// Lists all topics of the in-memory broker: the command is sent, and since the
/// broker never answers, no topic is listed.
pub fn list_all_topics(session: &Session, server: &mut MockServer) -> (r: Result<
    Vec<TopicInfo>,
    Error,
>)
    ensures
        r matches Ok(topics) && topics@.len() == 0,
        final(server).log() == commanded(
            old(server).log(),
            command(listing_body(2), AdminCommands::ListDestination, false),
        ),
{
    match ask(session, server, list_topics_command()) {
        Ok(Some(answer)) => topics_from(&answer),
        Ok(None) => Ok(Vec::new()),
        Err(e) => Err(e),
    }
}

/// Creates a queue on the in-memory broker: the command is sent.
pub fn create_queue(session: &Session, server: &mut MockServer, queue: &QueueInfo) -> (r: Result<
    (),
    Error,
>)
    ensures
        r is Ok,
        final(server).log() == commanded(
            old(server).log(),
            command(
                creation_body(
                    DestinationView::Queue(queue.name@),
                    queue.max_bytes,
                    queue.max_messages,
                    queue.global,
                    queue.prefetch,
                ),
                AdminCommands::CreateDestination,
                true,
            ),
        ),
{
    run(session, server, create_queue_command(queue))
}

/// Deletes a queue from the in-memory broker: the command is sent.
pub fn delete_queue(session: &Session, server: &mut MockServer, queue: &str) -> (r: Result<
    (),
    Error,
>)
    ensures
        r is Ok,
        final(server).log() == commanded(
            old(server).log(),
            command(
                naming_body(DestinationView::Queue(queue@)),
                AdminCommands::DeleteDestination,
                true,
            ),
        ),
{
    run(session, server, delete_queue_command(queue))
}

/// Creates a topic on the in-memory broker: the command is sent.
pub fn create_topic(session: &Session, server: &mut MockServer, topic: &TopicInfo) -> (r: Result<
    (),
    Error,
>)
    ensures
        r is Ok,
        final(server).log() == commanded(
            old(server).log(),
            command(
                creation_body(
                    DestinationView::Topic(topic.name@),
                    topic.max_bytes,
                    topic.max_messages,
                    topic.global,
                    topic.prefetch,
                ),
                AdminCommands::CreateDestination,
                true,
            ),
        ),
{
    run(session, server, create_topic_command(topic))
}

/// Deletes a topic from the in-memory broker: the command is sent.
pub fn delete_topic(session: &Session, server: &mut MockServer, topic: &str) -> (r: Result<
    (),
    Error,
>)
    ensures
        r is Ok,
        final(server).log() == commanded(
            old(server).log(),
            command(
                naming_body(DestinationView::Topic(topic@)),
                AdminCommands::DeleteDestination,
                true,
            ),
        ),
{
    run(session, server, delete_topic_command(topic))
}

/// Creates a bridge on the in-memory broker: the command is sent.
pub fn create_bridge(session: &Session, server: &mut MockServer, bridge: &BridgeInfo) -> (r:
    Result<(), Error>)
    ensures
        r is Ok,
        final(server).log() == commanded(
            old(server).log(),
            command(
                bridge_body(
                    bridge.source@,
                    bridge.target@,
                    crate::marshal::text_view(bridge.selector),
                ),
                AdminCommands::CreateBridge,
                true,
            ),
        ),
{
    run(session, server, create_bridge_command(bridge))
}

/// Deletes a bridge from the in-memory broker: the command is sent.
pub fn delete_bridge(session: &Session, server: &mut MockServer, bridge: &BridgeInfo) -> (r:
    Result<(), Error>)
    ensures
        r is Ok,
        final(server).log() == commanded(
            old(server).log(),
            command(
                bridge_body(bridge.source@, bridge.target@, None),
                AdminCommands::DeleteBridge,
                true,
            ),
        ),
{
    run(session, server, delete_bridge_command(bridge))
}

/// Asks the in-memory broker for the state of the server: the command is sent, and
/// since the broker never answers, the server counts as active.
pub fn get_server_state(session: &Session, server: &mut MockServer) -> (r: Result<
    ServerState,
    Error,
>)
    ensures
        r == Ok::<ServerState, Error>(ServerState::Active),
        final(server).log() == commanded(
            old(server).log(),
            command(Map::<Seq<char>, ValueView>::empty(), AdminCommands::GetStateInfo, false),
        ),
{
    match ask(session, server, server_state_command()) {
        Ok(Some(answer)) => server_state_from(&answer),
        Ok(None) => Ok(ServerState::Active),
        Err(e) => Err(e),
    }
}

} // verus!
