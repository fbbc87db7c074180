//! The mappers: which there are, under which session each connects, and the
//! connection of one that runs.

use crate::config::Config;
use crate::health::health_status_down_message;
use crate::mqtt_channel::{accepted, valid_filter, Message, MessageModel, QoS, Topic, TopicFilter};
use vstd::prelude::*;

verus! {

/// The session name of the Azure mapper.
pub const AZURE_MAPPER_NAME: &'static str = "tedge-mapper-az";

/// The session name of the AWS mapper.
pub const AWS_MAPPER_NAME: &'static str = "tedge-mapper-aws";

/// The mapper for Azure.
#[derive(Debug)]
pub struct AzureMapper {}

/// The mapper for AWS.
#[derive(Debug)]
pub struct AwsMapper;

impl AzureMapper {
    pub fn new() -> (r: AzureMapper) {
        AzureMapper {  }
    }

    pub fn session_name(&self) -> (r: &'static str)
        ensures
            r@ == "tedge-mapper-az"@,
    {
        AZURE_MAPPER_NAME
    }

    /// The directory of the operations of Azure under a configuration
    /// directory.
    pub fn operations_dir(config_dir: &str) -> (r: String)
        ensures
            r@ == config_dir@ + "/operations/az"@,
    {
        let mut dir = String::from_str(config_dir);
        dir.append("/operations/az");
        dir
    }
}

impl Default for AzureMapper {
    fn default() -> Self {
        AzureMapper::new()
    }
}

impl AwsMapper {
    pub fn session_name(&self) -> (r: &'static str)
        ensures
            r@ == "tedge-mapper-aws"@,
    {
        AWS_MAPPER_NAME
    }
}

/// Which mapper to run.
#[derive(Debug, Clone, Copy, PartialEq, Eq, Structural)]
pub enum MapperName {
    Az,
    Aws,
    C8y,
    Collectd,
}

impl MapperName {
    /// The name of the service of a mapper.
    pub open spec fn service_name(self) -> Seq<char> {
        match self {
            MapperName::Az => "tedge-mapper-az"@,
            MapperName::Aws => "tedge-mapper-aws"@,
            MapperName::C8y => "tedge-mapper-c8y"@,
            MapperName::Collectd => "tedge-mapper-collectd"@,
        }
    }

    pub fn to_text(&self) -> (r: String)
        ensures
            r@ == self.service_name(),
    {
        match self {
            MapperName::Az => String::from_str("tedge-mapper-az"),
            MapperName::Aws => String::from_str("tedge-mapper-aws"),
            MapperName::C8y => String::from_str("tedge-mapper-c8y"),
            MapperName::Collectd => String::from_str("tedge-mapper-collectd"),
        }
    }
}

/// The options of the command line of a mapper.
#[derive(Debug)]
pub struct MapperOpt {
    pub name: MapperName,
    /// Log everything.
    pub debug: bool,
    /// Create the session and end.
    pub init: bool,
    /// Clear the session and end.
    pub clear: bool,
    /// The directory of the configuration.
    pub config_dir: String,
}

/// What a mapper is asked to do.
#[derive(Debug, Clone, Copy, PartialEq, Eq, Structural)]
pub enum MapperTask {
    InitSession,
    ClearSession,
    Run,
}

impl MapperOpt {
    /// What the options ask for: to create the session where `init` is
    /// set, else to clear it where `clear` is set, else to run.
    pub fn task(&self) -> (r: MapperTask)
        ensures
            r == if self.init {
                MapperTask::InitSession
            } else if self.clear {
                MapperTask::ClearSession
            } else {
                MapperTask::Run
            },
    {
        if self.init {
            MapperTask::InitSession
        } else if self.clear {
            MapperTask::ClearSession
        } else {
            MapperTask::Run
        }
    }
}

/// A mapper.
#[derive(Debug)]
pub enum Component {
    Az(AzureMapper),
    Aws(AwsMapper),
    Collectd,
    C8y,
}

impl Component {
    /// The name of the mapper that a component is.
    pub open spec fn name(self) -> MapperName {
        match self {
            Component::Az(_) => MapperName::Az,
            Component::Aws(_) => MapperName::Aws,
            Component::Collectd => MapperName::Collectd,
            Component::C8y => MapperName::C8y,
        }
    }
}

/// The mapper of a name.
pub fn lookup_component(component_name: &MapperName) -> (r: Component)
    ensures
        r.name() == *component_name,
{
    match component_name {
        MapperName::Az => Component::Az(AzureMapper::new()),
        MapperName::Aws => Component::Aws(AwsMapper),
        MapperName::Collectd => Component::Collectd,
        MapperName::C8y => Component::C8y,
    }
}

/// The connection of a mapper: a session of its name on the given broker,
/// with the given subscriptions, payloads of up to 10 MiB, and the
/// retained message that tells it down as its last will.
pub fn mqtt_config(name: &str, host: &str, port: u16, topic_filter: TopicFilter, pid: u32) -> (r:
    Config)
    ensures
        r.host@ == host@,
        r.port == port,
        r.session_name matches Some(session) && session@ == name@,
        r.subscriptions@ == topic_filter@,
        !r.clean_session,
        r.queue_capacity == 1024,
        r.max_packet_size == 10 * 1024 * 1024,
        r.last_will_message matches Some(will) && will.topic@ == crate::health::health_topic(name@)
            && will.message@ == vstd::utf8::encode_utf8(
            crate::json::object_text(crate::health::health_members(pid, "down"@, None)),
        ) && will.qos == crate::mqtt_channel::QoS::AtLeastOnce && will.retain,
{
    let down = health_status_down_message(name, pid);
    let config = Config::default().with_host(host).with_port(port).with_session_name(
        name,
    ).with_subscriptions(topic_filter).with_max_packet_size(10 * 1024 * 1024);
    assert(Seq::<Seq<char>>::empty() + topic_filter@ =~= topic_filter@);
    config.with_last_will(&down)
}

/// Seconds for which a mapper takes in retained messages before it
/// translates.
pub const SYNC_WINDOW_SECS: u64 = 3;

/// Where a running mapper stands.
#[derive(Debug, Clone, Copy, PartialEq, Eq, Structural)]
pub enum RuntimePhase {
    /// Not started yet.
    Init,
    /// Taking in what the broker retained.
    Sync,
    /// Translating what comes.
    Steady,
    /// Stopped.
    Shutdown,
}

/// What happens to a running mapper.
#[derive(Debug)]
pub enum RuntimeEvent {
    /// The connection stands.
    Connected,
    /// A message came.
    Message(Message),
    /// The time to take in retained messages is over.
    SyncWindowElapsed,
    /// A directory for the operations of a child device was created.
    DirectoryCreated(String),
    /// The operations changed otherwise.
    OperationsChanged,
    /// The mapper is told to stop.
    Shutdown,
}

/// What a running mapper does next.
#[derive(Debug)]
pub enum RuntimeAction {
    /// Publish the first messages of the converter, then wait for the
    /// retained messages for so many seconds.
    PublishInitMessages { sync_seconds: u64 },
    /// Tell that the mapper is up.
    AnswerHealthCheck,
    /// Hand the message to the converter and publish what it makes of it.
    Convert(Message),
    /// Convert what the converter kept during the sync window, then tell
    /// that the mapper is up.
    ConvertSyncMessages,
    /// Publish this message.
    Publish(Message),
    /// Publish the operations that the mapper supports.
    PublishOperations,
    /// Tell that the mapper is down.
    PublishDown,
    /// Nothing.
    Nothing,
}

/// The message that creates a child device in the cloud.
pub open spec fn child_creation(child_id: Seq<char>) -> MessageModel {
    MessageModel {
        topic: "c8y/s/us"@,
        payload: vstd::utf8::encode_utf8(
            "101,"@ + child_id + ","@ + child_id + ",thin-edge.io-child"@,
        ),
        qos: QoS::AtLeastOnce,
        retain: false,
    }
}

/// The message that creates a child device in the cloud.
pub fn child_creation_message(child_id: &str) -> (r: Message)
    ensures
        r@ == child_creation(child_id@),
{
    let mut line = String::from_str("101,");
    line.append(child_id);
    line.append(",");
    line.append(child_id);
    line.append(",thin-edge.io-child");
    Message::new(&Topic::new_unchecked("c8y/s/us"), line.as_str())
}

/// A running mapper.
#[derive(Debug)]
pub struct Mapper {
    pub mapper_name: String,
    pub health_check_topics: TopicFilter,
    pub phase: RuntimePhase,
}

/// The phase of a mapper after an event.
pub open spec fn phase_after(phase: RuntimePhase, event: RuntimeEvent) -> RuntimePhase {
    match (phase, event) {
        (RuntimePhase::Shutdown, _) => RuntimePhase::Shutdown,
        (_, RuntimeEvent::Shutdown) => RuntimePhase::Shutdown,
        (RuntimePhase::Init, RuntimeEvent::Connected) => RuntimePhase::Sync,
        (RuntimePhase::Sync, RuntimeEvent::SyncWindowElapsed) => RuntimePhase::Steady,
        _ => phase,
    }
}

/// Whether an answer is what a mapper does on an event: once stopped,
/// nothing; told to stop, it tells that it is down; connected, it
/// publishes its first messages; a message on a health-check topic is
/// answered, any other is converted, also during the sync window; when that
/// is over, what was kept is converted; in the steady state a new directory
/// creates a child device and other changes publish the operations.
pub open spec fn does(
    phase: RuntimePhase,
    health_check_topics: Seq<Seq<char>>,
    event: RuntimeEvent,
    action: RuntimeAction,
) -> bool {
    match (phase, event) {
        (RuntimePhase::Shutdown, _) => action is Nothing,
        (_, RuntimeEvent::Shutdown) => action is PublishDown,
        (RuntimePhase::Init, RuntimeEvent::Connected) => action matches RuntimeAction::PublishInitMessages {
            sync_seconds,
        } && sync_seconds == SYNC_WINDOW_SECS,
        (RuntimePhase::Sync, RuntimeEvent::Message(message))
        | (RuntimePhase::Steady, RuntimeEvent::Message(message)) => if accepted(
            message@.topic,
            health_check_topics,
        ) {
            action is AnswerHealthCheck
        } else {
            action matches RuntimeAction::Convert(given) && given@ == message@
        },
        (RuntimePhase::Sync, RuntimeEvent::SyncWindowElapsed) => action is ConvertSyncMessages,
        (RuntimePhase::Steady, RuntimeEvent::DirectoryCreated(child)) => action matches RuntimeAction::Publish(
            message,
        ) && message@ == child_creation(child@),
        (RuntimePhase::Steady, RuntimeEvent::OperationsChanged) => action is PublishOperations,
        _ => action is Nothing,
    }
}

impl Mapper {
    /// A mapper that has not started yet.
    pub fn new(mapper_name: String) -> (r: Mapper)
        requires
            valid_filter("tedge/health-check/"@ + mapper_name@),
        ensures
            r.mapper_name@ == mapper_name@,
            r.health_check_topics@ == seq![
                "tedge/health-check"@,
                "tedge/health-check/"@ + mapper_name@,
            ],
            r.phase == RuntimePhase::Init,
    {
        let health_check_topics = crate::health::health_check_topics(mapper_name.as_str());
        Mapper { mapper_name, health_check_topics, phase: RuntimePhase::Init }
    }

    /// The topics that the mapper subscribes to: those of its converter,
    /// and its health-check topics.
    pub fn subscriptions(&self, converter_topics: &TopicFilter) -> (r: TopicFilter)
        ensures
            r@ == converter_topics@ + self.health_check_topics@,
    {
        let mut topics = converter_topics.clone();
        topics.add_all(&self.health_check_topics);
        topics
    }

    /// Takes an event and tells what to do.
    pub fn process(&mut self, event: RuntimeEvent) -> (r: RuntimeAction)
        ensures
            final(self).mapper_name == old(self).mapper_name,
            final(self).health_check_topics == old(self).health_check_topics,
            final(self).phase == phase_after(old(self).phase, event),
            does(old(self).phase, old(self).health_check_topics@, event, r),
    {
        let phase = self.phase;
        match (phase, event) {
            (RuntimePhase::Shutdown, _) => RuntimeAction::Nothing,
            (_, RuntimeEvent::Shutdown) => {
                self.phase = RuntimePhase::Shutdown;
                RuntimeAction::PublishDown
            },
            (RuntimePhase::Init, RuntimeEvent::Connected) => {
                self.phase = RuntimePhase::Sync;
                RuntimeAction::PublishInitMessages { sync_seconds: SYNC_WINDOW_SECS }
            },
            (RuntimePhase::Sync, RuntimeEvent::Message(message)) => self.process_message(message),
            (RuntimePhase::Steady, RuntimeEvent::Message(message)) => self.process_message(
                message,
            ),
            (RuntimePhase::Sync, RuntimeEvent::SyncWindowElapsed) => {
                self.phase = RuntimePhase::Steady;
                RuntimeAction::ConvertSyncMessages
            },
            (RuntimePhase::Steady, RuntimeEvent::DirectoryCreated(child)) => RuntimeAction::Publish(
                child_creation_message(child.as_str()),
            ),
            (RuntimePhase::Steady, RuntimeEvent::OperationsChanged) => RuntimeAction::PublishOperations,
            _ => RuntimeAction::Nothing,
        }
    }

    /// What to do with a message: answer it where it asks for the health
    /// of the mapper, else convert it.
    pub fn process_message(&self, message: Message) -> (r: RuntimeAction)
        ensures
            if accepted(message@.topic, self.health_check_topics@) {
                r is AnswerHealthCheck
            } else {
                r matches RuntimeAction::Convert(given) && given@ == message@
            },
    {
        if self.health_check_topics.accept(&message) {
            RuntimeAction::AnswerHealthCheck
        } else {
            RuntimeAction::Convert(message)
        }
    }
}

} // verus!
