//! The configuration of the Cumulocity mapper.

use crate::mqtt_channel::{Message, TopicFilter};
use crate::text::{has_substring, occurs_in, same_text};
use vstd::prelude::*;

verus! {

/// The largest SmartREST payload, in bytes, that Cumulocity accepts.
pub const MQTT_MESSAGE_SIZE_THRESHOLD: usize = 16184;

/// The topic on which the agent tells its health.
pub const TEDGE_AGENT_HEALTH_TOPIC: &'static str = "tedge/health/tedge-agent";

/// What the Cumulocity mapper is configured with.
#[derive(Debug)]
pub struct C8yMapperConfig {
    pub config_dir: String,
    pub logs_path: String,
    pub device_id: String,
    pub device_type: String,
    pub service_type: String,
    pub ops_dir: String,
    pub c8y_host: String,
}

/// Why the configuration of the mapper cannot be built.
#[derive(Debug)]
pub enum C8yMapperConfigBuildError {
    FromReadError(String),
    FromConfigNotSet(String),
}

/// Why the subscriptions of the mapper cannot be told.
#[derive(Debug)]
pub enum C8yMapperConfigError {
    FromOperationsError(String),
    FromMqttError(crate::mqtt_channel::MqttError),
}

impl C8yMapperConfig {
    /// The configuration; the operations are kept under
    /// `operations/c8y` in the configuration directory.
    pub fn new(
        config_dir: String,
        logs_path: String,
        device_id: String,
        device_type: String,
        service_type: String,
        c8y_host: String,
    ) -> (r: C8yMapperConfig)
        ensures
            r.config_dir@ == config_dir@,
            r.logs_path@ == logs_path@,
            r.device_id@ == device_id@,
            r.device_type@ == device_type@,
            r.service_type@ == service_type@,
            r.c8y_host@ == c8y_host@,
            r.ops_dir@ == config_dir@ + "/operations/c8y"@,
    {
        let mut ops_dir = config_dir.clone();
        ops_dir.append("/operations/c8y");
        C8yMapperConfig {
            config_dir,
            logs_path,
            device_id,
            device_type,
            service_type,
            ops_dir,
            c8y_host,
        }
    }

    /// The topics that the mapper subscribes to whatever operations there
    /// are, followed by those of the operations.
    pub fn subscriptions(operation_topics: &TopicFilter) -> (r: TopicFilter)
        ensures
            r@ == seq![
                "tedge/measurements"@,
                "tedge/measurements/+"@,
                "tedge/alarms/+/+"@,
                "tedge/alarms/+/+/+"@,
                "c8y-internal/alarms/+/+"@,
                "c8y-internal/alarms/+/+/+"@,
                "tedge/events/+"@,
                "tedge/events/+/+"@,
                "tedge/health/+"@,
                "tedge/health/+/+"@,
                "c8y/s/ds"@,
                "tedge/commands/res/software/list"@,
                "tedge/commands/res/software/update"@,
                "tedge/commands/res/control/restart"@,
            ] + operation_topics@,
    {
        let mut filter = TopicFilter::new_unchecked("tedge/measurements");
        filter.add_unchecked("tedge/measurements/+");
        filter.add_unchecked("tedge/alarms/+/+");
        filter.add_unchecked("tedge/alarms/+/+/+");
        filter.add_unchecked("c8y-internal/alarms/+/+");
        filter.add_unchecked("c8y-internal/alarms/+/+/+");
        filter.add_unchecked("tedge/events/+");
        filter.add_unchecked("tedge/events/+/+");
        filter.add_unchecked("tedge/health/+");
        filter.add_unchecked("tedge/health/+/+");
        filter.add_unchecked("c8y/s/ds");
        filter.add_unchecked("tedge/commands/res/software/list");
        filter.add_unchecked("tedge/commands/res/software/update");
        filter.add_unchecked("tedge/commands/res/control/restart");
        assert(filter@ =~= seq![
            "tedge/measurements"@,
            "tedge/measurements/+"@,
            "tedge/alarms/+/+"@,
            "tedge/alarms/+/+/+"@,
            "c8y-internal/alarms/+/+"@,
            "c8y-internal/alarms/+/+/+"@,
            "tedge/events/+"@,
            "tedge/events/+/+"@,
            "tedge/health/+"@,
            "tedge/health/+/+"@,
            "c8y/s/ds"@,
            "tedge/commands/res/software/list"@,
            "tedge/commands/res/software/update"@,
            "tedge/commands/res/control/restart"@,
        ]);
        filter.add_all(operation_topics);
        filter
    }

    /// The topics that the mapper subscribes to when its session is
    /// created.
    pub fn init_subscriptions() -> (r: Result<TopicFilter, C8yMapperConfigError>)
        ensures
            r matches Ok(filter) && filter@ == seq!["tedge/health/+"@],
    {
        Ok(TopicFilter::new_unchecked("tedge/health/+"))
    }
}

/// Whether a message tells the status of the agent: it is on the health
/// topic of the agent and holds `"status":"up"` or `"status":"down"`.
pub open spec fn agent_status_message(topic: Seq<char>, payload: Seq<u8>) -> bool {
    topic == "tedge/health/tedge-agent"@ && vstd::utf8::valid_utf8(payload) && (occurs_in(
        "\"status\":\"up\""@,
        vstd::utf8::decode_utf8(payload),
    ) || occurs_in("\"status\":\"down\""@, vstd::utf8::decode_utf8(payload)))
}

/// Whether a message tells the status of the agent.
pub fn check_tedge_agent_status(message: &Message) -> (r: bool)
    ensures
        r == agent_status_message(message@.topic, message@.payload),
{
    if same_text(message.topic.name.as_str(), TEDGE_AGENT_HEALTH_TOPIC) {
        match message.payload_str() {
            Ok(payload) => has_substring(payload, "\"status\":\"up\"") || has_substring(
                payload,
                "\"status\":\"down\"",
            ),
            Err(_) => false,
        }
    } else {
        false
    }
}

} // verus!
