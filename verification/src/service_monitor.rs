//! Translation of the health of a service to the service monitoring of
//! Cumulocity: SmartREST `102` messages.

use crate::assoc::map_of;
use crate::json::{parsed_object, JsonModel, JsonObject, JsonValue};
use crate::mqtt_channel::{Message, MessageModel, QoS, Topic};
use crate::text::{has_substring, levels, occurs_in, split_levels};
use vstd::prelude::*;

verus! {

/// The topic on which SmartREST messages are published.
pub const SMARTREST_PUBLISH_TOPIC: &'static str = "c8y/s/us";

/// The health that a service tells of itself.
#[derive(Debug)]
pub struct HealthStatus {
    pub service_type: String,
    pub status: String,
}

/// The type of a service that tells none.
pub fn default_type() -> (r: String)
    ensures
        r@ == "thin-edge.io"@,
{
    String::from_str("thin-edge.io")
}

/// The status of a service that tells none.
pub fn default_status() -> (r: String)
    ensures
        r@ == "down"@,
{
    String::from_str("down")
}

/// Whether a member is absent or a string.
pub open spec fn absent_or_text(members: Map<Seq<char>, JsonModel>, key: Seq<char>) -> bool {
    members.contains_key(key) ==> members[key] is Text
}

/// The text of a member, or a default where it is absent.
pub open spec fn text_or(members: Map<Seq<char>, JsonModel>, key: Seq<char>, default: Seq<char>) -> Seq<
    char,
> {
    if members.contains_key(key) {
        members[key]->Text_0
    } else {
        default
    }
}

/// The type and the status that a payload tells: those of a JSON object
/// whose `type` and `status`, where present, are strings, `thin-edge.io` and
/// `down` standing for an absent one. Any other payload tells
/// `thin-edge.io` and `down`.
pub open spec fn health_status_of(payload: Seq<u8>) -> (Seq<char>, Seq<char>) {
    match parsed_object(payload) {
        Some(members) => {
            let map = map_of(members);
            if absent_or_text(map, "type"@) && absent_or_text(map, "status"@) {
                (text_or(map, "type"@, "thin-edge.io"@), text_or(map, "status"@, "down"@))
            } else {
                ("thin-edge.io"@, "down"@)
            }
        },
        None => ("thin-edge.io"@, "down"@),
    }
}

impl HealthStatus {
    /// Reads the health that a payload tells.
    pub fn parse(payload: &[u8]) -> (r: HealthStatus)
        ensures
            (r.service_type@, r.status@) == health_status_of(payload@),
    {
        let fallback = HealthStatus { service_type: default_type(), status: default_status() };
        let object = match JsonObject::parse(payload) {
            Ok(object) => object,
            Err(_) => {
                return fallback;
            },
        };
        proof {
            object.lemma_members();
        }
        let service_type = match object.get("type") {
            Some(JsonValue::Text(text)) => text.clone(),
            Some(_) => {
                return fallback;
            },
            None => default_type(),
        };
        let status = match object.get("status") {
            Some(JsonValue::Text(text)) => text.clone(),
            Some(_) => {
                return fallback;
            },
            None => default_status(),
        };
        HealthStatus { service_type, status }
    }
}

/// What a health topic tells: the service and, where it is that of a child
/// device, the child.
#[derive(Debug)]
pub struct TopicInfo {
    pub service_name: String,
    pub child_id: Option<String>,
}

/// The view of an optional text.
pub open spec fn optional_text(text: Option<String>) -> Option<Seq<char>> {
    match text {
        Some(text) => Some(text@),
        None => None,
    }
}

/// The service of a health topic: the fourth level of a topic of four
/// levels, else the third.
pub open spec fn service_of(topic: Seq<char>) -> Seq<char> {
    if levels(topic).len() == 4 {
        levels(topic)[3]
    } else {
        levels(topic)[2]
    }
}

/// The child device of a health topic: the third level of a topic of four
/// levels.
pub open spec fn child_of(topic: Seq<char>) -> Option<Seq<char>> {
    if levels(topic).len() == 4 {
        Some(levels(topic)[2])
    } else {
        None
    }
}

impl TopicInfo {
    /// Reads a health topic, which has at least three levels.
    pub fn parse_topic_info(topic: &str) -> (r: TopicInfo)
        requires
            levels(topic@).len() >= 3,
        ensures
            r.service_name@ == service_of(topic@),
            optional_text(r.child_id) == child_of(topic@),
    {
        let topic_split = split_levels(topic);
        let service_name = if topic_split.len() == 4 {
            String::from_str(topic_split[3])
        } else {
            String::from_str(topic_split[2])
        };
        let child_id = if topic_split.len() == 4 {
            Some(String::from_str(topic_split[2]))
        } else {
            None
        };
        TopicInfo { service_name, child_id }
    }
}

/// The external identifier of a service in the cloud: the device, the
/// child where there is one, and the service, with `_` between them.
pub open spec fn service_external_id(
    device_name: Seq<char>,
    child_id: Option<Seq<char>>,
    daemon_name: Seq<char>,
) -> Seq<char> {
    match child_id {
        Some(child) => device_name + "_"@ + child + "_"@ + daemon_name,
        None => device_name + "_"@ + daemon_name,
    }
}

/// The SmartREST line of a service status:
/// `102,<external id>,<type>,<name>,<status>`.
pub open spec fn status_line(
    device_name: Seq<char>,
    daemon_name: Seq<char>,
    status: Seq<char>,
    service_type: Seq<char>,
    child_id: Option<Seq<char>>,
) -> Seq<char> {
    "102,"@ + service_external_id(device_name, child_id, daemon_name) + ","@ + service_type + ","@
        + daemon_name + ","@ + status
}

/// The topic of a service status: `c8y/s/us`, followed by `/` and the child
/// where there is one.
pub open spec fn status_topic(child_id: Option<Seq<char>>) -> Seq<char> {
    match child_id {
        Some(child) => "c8y/s/us"@ + "/"@ + child,
        None => "c8y/s/us"@,
    }
}

/// The service status message for the cloud.
pub open spec fn status_message(
    device_name: Seq<char>,
    daemon_name: Seq<char>,
    status: Seq<char>,
    service_type: Seq<char>,
    child_id: Option<Seq<char>>,
) -> MessageModel {
    MessageModel {
        topic: status_topic(child_id),
        payload: vstd::utf8::encode_utf8(
            status_line(device_name, daemon_name, status, service_type, child_id),
        ),
        qos: QoS::AtLeastOnce,
        retain: true,
    }
}

/// The retained message that tells the cloud the status of a service.
pub fn service_monitor_status_message(
    device_name: &str,
    daemon_name: &str,
    status: &str,
    service_type: &str,
    child_id: Option<String>,
) -> (r: Message)
    ensures
        r@ == status_message(
            device_name@,
            daemon_name@,
            status@,
            service_type@,
            optional_text(child_id),
        ),
{
    let mut topic = String::from_str(SMARTREST_PUBLISH_TOPIC);
    let mut line = String::from_str("102,");
    line.append(device_name);
    line.append("_");
    match &child_id {
        Some(cid) => {
            topic.append("/");
            topic.append(cid.as_str());
            line.append(cid.as_str());
            line.append("_");
        },
        None => {},
    }
    line.append(daemon_name);
    line.append(",");
    line.append(service_type);
    line.append(",");
    line.append(daemon_name);
    line.append(",");
    line.append(status);
    proof {
        let expected = status_line(
            device_name@,
            daemon_name@,
            status@,
            service_type@,
            optional_text(child_id),
        );
        assert(line@ =~= expected);
        assert(topic@ =~= status_topic(optional_text(child_id)));
    }
    Message::new(&Topic { name: topic }, line.as_str()).with_retain()
}

/// What the health of a service is told to the cloud as: nothing for a
/// topic of fewer than three levels or a service with `bridge` in its name;
/// else the status message of the service.
pub open spec fn converted_health(message: MessageModel, device_name: Seq<char>) -> Seq<
    MessageModel,
> {
    if levels(message.topic).len() < 3 || occurs_in("bridge"@, service_of(message.topic)) {
        Seq::<MessageModel>::empty()
    } else {
        seq![
            status_message(
                device_name,
                service_of(message.topic),
                health_status_of(message.payload).1,
                health_status_of(message.payload).0,
                child_of(message.topic),
            ),
        ]
    }
}

/// The views of a list of messages.
pub open spec fn messages_model(messages: Seq<Message>) -> Seq<MessageModel> {
    Seq::new(messages.len(), |i: int| messages[i]@)
}

/// Translates the health of a service to its status in the cloud.
pub fn convert_health_status_message(message: &Message, device_name: String) -> (r: Vec<Message>)
    ensures
        messages_model(r@) == converted_health(message@, device_name@),
{
    let mut mqtt_messages: Vec<Message> = Vec::new();
    let topic = message.topic.name.as_str();
    if split_levels(topic).len() < 3 {
        assert(messages_model(mqtt_messages@) =~= Seq::<MessageModel>::empty());
        return mqtt_messages;
    }
    let topic_info = TopicInfo::parse_topic_info(topic);
    if !has_substring(topic_info.service_name.as_str(), "bridge") {
        let health_status = HealthStatus::parse(message.payload_bytes());
        let status_message = service_monitor_status_message(
            device_name.as_str(),
            topic_info.service_name.as_str(),
            health_status.status.as_str(),
            health_status.service_type.as_str(),
            topic_info.child_id,
        );
        let ghost model = status_message@;
        mqtt_messages.push(status_message);
        assert(messages_model(mqtt_messages@) =~= seq![model]);
    } else {
        assert(messages_model(mqtt_messages@) =~= Seq::<MessageModel>::empty());
    }
    mqtt_messages
}

} // verus!
