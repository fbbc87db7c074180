//! Health of the agent's own services on the legacy topics: the topics on
//! which a service is asked for its health, and the messages by which it
//! tells it.

use crate::config::Config;
use crate::json::{object_text, JsonModel, JsonObject, JsonValue};
use crate::mqtt_channel::{valid_filter, Message, MessageModel, QoS, Topic, TopicFilter};
use crate::text::{decimal, decimal_text, has_prefix, levels, pieces, same_text, split_levels, split_pieces};
use crate::timestamp::{rfc3339_text, Timestamp};
use vstd::prelude::*;

verus! {

/// The topics on which a service is asked for its health: the one for all
/// services and its own.
pub fn health_check_topics(daemon_name: &str) -> (r: TopicFilter)
    requires
        valid_filter("tedge/health-check/"@ + daemon_name@),
    ensures
        r@ == seq!["tedge/health-check"@, "tedge/health-check/"@ + daemon_name@],
{
    let mut own = String::from_str("tedge/health-check/");
    own.append(daemon_name);
    let mut filter = TopicFilter::new_unchecked("tedge/health-check");
    filter.add_unchecked(own.as_str());
    assert(filter@ =~= seq!["tedge/health-check"@, "tedge/health-check/"@ + daemon_name@]);
    filter
}

/// The topic on which a service tells its health.
pub open spec fn health_topic(daemon_name: Seq<char>) -> Seq<char> {
    "tedge/health/"@ + daemon_name
}

/// The members of a health status: the process, the status and, where
/// given, the time.
pub open spec fn health_members(pid: u32, status: Seq<char>, time: Option<Seq<char>>) -> Seq<
    (Seq<char>, JsonModel),
> {
    let base = seq![
        ("pid"@, JsonModel::Number(decimal(pid as nat))),
        ("status"@, JsonModel::Text(status)),
    ];
    match time {
        Some(time) => base.push(("time"@, JsonModel::Text(time))),
        None => base,
    }
}

fn health_message(daemon_name: &str, pid: u32, status: &str, time: Option<String>) -> (r: Message)
    ensures
        r@ == (MessageModel {
            topic: health_topic(daemon_name@),
            payload: vstd::utf8::encode_utf8(
                object_text(
                    health_members(
                        pid,
                        status@,
                        match time {
                            Some(time) => Some(time@),
                            None => None,
                        },
                    ),
                ),
            ),
            qos: QoS::AtLeastOnce,
            retain: true,
        }),
{
    proof {
        reveal_strlit("pid");
        reveal_strlit("status");
        reveal_strlit("time");
        assert("pid"@.len() == 3 && "status"@.len() == 6 && "time"@.len() == 4);
    }
    let mut name = String::from_str("tedge/health/");
    name.append(daemon_name);
    let mut status_object = JsonObject::new();
    proof {
        crate::assoc::lemma_with_pair_fresh(
            status_object.members(),
            "pid"@,
            JsonModel::Number(decimal(pid as nat)),
        );
    }
    let _ = status_object.insert(String::from_str("pid"), JsonValue::Number(decimal_text(pid as u64)));
    proof {
        crate::assoc::lemma_with_pair_fresh(status_object.members(), "status"@, JsonModel::Text(status@));
    }
    let _ = status_object.insert(String::from_str("status"), JsonValue::text(status));
    match time {
        Some(time) => {
            proof {
                crate::assoc::lemma_with_pair_fresh(
                    status_object.members(),
                    "time"@,
                    JsonModel::Text(time@),
                );
            }
            let _ = status_object.insert(String::from_str("time"), JsonValue::Text(time));
        },
        None => {},
    }
    proof {
        assert(status_object.members() =~= health_members(
            pid,
            status@,
            match time {
                Some(time) => Some(time@),
                None => None,
            },
        ));
    }
    Message::new(&Topic { name }, status_object.to_text().as_str()).with_retain()
}

/// The retained message by which a service is told to be down: the last
/// will of its connection.
pub fn health_status_down_message(daemon_name: &str, pid: u32) -> (r: Message)
    ensures
        r@ == (MessageModel {
            topic: health_topic(daemon_name@),
            payload: vstd::utf8::encode_utf8(object_text(health_members(pid, "down"@, None))),
            qos: QoS::AtLeastOnce,
            retain: true,
        }),
{
    health_message(daemon_name, pid, "down", None)
}

/// The time of a health status: the RFC 3339 text of a point in time, or
/// nothing where it has none.
pub open spec fn health_time(now: Timestamp) -> Seq<char> {
    match rfc3339_text(now.unix_nanos as int, now.offset_seconds as int) {
        Some(text) => text,
        None => Seq::<char>::empty(),
    }
}

/// The retained message by which a service tells that it is up, and since
/// when.
pub fn health_status_up_message(daemon_name: &str, pid: u32, now: &Timestamp) -> (r: Message)
    ensures
        r@ == (MessageModel {
            topic: health_topic(daemon_name@),
            payload: vstd::utf8::encode_utf8(
                object_text(health_members(pid, "up"@, Some(health_time(*now)))),
            ),
            qos: QoS::AtLeastOnce,
            retain: true,
        }),
{
    let time = match now.to_rfc3339() {
        Some(text) => text,
        None => String::new(),
    };
    health_message(daemon_name, pid, "up", Some(time))
}

/// Whether a topic is that of the health of a bridge: it begins with
/// `tedge/health`, and its third level is `mosquitto-<cloud>-bridge`.
pub open spec fn bridge_health_topic(topic: Seq<char>) -> bool {
    "tedge/health"@.is_prefix_of(topic) && levels(topic).len() > 2 && {
        let parts = pieces(levels(topic)[2], '-');
        parts.len() == 3 && parts[0] == "mosquitto"@ && parts[2] == "bridge"@
    }
}

/// Whether a topic is that of the health of a bridge.
pub fn is_bridge_health(topic: &str) -> (r: bool)
    ensures
        r == bridge_health_topic(topic@),
{
    if has_prefix(topic, "tedge/health") {
        let substrings = split_levels(topic);
        if substrings.len() > 2 {
            let bridge_splits = split_pieces(substrings[2], '-');
            bridge_splits.len() == 3 && same_text(bridge_splits[0], "mosquitto") && same_text(
                bridge_splits[2],
                "bridge",
            )
        } else {
            false
        }
    } else {
        false
    }
}

/// What makes the monitor of a service.
#[derive(Debug)]
pub struct HealthMonitorBuilder {
    pub name: String,
    pub subscriptions: TopicFilter,
}

impl HealthMonitorBuilder {
    /// The builder of the monitor of a service, which listens on the
    /// health-check topics.
    pub fn new(name: &str) -> (r: HealthMonitorBuilder)
        requires
            valid_filter("tedge/health-check/"@ + name@),
        ensures
            r.name@ == name@,
            r.subscriptions@ == seq!["tedge/health-check"@, "tedge/health-check/"@ + name@],
    {
        HealthMonitorBuilder {
            name: String::from_str(name),
            subscriptions: health_check_topics(name),
        }
    }

    /// The configuration of a connection with the retained message that
    /// tells the service down as its last will.
    pub fn set_init_and_last_will(&self, config: Config, pid: u32) -> (r: Config)
        ensures
            r.host == config.host,
            r.port == config.port,
            r.session_name == config.session_name,
            r.subscriptions == config.subscriptions,
            r.clean_session == config.clean_session,
            r.queue_capacity == config.queue_capacity,
            r.max_packet_size == config.max_packet_size,
            r.last_will_message matches Some(will) && will.topic@ == health_topic(self.name@)
                && will.message@ == vstd::utf8::encode_utf8(
                object_text(health_members(pid, "down"@, None)),
            ) && will.qos == QoS::AtLeastOnce && will.retain,
    {
        let down = health_status_down_message(self.name.as_str(), pid);
        config.with_last_will(&down)
    }

    /// The monitor.
    pub fn build(self) -> (r: HealthMonitorActor)
        ensures
            r.name == self.name,
            r.subscriptions == self.subscriptions,
    {
        HealthMonitorActor { name: self.name, subscriptions: self.subscriptions }
    }
}

/// What tells the health of a service to whoever asks on the health-check
/// topics.
#[derive(Debug)]
pub struct HealthMonitorActor {
    pub name: String,
    pub subscriptions: TopicFilter,
}

impl HealthMonitorActor {
    /// The monitor of a service, which listens on the health-check topics.
    pub fn new(name: &str) -> (r: HealthMonitorActor)
        requires
            valid_filter("tedge/health-check/"@ + name@),
        ensures
            r.name@ == name@,
            r.subscriptions@ == seq!["tedge/health-check"@, "tedge/health-check/"@ + name@],
    {
        HealthMonitorBuilder::new(name).build()
    }

    /// The message that tells the service up.
    pub fn up_health_status(&self, pid: u32, now: &Timestamp) -> (r: Message)
        ensures
            r@ == (MessageModel {
                topic: health_topic(self.name@),
                payload: vstd::utf8::encode_utf8(
                    object_text(health_members(pid, "up"@, Some(health_time(*now)))),
                ),
                qos: QoS::AtLeastOnce,
                retain: true,
            }),
    {
        health_status_up_message(self.name.as_str(), pid, now)
    }

    /// The message that tells the service down.
    pub fn down_health_status(&self, pid: u32) -> (r: Message)
        ensures
            r@ == (MessageModel {
                topic: health_topic(self.name@),
                payload: vstd::utf8::encode_utf8(object_text(health_members(pid, "down"@, None))),
                qos: QoS::AtLeastOnce,
                retain: true,
            }),
    {
        health_status_down_message(self.name.as_str(), pid)
    }

    /// What the monitor publishes when it starts: the registration of the
    /// service, where there is one, and then that the service is up.
    pub fn on_start(&self, registration: Option<Message>, pid: u32, now: &Timestamp) -> (r: Vec<
        Message,
    >)
        ensures
            match registration {
                Some(first) => r@.len() == 2 && r@[0]@ == first@ && r@[1]@.topic == health_topic(
                    self.name@,
                ),
                None => r@.len() == 1 && r@[0]@.topic == health_topic(self.name@),
            },
            r@.last()@.payload == vstd::utf8::encode_utf8(
                object_text(health_members(pid, "up"@, Some(health_time(*now)))),
            ),
            r@.last()@.retain,
    {
        let mut out: Vec<Message> = Vec::new();
        match registration {
            Some(message) => out.push(message),
            None => {},
        }
        out.push(self.up_health_status(pid, now));
        out
    }
}

} // verus!
