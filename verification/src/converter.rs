//! Translation of legacy telemetry to the messages of the Azure and AWS
//! clouds, within the size that each cloud accepts.

use crate::json::{
    members_model, members_to_text, object_text, parsed_object, JsonError, JsonModel, JsonObject,
    JsonValue,
};
use crate::mqtt_channel::{Message, MessageModel, MqttError, QoS, Topic, TopicFilter};
use crate::text::{decimal, decimal_text, has_prefix, same_text};
use crate::timestamp::{rewrite_rfc3339, rfc3339_rewritten, rfc3339_text, Timestamp};
use vstd::prelude::*;

verus! {

/// The largest payload, in bytes, that Azure accepts.
pub const AZ_MQTT_THRESHOLD: usize = 131072;

/// The largest payload, in bytes, that AWS accepts.
pub const AWS_MQTT_THRESHOLD: usize = 261120;

/// What can go wrong around a mapper.
#[derive(Debug)]
pub enum MapperError {
    HomeDirNotFound,
    FromTEdgeConfig(String),
    FromConfigSetting(String),
    FromStdIo(String),
}

/// Why a message is not converted.
#[derive(Debug)]
pub enum ConversionError {
    FromMapper(MapperError),
    /// The payload is no Thin Edge JSON.
    FromThinEdgeJsonParser(JsonError),
    /// The message is larger than the cloud accepts.
    SizeThresholdExceeded { topic: String, actual_size: usize, threshold: usize },
    /// The payload is no JSON object.
    FromSerdeJson(JsonError),
    FromStdIo(String),
    /// The payload is no text.
    FromMqttClient(MqttError),
    /// The default timestamp cannot be written.
    FromTimeFormatError,
    /// The topic has not the shape of its kind.
    UnsupportedTopic(String),
}

/// What tells that a message is too large.
pub open spec fn size_exceeded_text(topic: Seq<char>, actual_size: nat, threshold: nat) -> Seq<
    char,
> {
    "The size of the message received on "@ + topic + " is "@ + decimal(actual_size)
        + " which is greater than the threshold size of "@ + decimal(threshold) + "."@
}

impl MapperError {
    /// The error in words.
    pub open spec fn text(&self) -> Seq<char> {
        match self {
            MapperError::HomeDirNotFound => "Home directory is not found."@,
            MapperError::FromTEdgeConfig(reason) => reason@,
            MapperError::FromConfigSetting(reason) => reason@,
            MapperError::FromStdIo(reason) => reason@,
        }
    }

    /// The error in words.
    pub fn to_text(&self) -> (r: String)
        ensures
            r@ == self.text(),
    {
        match self {
            MapperError::HomeDirNotFound => String::from_str("Home directory is not found."),
            MapperError::FromTEdgeConfig(reason) => reason.clone(),
            MapperError::FromConfigSetting(reason) => reason.clone(),
            MapperError::FromStdIo(reason) => reason.clone(),
        }
    }
}

impl ConversionError {
    /// The error in words, as it is told on the errors topic. That a
    /// message is too large is told with its topic, its size and the
    /// threshold; an error that another part found is told in its words.
    pub open spec fn text(&self) -> Seq<char> {
        match self {
            ConversionError::FromMapper(e) => e.text(),
            ConversionError::FromThinEdgeJsonParser(e) => e.message@,
            ConversionError::SizeThresholdExceeded {
                topic,
                actual_size,
                threshold,
            } => size_exceeded_text(topic@, *actual_size as nat, *threshold as nat),
            ConversionError::FromSerdeJson(e) => e.message@,
            ConversionError::FromStdIo(reason) => reason@,
            ConversionError::FromMqttClient(e) => e.text(),
            ConversionError::FromTimeFormatError => "The time cannot be written in the RFC 3339 format"@,
            ConversionError::UnsupportedTopic(topic) => "Unsupported topic: "@ + topic@,
        }
    }

    /// The error in words.
    pub fn to_text(&self) -> (r: String)
        ensures
            r@ == self.text(),
    {
        match self {
            ConversionError::FromMapper(e) => e.to_text(),
            ConversionError::FromThinEdgeJsonParser(e) => e.message.clone(),
            ConversionError::SizeThresholdExceeded { topic, actual_size, threshold } => {
                let mut text = String::from_str("The size of the message received on ");
                text.append(topic.as_str());
                text.append(" is ");
                text.append(decimal_text(*actual_size as u64).as_str());
                text.append(" which is greater than the threshold size of ");
                text.append(decimal_text(*threshold as u64).as_str());
                text.append(".");
                text
            },
            ConversionError::FromSerdeJson(e) => e.message.clone(),
            ConversionError::FromStdIo(reason) => reason.clone(),
            ConversionError::FromMqttClient(e) => e.to_text(),
            ConversionError::FromTimeFormatError => String::from_str(
                "The time cannot be written in the RFC 3339 format",
            ),
            ConversionError::UnsupportedTopic(topic) => {
                let mut text = String::from_str("Unsupported topic: ");
                text.append(topic.as_str());
                text
            },
        }
    }
}

/// What a converter publishes for a message: what it made of the message,
/// or, where it made nothing of it, the error in words on the errors topic.
pub fn publish_or_report(converted: Result<Vec<Message>, ConversionError>, errors_topic: &Topic) -> (r:
    Vec<Message>)
    ensures
        match converted {
            Ok(messages) => r@ == messages@,
            Err(error) => r@.len() == 1 && r@[0]@ == (MessageModel {
                topic: errors_topic.name@,
                payload: vstd::utf8::encode_utf8(error.text()),
                qos: QoS::AtLeastOnce,
                retain: false,
            }),
        },
{
    match converted {
        Ok(messages) => messages,
        Err(error) => {
            let mut out: Vec<Message> = Vec::new();
            out.push(Message::new(errors_topic, error.to_text().as_str()));
            out
        },
    }
}

/// The largest payload, in bytes, that a cloud accepts.
#[derive(Debug, Clone, Copy, PartialEq, Eq, Structural)]
pub struct SizeThreshold(pub usize);

impl SizeThreshold {
    /// Refuses a message whose payload is larger than the threshold, with
    /// its topic, its size and the threshold.
    pub fn validate(&self, input: &Message) -> (r: Result<(), ConversionError>)
        ensures
            match r {
                Ok(()) => input.payload@.len() <= self.0,
                Err(ConversionError::SizeThresholdExceeded { topic, actual_size, threshold }) =>
                    input.payload@.len() > self.0 && topic@ == input.topic.name@ && actual_size
                        == input.payload@.len() && threshold == self.0,
                Err(_) => false,
            },
    {
        let actual_size = input.payload.len();
        if actual_size > self.0 {
            Err(
                ConversionError::SizeThresholdExceeded {
                    topic: input.topic.name.clone(),
                    actual_size,
                    threshold: self.0,
                },
            )
        } else {
            Ok(())
        }
    }
}

/// Whether a text is a group of measurements: a JSON object of numbers.
pub open spec fn measurement_group(text: Seq<char>) -> bool {
    parsed_object(vstd::utf8::encode_utf8(text)) matches Some(members) && forall|i: int|
        0 <= i < members.len() ==> (#[trigger] members[i]).1 is Number
}

/// What a member of a Thin Edge JSON measurement is written back as: `time`
/// has to be an RFC 3339 string and is rewritten; any other member has to be
/// a number or a group of numbers and is kept.
pub open spec fn measurement_member(member: (Seq<char>, JsonModel)) -> Option<
    (Seq<char>, JsonModel),
> {
    if member.0 == "time"@ {
        match member.1 {
            JsonModel::Text(time) => match rfc3339_rewritten(time) {
                Some(rewritten) => Some(("time"@, JsonModel::Text(rewritten))),
                None => None,
            },
            _ => None,
        }
    } else {
        match member.1 {
            JsonModel::Number(_) => Some(member),
            JsonModel::Nested(group) => if measurement_group(group) {
                Some(member)
            } else {
                None
            },
            _ => None,
        }
    }
}

/// Whether `time` is among the keys of some members.
pub open spec fn has_time(members: Seq<(Seq<char>, JsonModel)>) -> bool {
    exists|i: int| 0 <= i < members.len() && (#[trigger] members[i]).0 == "time"@
}

/// The default time as the last member, where there is one and the members
/// hold no time.
pub open spec fn default_time_member(
    members: Seq<(Seq<char>, JsonModel)>,
    default_time: Option<Seq<char>>,
) -> Seq<(Seq<char>, JsonModel)> {
    match default_time {
        Some(time) => if has_time(members) {
            Seq::<(Seq<char>, JsonModel)>::empty()
        } else {
            seq![("time"@, JsonModel::Text(time))]
        },
        None => Seq::<(Seq<char>, JsonModel)>::empty(),
    }
}

/// The payload of a translated Thin Edge JSON measurement: its members as
/// they are written back, then the default time where it has none. There is
/// none where the payload is no JSON object or a member is no measurement.
pub open spec fn measurement_payload(payload: Seq<u8>, default_time: Option<Seq<char>>) -> Option<
    Seq<char>,
> {
    match parsed_object(payload) {
        Some(members) => if forall|i: int|
            0 <= i < members.len() ==> measurement_member(#[trigger] members[i]) is Some {
            Some(
                object_text(
                    Seq::new(members.len(), |i: int| measurement_member(members[i])->0)
                        + default_time_member(members, default_time),
                ),
            )
        } else {
            None
        },
        None => None,
    }
}

/// The payload of a translated event, alarm or health status: its members,
/// then the default time where it has none. There is none where the payload
/// is no JSON object.
pub open spec fn timed_payload(payload: Seq<u8>, default_time: Option<Seq<char>>) -> Option<
    Seq<char>,
> {
    match parsed_object(payload) {
        Some(members) => Some(object_text(members + default_time_member(members, default_time))),
        None => None,
    }
}

fn is_measurement_group(text: &str) -> (r: bool)
    ensures
        r == measurement_group(text@),
{
    let bytes = text.as_bytes();
    match JsonObject::parse(bytes) {
        Ok(group) => {
            let n: usize = group.len();
            let mut i: usize = 0;
            while i < n
                invariant
                    n == group.members().len(),
                    i <= n,
                    parsed_object(vstd::utf8::encode_utf8(text@)) == Some(group.members()),
                    forall|k: int| 0 <= k < i ==> (#[trigger] group.members()[k]).1 is Number,
                decreases n - i,
            {
                match group.value_at(i) {
                    JsonValue::Number(_) => {},
                    _ => {
                        return false;
                    },
                }
                i = i + 1;
            }
            true
        },
        Err(_) => false,
    }
}

fn time_member(time: String) -> (r: (String, JsonValue))
    ensures
        r.0@ == "time"@,
        r.1@ == JsonModel::Text(time@),
{
    (String::from_str("time"), JsonValue::Text(time))
}

/// Translates a Thin Edge JSON measurement, with a default time for one
/// that has none.
pub fn translate_measurement(payload: &[u8], default_time: Option<String>) -> (r: Result<
    String,
    ConversionError,
>)
    ensures
        match r {
            Ok(text) => measurement_payload(
                payload@,
                match default_time {
                    Some(time) => Some(time@),
                    None => None,
                },
            ) == Some(text@),
            Err(ConversionError::FromThinEdgeJsonParser(_)) => measurement_payload(
                payload@,
                match default_time {
                    Some(time) => Some(time@),
                    None => None,
                },
            ) is None,
            Err(_) => false,
        },
{
    let object = match JsonObject::parse(payload) {
        Ok(object) => object,
        Err(e) => {
            return Err(ConversionError::FromThinEdgeJsonParser(e));
        },
    };
    let ghost members = object.members();
    let mut out: Vec<(String, JsonValue)> = Vec::new();
    let mut timed: bool = false;
    let n: usize = object.len();
    let mut i: usize = 0;
    while i < n
        invariant
            n == members.len(),
            members == object.members(),
            parsed_object(payload@) == Some(members),
            i <= n,
            out@.len() == i,
            forall|k: int| 0 <= k < i ==> measurement_member(#[trigger] members[k]) is Some,
            forall|k: int|
                0 <= k < i ==> #[trigger] members_model(out@)[k] == measurement_member(
                    members[k],
                )->0,
            timed == has_time(members.take(i as int)),
        decreases n - i,
    {
        let key = object.key_at(i);
        let value = object.value_at(i);
        let ghost before = members_model(out@);
        let is_time = same_text(key, "time");
        let member = if is_time {
            match value {
                JsonValue::Text(time) => match rewrite_rfc3339(time.as_str()) {
                    Some(rewritten) => time_member(rewritten),
                    None => {
                        return Err(ConversionError::FromThinEdgeJsonParser(not_thin_edge_json()));
                    },
                },
                _ => {
                    return Err(ConversionError::FromThinEdgeJsonParser(not_thin_edge_json()));
                },
            }
        } else {
            match value {
                JsonValue::Number(_) => (String::from_str(key), value.clone()),
                JsonValue::Nested(group) => {
                    if !is_measurement_group(group.as_str()) {
                        return Err(ConversionError::FromThinEdgeJsonParser(not_thin_edge_json()));
                    }
                    (String::from_str(key), value.clone())
                },
                _ => {
                    return Err(ConversionError::FromThinEdgeJsonParser(not_thin_edge_json()));
                },
            }
        };
        out.push(member);
        proof {
            assert(members_model(out@)[i as int] == measurement_member(members[i as int])->0);
            assert forall|k: int| 0 <= k < i implies #[trigger] members_model(out@)[k]
                == measurement_member(members[k])->0 by {
                assert(members_model(out@)[k] == before[k]);
            }
            let upto = members.take(i + 1);
            if timed || is_time {
                if is_time {
                    assert(upto[i as int].0 == "time"@);
                } else {
                    let w = choose|w: int|
                        0 <= w < members.take(i as int).len() && (#[trigger] members.take(
                            i as int,
                        )[w]).0 == "time"@;
                    assert(upto[w].0 == "time"@);
                }
            } else {
                if has_time(upto) {
                    let w = choose|w: int| 0 <= w < upto.len() && (#[trigger] upto[w]).0 == "time"@;
                    if w < i {
                        assert(members.take(i as int)[w].0 == "time"@);
                    }
                }
            }
        }
        timed = timed || is_time;
        i = i + 1;
    }
    proof {
        assert(members.take(n as int) =~= members);
        assert(members_model(out@) =~= Seq::new(
            members.len(),
            |i: int| measurement_member(members[i])->0,
        ));
    }
    let ghost body = members_model(out@);
    match default_time {
        Some(time) => {
            if !timed {
                out.push(time_member(time));
                assert(members_model(out@) =~= body + seq![("time"@, JsonModel::Text(time@))]);
            } else {
                assert(members_model(out@) =~= body + Seq::<(Seq<char>, JsonModel)>::empty());
            }
        },
        None => {
            assert(members_model(out@) =~= body + Seq::<(Seq<char>, JsonModel)>::empty());
        },
    }
    Ok(members_to_text(&out))
}

/// The error that tells that a payload is no Thin Edge JSON measurement.
fn not_thin_edge_json() -> (r: JsonError)
    ensures
        r.message@ == "the payload is no Thin Edge JSON measurement"@,
{
    JsonError { message: String::from_str("the payload is no Thin Edge JSON measurement") }
}

/// Adds a default time to an event, an alarm or a health status that has
/// none.
pub fn add_default_time(payload: &[u8], default_time: Option<String>) -> (r: Result<
    String,
    ConversionError,
>)
    ensures
        match r {
            Ok(text) => timed_payload(
                payload@,
                match default_time {
                    Some(time) => Some(time@),
                    None => None,
                },
            ) == Some(text@),
            Err(ConversionError::FromSerdeJson(_)) => timed_payload(
                payload@,
                match default_time {
                    Some(time) => Some(time@),
                    None => None,
                },
            ) is None,
            Err(_) => false,
        },
{
    let mut object = match JsonObject::parse(payload) {
        Ok(object) => object,
        Err(e) => {
            return Err(ConversionError::FromSerdeJson(e));
        },
    };
    let ghost members = object.members();
    proof {
        object.lemma_members();
        crate::assoc::lemma_map_of(members);
    }
    match default_time {
        Some(time) => {
            proof {
                if !has_time(members) {
                    crate::assoc::lemma_with_pair_fresh(members, "time"@, JsonModel::Text(time@));
                    assert(members.push(("time"@, JsonModel::Text(time@))) =~= members + seq![
                        ("time"@, JsonModel::Text(time@)),
                    ]);
                    if object@.contains_key("time"@) {
                        let w = choose|w: int| 0 <= w < members.len() && members[w].0 == "time"@;
                        assert(members[w].0 == "time"@);
                    }
                } else {
                    let w = choose|w: int|
                        0 <= w < members.len() && (#[trigger] members[w]).0 == "time"@;
                    assert(object@.contains_key(members[w].0));
                    assert(members + Seq::<(Seq<char>, JsonModel)>::empty() =~= members);
                }
            }
            object.insert_if_absent(String::from_str("time"), JsonValue::Text(time));
        },
        None => {
            assert(members + Seq::<(Seq<char>, JsonModel)>::empty() =~= members);
        },
    }
    Ok(object.to_text())
}

/// What a converter listens to, and where it answers.
#[derive(Debug)]
pub struct MapperConfig {
    pub in_topic_filter: TopicFilter,
    pub out_topic: Topic,
    pub errors_topic: Topic,
}

/// The text of a default timestamp.
pub open spec fn default_time_text(default_timestamp: Option<Timestamp>) -> Option<Seq<char>> {
    match default_timestamp {
        Some(now) => rfc3339_text(now.unix_nanos as int, now.offset_seconds as int),
        None => None,
    }
}

/// Whether a default timestamp cannot be written.
pub open spec fn unwritable(default_timestamp: Option<Timestamp>) -> bool {
    default_timestamp is Some && default_time_text(default_timestamp) is None
}

fn write_default_time(default_timestamp: Option<Timestamp>) -> (r: Result<
    Option<String>,
    ConversionError,
>)
    ensures
        match r {
            Ok(text) => !unwritable(default_timestamp) && default_time_text(default_timestamp)
                == match text {
                Some(text) => Some(text@),
                None => None,
            },
            Err(ConversionError::FromTimeFormatError) => unwritable(default_timestamp),
            Err(_) => false,
        },
{
    match default_timestamp {
        Some(now) => match now.to_rfc3339() {
            Some(text) => Ok(Some(text)),
            None => Err(ConversionError::FromTimeFormatError),
        },
        None => Ok(None),
    }
}

/// The views of a list of messages.
pub open spec fn messages_model(messages: Seq<Message>) -> Seq<MessageModel> {
    Seq::new(messages.len(), |i: int| messages[i]@)
}

fn payload_is_text(message: &Message) -> (r: Result<(), ConversionError>)
    ensures
        match r {
            Ok(()) => vstd::utf8::valid_utf8(message.payload@),
            Err(ConversionError::FromMqttClient(e)) => !vstd::utf8::valid_utf8(message.payload@)
                && e is InvalidUtf8Payload,
            Err(_) => false,
        },
{
    match message.payload_str() {
        Ok(_) => Ok(()),
        Err(e) => Err(ConversionError::FromMqttClient(e)),
    }
}

fn one_message(message: Message) -> (r: Vec<Message>)
    ensures
        messages_model(r@) == seq![message@],
{
    let ghost model = message@;
    let mut all: Vec<Message> = Vec::new();
    all.push(message);
    assert(messages_model(all@) =~= seq![model]);
    all
}

fn no_message() -> (r: Vec<Message>)
    ensures
        messages_model(r@) == Seq::<MessageModel>::empty(),
{
    let none: Vec<Message> = Vec::new();
    assert(messages_model(none@) =~= Seq::<MessageModel>::empty());
    none
}

/// What a conversion for Azure comes to, for a message and a default
/// timestamp.
pub enum Outcome {
    Messages(Seq<MessageModel>),
    /// The message, or its translation, is larger than the cloud accepts:
    /// the topic and the size of the one that is.
    TooLarge { topic: Seq<char>, size: nat },
    NoText,
    NoThinEdgeJson,
    NoJson,
    NoTime,
    BadTopic,
}

/// How the answer of a converter stands for an outcome.
pub open spec fn answers(
    r: Result<Vec<Message>, ConversionError>,
    outcome: Outcome,
    threshold: usize,
) -> bool {
    match r {
        Ok(out) => outcome == Outcome::Messages(messages_model(out@)),
        Err(ConversionError::SizeThresholdExceeded { topic, actual_size, threshold: limit }) =>
            outcome == (Outcome::TooLarge { topic: topic@, size: actual_size as nat }) && limit
                == threshold,
        Err(ConversionError::FromMqttClient(e)) => (outcome is NoText && e is InvalidUtf8Payload)
            || (outcome is BadTopic && e is InvalidTopic),
        Err(ConversionError::FromThinEdgeJsonParser(_)) => outcome is NoThinEdgeJson,
        Err(ConversionError::FromSerdeJson(_)) => outcome is NoJson,
        Err(ConversionError::FromTimeFormatError) => outcome is NoTime,
        Err(_) => false,
    }
}

/// The one message that a converter emits, where it is not too large.
pub open spec fn emitted(topic: Seq<char>, payload: Seq<char>, threshold: usize) -> Outcome {
    let bytes = vstd::utf8::encode_utf8(payload);
    if bytes.len() > threshold {
        Outcome::TooLarge { topic: topic, size: bytes.len() }
    } else {
        Outcome::Messages(
            seq![
                MessageModel { topic: topic, payload: bytes, qos: QoS::AtLeastOnce, retain: false },
            ],
        )
    }
}

/// What the Azure converter makes of a message: a message that is too
/// large is refused; else its payload is translated as a Thin Edge JSON
/// measurement and emitted on the topic of the converter, unless that is
/// too large.
pub open spec fn azure_outcome(
    input: MessageModel,
    default_timestamp: Option<Timestamp>,
    threshold: usize,
    out_topic: Seq<char>,
) -> Outcome {
    if input.payload.len() > threshold {
        Outcome::TooLarge { topic: input.topic, size: input.payload.len() }
    } else if unwritable(default_timestamp) {
        Outcome::NoTime
    } else if !vstd::utf8::valid_utf8(input.payload) {
        Outcome::NoText
    } else {
        match measurement_payload(input.payload, default_time_text(default_timestamp)) {
            None => Outcome::NoThinEdgeJson,
            Some(payload) => emitted(out_topic, payload, threshold),
        }
    }
}

/// The part of a topic behind its first `/`.
pub open spec fn topic_suffix(topic: Seq<char>) -> Option<Seq<char>> {
    let first = crate::text::first_index_of(topic, '/');
    if first < topic.len() {
        Some(topic.subrange(first + 1, topic.len() as int))
    } else {
        None
    }
}

/// What the AWS converter makes of a message: a message that is too large
/// is refused; a measurement is translated as Thin Edge JSON; an event, an
/// alarm or a health status gets the default time where it has none; any
/// other message is dropped. The translation is emitted on `aws/td/` and
/// the part of the topic behind `tedge/`, unless it is too large.
pub open spec fn aws_outcome(
    input: MessageModel,
    default_timestamp: Option<Timestamp>,
    threshold: usize,
) -> Outcome {
    let measurement = "tedge/measurements"@.is_prefix_of(input.topic);
    let timed = "tedge/events"@.is_prefix_of(input.topic) || "tedge/alarms"@.is_prefix_of(
        input.topic,
    ) || "tedge/health"@.is_prefix_of(input.topic);
    if input.payload.len() > threshold {
        Outcome::TooLarge { topic: input.topic, size: input.payload.len() }
    } else if !measurement && !timed {
        Outcome::Messages(Seq::<MessageModel>::empty())
    } else if unwritable(default_timestamp) {
        Outcome::NoTime
    } else if measurement && !vstd::utf8::valid_utf8(input.payload) {
        Outcome::NoText
    } else {
        let payload = if measurement {
            measurement_payload(input.payload, default_time_text(default_timestamp))
        } else {
            timed_payload(input.payload, default_time_text(default_timestamp))
        };
        match payload {
            None => if measurement {
                Outcome::NoThinEdgeJson
            } else {
                Outcome::NoJson
            },
            Some(payload) => match topic_suffix(input.topic) {
                None => Outcome::Messages(Seq::<MessageModel>::empty()),
                Some(suffix) => if !crate::mqtt_channel::valid_topic("aws/td/"@ + suffix) {
                    Outcome::BadTopic
                } else {
                    emitted("aws/td/"@ + suffix, payload, threshold)
                },
            },
        }
    }
}

fn emit(topic: &Topic, payload: String, threshold: SizeThreshold) -> (r: Result<
    Vec<Message>,
    ConversionError,
>)
    ensures
        answers(r, emitted(topic.name@, payload@, threshold.0), threshold.0),
{
    let output = Message::new(topic, payload.as_str());
    match threshold.validate(&output) {
        Ok(()) => Ok(one_message(output)),
        Err(e) => Err(e),
    }
}

fn suffix_of(topic: &str) -> (r: Option<&str>)
    ensures
        match r {
            Some(suffix) => topic_suffix(topic@) == Some(suffix@),
            None => topic_suffix(topic@) is None,
        },
{
    let n: usize = topic.unicode_len();
    match crate::text::find_char(topic, '/') {
        Some(i) => Some(topic.substring_char(i + 1, n)),
        None => None,
    }
}

/// The converter for Azure.
pub struct AzureConverter<C> where C: Fn() -> Timestamp {
    pub add_timestamp: bool,
    pub clock: C,
    pub size_threshold: SizeThreshold,
    pub mapper_config: MapperConfig,
}

impl<C> AzureConverter<C> where C: Fn() -> Timestamp {
    /// A converter that accepts messages up to 128 KiB. Where
    /// `add_timestamp` is set, a measurement without a time gets that of the
    /// clock.
    pub fn new(add_timestamp: bool, clock: C) -> (r: Self)
        ensures
            r.add_timestamp == add_timestamp,
            r.clock == clock,
            r.size_threshold == SizeThreshold(AZ_MQTT_THRESHOLD),
            r.mapper_config.in_topic_filter@ == seq!["tedge/measurements"@, "tedge/measurements/+"@],
            r.mapper_config.out_topic.name@ == "az/messages/events/"@,
            r.mapper_config.errors_topic.name@ == "tedge/errors"@,
    {
        AzureConverter {
            add_timestamp,
            clock,
            size_threshold: SizeThreshold(AZ_MQTT_THRESHOLD),
            mapper_config: MapperConfig {
                in_topic_filter: Self::in_topic_filter(),
                out_topic: Topic::new_unchecked("az/messages/events/"),
                errors_topic: Topic::new_unchecked("tedge/errors"),
            },
        }
    }

    pub fn with_threshold(self, size_threshold: SizeThreshold) -> (r: Self)
        ensures
            r.add_timestamp == self.add_timestamp,
            r.clock == self.clock,
            r.size_threshold == size_threshold,
            r.mapper_config == self.mapper_config,
    {
        AzureConverter {
            add_timestamp: self.add_timestamp,
            clock: self.clock,
            size_threshold,
            mapper_config: self.mapper_config,
        }
    }

    /// The topics of the measurements of the main device and of its
    /// children.
    pub fn in_topic_filter() -> (r: TopicFilter)
        ensures
            r@ == seq!["tedge/measurements"@, "tedge/measurements/+"@],
    {
        let mut filter = TopicFilter::new_unchecked("tedge/measurements");
        filter.add_unchecked("tedge/measurements/+");
        assert(filter@ =~= seq!["tedge/measurements"@, "tedge/measurements/+"@]);
        filter
    }

    /// Converts a message for a given default timestamp.
    pub fn convert_at(&self, input: &Message, default_timestamp: Option<Timestamp>) -> (r: Result<
        Vec<Message>,
        ConversionError,
    >)
        ensures
            answers(
                r,
                azure_outcome(
                    input@,
                    default_timestamp,
                    self.size_threshold.0,
                    self.mapper_config.out_topic.name@,
                ),
                self.size_threshold.0,
            ),
    {
        match self.size_threshold.validate(input) {
            Ok(()) => {},
            Err(e) => {
                return Err(e);
            },
        }
        let default_time = match write_default_time(default_timestamp) {
            Ok(text) => text,
            Err(e) => {
                return Err(e);
            },
        };
        match payload_is_text(input) {
            Ok(()) => {},
            Err(e) => {
                return Err(e);
            },
        }
        let payload = match translate_measurement(input.payload_bytes(), default_time) {
            Ok(payload) => payload,
            Err(e) => {
                return Err(e);
            },
        };
        emit(&self.mapper_config.out_topic, payload, self.size_threshold)
    }

    /// Whether the clock may tell this time.
    pub open spec fn tells(&self, now: Timestamp) -> bool {
        self.clock.ensures((), now)
    }

    /// Whether an answer is that to a message for some time that the clock
    /// may tell.
    pub open spec fn converted(&self, input: MessageModel, r: Result<Vec<Message>, ConversionError>) -> bool {
        if self.add_timestamp {
            exists|now: Timestamp|
                self.tells(now) && #[trigger] answers(
                    r,
                    azure_outcome(
                        input,
                        Some(now),
                        self.size_threshold.0,
                        self.mapper_config.out_topic.name@,
                    ),
                    self.size_threshold.0,
                )
        } else {
            answers(
                r,
                azure_outcome(
                    input,
                    None,
                    self.size_threshold.0,
                    self.mapper_config.out_topic.name@,
                ),
                self.size_threshold.0,
            )
        }
    }

    /// Converts a message. No message that is emitted is larger than the
    /// threshold, and a message that is larger than the threshold is refused.
    pub fn convert(&mut self, input: &Message) -> (r: Result<Vec<Message>, ConversionError>)
        requires
            old(self).clock.requires(()),
        ensures
            *final(self) == *old(self),
            old(self).converted(input@, r),
            r matches Ok(out) ==> forall|i: int|
                0 <= i < out@.len() ==> (#[trigger] out@[i]).payload@.len() <= old(
                    self,
                ).size_threshold.0,
            input.payload@.len() > old(self).size_threshold.0 ==> (r matches Err(
                ConversionError::SizeThresholdExceeded { topic, actual_size, threshold },
            ) && topic@ == input.topic.name@ && actual_size == input.payload@.len() && threshold
                == old(self).size_threshold.0),
    {
        let default_timestamp = if self.add_timestamp {
            Some((self.clock)())
        } else {
            None
        };
        let r = self.convert_at(input, default_timestamp);
        proof {
            law_size_threshold(
                input@,
                default_timestamp,
                self.size_threshold.0,
                self.mapper_config.out_topic.name@,
            );
            law_within_threshold(
                r,
                azure_outcome(
                    input@,
                    default_timestamp,
                    self.size_threshold.0,
                    self.mapper_config.out_topic.name@,
                ),
                self.size_threshold.0,
            );
        }
        r
    }
}

/// Whether the messages of an outcome, if it has any, are within the
/// threshold.
pub open spec fn within_threshold(outcome: Outcome, threshold: usize) -> bool {
    match outcome {
        Outcome::Messages(out) => forall|i: int|
            0 <= i < out.len() ==> (#[trigger] out[i]).payload.len() <= threshold,
        _ => true,
    }
}

/// Every message of an answer that stands for an emission is within the
/// threshold.
pub proof fn law_within_threshold(
    r: Result<Vec<Message>, ConversionError>,
    outcome: Outcome,
    threshold: usize,
)
    requires
        answers(r, outcome, threshold),
        within_threshold(outcome, threshold),
    ensures
        r matches Ok(out) ==> forall|i: int|
            0 <= i < out@.len() ==> (#[trigger] out@[i]).payload@.len() <= threshold,
{
    match r {
        Ok(out) => {
            let models = messages_model(out@);
            assert(outcome == Outcome::Messages(models));
            assert forall|i: int| 0 <= i < out@.len() implies (#[trigger] out@[i]).payload@.len()
                <= threshold by {
                assert(models[i].payload.len() <= threshold);
                assert(models[i] == out@[i]@);
            }
        },
        Err(_) => {},
    }
}

/// A message larger than the threshold is refused by both converters, and
/// whatever they emit is within the threshold.
pub proof fn law_size_threshold(
    input: MessageModel,
    default_timestamp: Option<Timestamp>,
    threshold: usize,
    out_topic: Seq<char>,
)
    ensures
        input.payload.len() > threshold ==> azure_outcome(
            input,
            default_timestamp,
            threshold,
            out_topic,
        ) == (Outcome::TooLarge { topic: input.topic, size: input.payload.len() })
            && aws_outcome(input, default_timestamp, threshold) == (Outcome::TooLarge {
            topic: input.topic,
            size: input.payload.len(),
        }),
        within_threshold(azure_outcome(input, default_timestamp, threshold, out_topic), threshold),
        within_threshold(aws_outcome(input, default_timestamp, threshold), threshold),
{
}

/// The converter for AWS.
pub struct AwsConverter<C> where C: Fn() -> Timestamp {
    pub add_timestamp: bool,
    pub clock: C,
    pub size_threshold: SizeThreshold,
}

/// The topic on which a message for AWS is published.
pub fn make_valid_topic_or_panic(topic_name: &str) -> (r: Topic)
    requires
        crate::mqtt_channel::valid_topic(topic_name@),
    ensures
        r.name@ == topic_name@,
{
    Topic::new_unchecked(topic_name)
}

impl<C> AwsConverter<C> where C: Fn() -> Timestamp {
    /// A converter that accepts messages up to 255 KiB. Where
    /// `add_timestamp` is set, a message without a time gets that of the
    /// clock.
    pub fn new(add_timestamp: bool, clock: C) -> (r: Self)
        ensures
            r.add_timestamp == add_timestamp,
            r.clock == clock,
            r.size_threshold == SizeThreshold(AWS_MQTT_THRESHOLD),
    {
        AwsConverter { add_timestamp, clock, size_threshold: SizeThreshold(AWS_MQTT_THRESHOLD) }
    }

    pub fn with_threshold(self, size_threshold: SizeThreshold) -> (r: Self)
        ensures
            r.add_timestamp == self.add_timestamp,
            r.clock == self.clock,
            r.size_threshold == size_threshold,
    {
        AwsConverter { add_timestamp: self.add_timestamp, clock: self.clock, size_threshold }
    }

    /// The topics of measurements, health, events and alarms of the main
    /// device and of its children.
    pub fn in_topic_filter() -> (r: TopicFilter)
        ensures
            r@ == seq![
                "tedge/measurements"@,
                "tedge/measurements/+"@,
                "tedge/health"@,
                "tedge/health/+"@,
                "tedge/events/+"@,
                "tedge/events/+/+"@,
                "tedge/alarms/+/+"@,
                "tedge/alarms/+/+/+"@,
            ],
    {
        let mut filter = TopicFilter::new_unchecked("tedge/measurements");
        filter.add_unchecked("tedge/measurements/+");
        filter.add_unchecked("tedge/health");
        filter.add_unchecked("tedge/health/+");
        filter.add_unchecked("tedge/events/+");
        filter.add_unchecked("tedge/events/+/+");
        filter.add_unchecked("tedge/alarms/+/+");
        filter.add_unchecked("tedge/alarms/+/+/+");
        assert(filter@ =~= seq![
            "tedge/measurements"@,
            "tedge/measurements/+"@,
            "tedge/health"@,
            "tedge/health/+"@,
            "tedge/events/+"@,
            "tedge/events/+/+"@,
            "tedge/alarms/+/+"@,
            "tedge/alarms/+/+/+"@,
        ]);
        filter
    }

    /// Converts a message for a given default timestamp.
    pub fn convert_at(&self, input: &Message, default_timestamp: Option<Timestamp>) -> (r: Result<
        Vec<Message>,
        ConversionError,
    >)
        ensures
            answers(
                r,
                aws_outcome(input@, default_timestamp, self.size_threshold.0),
                self.size_threshold.0,
            ),
    {
        match self.size_threshold.validate(input) {
            Ok(()) => {},
            Err(e) => {
                return Err(e);
            },
        }
        let name = input.topic.name.as_str();
        let measurement = has_prefix(name, "tedge/measurements");
        let timed = has_prefix(name, "tedge/events") || has_prefix(name, "tedge/alarms")
            || has_prefix(name, "tedge/health");
        if !measurement && !timed {
            return Ok(no_message());
        }
        let default_time = match write_default_time(default_timestamp) {
            Ok(text) => text,
            Err(e) => {
                return Err(e);
            },
        };
        let payload = if measurement {
            match payload_is_text(input) {
                Ok(()) => {},
                Err(e) => {
                    return Err(e);
                },
            }
            match translate_measurement(input.payload_bytes(), default_time) {
                Ok(payload) => payload,
                Err(e) => {
                    return Err(e);
                },
            }
        } else {
            match add_default_time(input.payload_bytes(), default_time) {
                Ok(payload) => payload,
                Err(e) => {
                    return Err(e);
                },
            }
        };
        let suffix = match suffix_of(name) {
            Some(suffix) => suffix,
            None => {
                return Ok(no_message());
            },
        };
        let mut out_name = String::from_str("aws/td/");
        out_name.append(suffix);
        let out_topic = match Topic::new(out_name.as_str()) {
            Ok(topic) => topic,
            Err(e) => {
                return Err(ConversionError::FromMqttClient(e));
            },
        };
        emit(&out_topic, payload, self.size_threshold)
    }

    /// Whether the clock may tell this time.
    pub open spec fn tells(&self, now: Timestamp) -> bool {
        self.clock.ensures((), now)
    }

    /// Whether an answer is that to a message for some time that the clock
    /// may tell.
    pub open spec fn converted(&self, input: MessageModel, r: Result<Vec<Message>, ConversionError>) -> bool {
        if self.add_timestamp {
            exists|now: Timestamp|
                self.tells(now) && #[trigger] answers(
                    r,
                    aws_outcome(input, Some(now), self.size_threshold.0),
                    self.size_threshold.0,
                )
        } else {
            answers(r, aws_outcome(input, None, self.size_threshold.0), self.size_threshold.0)
        }
    }

    /// Converts a message. No message that is emitted is larger than the
    /// threshold, and a message that is larger than the threshold is refused.
    pub fn convert(&mut self, input: &Message) -> (r: Result<Vec<Message>, ConversionError>)
        requires
            old(self).clock.requires(()),
        ensures
            *final(self) == *old(self),
            old(self).converted(input@, r),
            r matches Ok(out) ==> forall|i: int|
                0 <= i < out@.len() ==> (#[trigger] out@[i]).payload@.len() <= old(
                    self,
                ).size_threshold.0,
            input.payload@.len() > old(self).size_threshold.0 ==> (r matches Err(
                ConversionError::SizeThresholdExceeded { topic, actual_size, threshold },
            ) && topic@ == input.topic.name@ && actual_size == input.payload@.len() && threshold
                == old(self).size_threshold.0),
    {
        let default_timestamp = if self.add_timestamp {
            Some((self.clock)())
        } else {
            None
        };
        let r = self.convert_at(input, default_timestamp);
        proof {
            law_size_threshold(input@, default_timestamp, self.size_threshold.0, Seq::empty());
            law_within_threshold(
                r,
                aws_outcome(input@, default_timestamp, self.size_threshold.0),
                self.size_threshold.0,
            );
        }
        r
    }
}

} // verus!
