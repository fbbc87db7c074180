//! Translation of the legacy telemetry topics `tedge/...` to the topics of
//! the entity scheme `te/device/<id>/...`.

use crate::assoc::{lemma_with_pair_fresh, map_of, with_pairs, without};
use crate::json::{object_text, parsed_object, JsonError, JsonModel, JsonObject, JsonValue};
use crate::mqtt_channel::{Message, MessageModel, MqttError, Topic, TopicFilter};
use crate::text::{has_prefix, levels, split_levels};
use crate::timestamp::{rewrite_rfc3339, rfc3339_rewritten};
use vstd::prelude::*;

verus! {

/// Why a legacy message is not translated.
#[derive(Debug)]
pub enum TedgetoTeConverterError {
    /// The topic has not the shape of its kind.
    UnsupportedTopic(String),
    /// The payload is no text.
    MqttError(MqttError),
    /// The payload of an alarm is not the JSON of an alarm.
    SerdeJsonError(JsonError),
}

/// The child device, if any, of a measurement topic: `tedge/measurements`
/// or `tedge/measurements/<child>`.
pub open spec fn measurement_topic_parts(topic: Seq<char>) -> Option<Option<Seq<char>>> {
    let ts = levels(topic);
    if ts.len() == 2 {
        Some(None)
    } else if ts.len() == 3 && ts[2].len() > 0 {
        Some(Some(ts[2]))
    } else {
        None
    }
}

/// The child device, if any, and the event type of an event topic:
/// `tedge/events/<type>` or `tedge/events/<child>/<type>`.
pub open spec fn event_topic_parts(topic: Seq<char>) -> Option<(Option<Seq<char>>, Seq<char>)> {
    let ts = levels(topic);
    if ts.len() == 3 && ts[2].len() > 0 {
        Some((None, ts[2]))
    } else if ts.len() == 4 && ts[2].len() > 0 && ts[3].len() > 0 {
        Some((Some(ts[2]), ts[3]))
    } else {
        None
    }
}

/// The child device, if any, the alarm type and the severity of an alarm
/// topic: `tedge/alarms/<severity>/<type>` or
/// `tedge/alarms/<severity>/<child>/<type>`.
pub open spec fn alarm_topic_parts(topic: Seq<char>) -> Option<
    (Option<Seq<char>>, Seq<char>, Seq<char>),
> {
    let ts = levels(topic);
    if ts.len() == 4 && ts[2].len() > 0 && ts[3].len() > 0 {
        Some((None, ts[3], ts[2]))
    } else if ts.len() == 5 && ts[2].len() > 0 && ts[3].len() > 0 && ts[4].len() > 0 {
        Some((Some(ts[3]), ts[4], ts[2]))
    } else {
        None
    }
}

/// The child device, if any, and the service name of a health topic:
/// `tedge/health/<service>` or `tedge/health/<child>/<service>`.
pub open spec fn health_topic_parts(topic: Seq<char>) -> Option<(Option<Seq<char>>, Seq<char>)> {
    let ts = levels(topic);
    if ts.len() == 3 && ts[2].len() > 0 {
        Some((None, ts[2]))
    } else if ts.len() == 4 && ts[2].len() > 0 && ts[3].len() > 0 {
        Some((Some(ts[2]), ts[3]))
    } else {
        None
    }
}

/// The view of an optional string slice.
pub open spec fn optional_text(text: Option<&str>) -> Option<Seq<char>> {
    match text {
        Some(text) => Some(text@),
        None => None,
    }
}

fn unsupported(topic: &str) -> (r: TedgetoTeConverterError)
    ensures
        r matches TedgetoTeConverterError::UnsupportedTopic(name) && name@ == topic@,
{
    TedgetoTeConverterError::UnsupportedTopic(String::from_str(topic))
}

/// Reads the child device and the event type from an event topic. A topic
/// of another shape is refused with `UnsupportedTopic` and the topic.
pub fn get_child_id_and_event_type<'a>(topic: &'a str) -> (r: Result<
    (Option<&'a str>, &'a str),
    TedgetoTeConverterError,
>)
    ensures
        match r {
            Ok((child, event_type)) => event_topic_parts(topic@) == Some(
                (optional_text(child), event_type@),
            ),
            Err(TedgetoTeConverterError::UnsupportedTopic(name)) => event_topic_parts(topic@) is None
                && name@ == topic@,
            Err(_) => false,
        },
{
    let ts = split_levels(topic);
    if ts.len() == 3 {
        if ts[2].is_empty() {
            Err(unsupported(topic))
        } else {
            Ok((None, ts[2]))
        }
    } else if ts.len() == 4 {
        if ts[2].is_empty() || ts[3].is_empty() {
            Err(unsupported(topic))
        } else {
            Ok((Some(ts[2]), ts[3]))
        }
    } else {
        Err(unsupported(topic))
    }
}

/// Reads the child device, the alarm type and the severity from an alarm
/// topic. A topic of another shape is refused with `UnsupportedTopic` and the
/// topic.
pub fn get_child_id_and_alarm_type_and_severity<'a>(topic: &'a str) -> (r: Result<
    (Option<&'a str>, &'a str, &'a str),
    TedgetoTeConverterError,
>)
    ensures
        match r {
            Ok((child, alarm_type, severity)) => alarm_topic_parts(topic@) == Some(
                (optional_text(child), alarm_type@, severity@),
            ),
            Err(TedgetoTeConverterError::UnsupportedTopic(name)) => alarm_topic_parts(topic@) is None
                && name@ == topic@,
            Err(_) => false,
        },
{
    let ts = split_levels(topic);
    if ts.len() == 4 {
        if ts[3].is_empty() || ts[2].is_empty() {
            Err(unsupported(topic))
        } else {
            Ok((None, ts[3], ts[2]))
        }
    } else if ts.len() == 5 {
        if ts[3].is_empty() || ts[4].is_empty() || ts[2].is_empty() {
            Err(unsupported(topic))
        } else {
            Ok((Some(ts[3]), ts[4], ts[2]))
        }
    } else {
        Err(unsupported(topic))
    }
}

/// Reads the child device from a measurement topic. A topic of another
/// shape is refused with `UnsupportedTopic` and the topic.
pub fn get_child_id_from_measurement_topic<'a>(topic: &'a str) -> (r: Result<
    Option<&'a str>,
    TedgetoTeConverterError,
>)
    ensures
        match r {
            Ok(child) => measurement_topic_parts(topic@) == Some(optional_text(child)),
            Err(TedgetoTeConverterError::UnsupportedTopic(name)) => measurement_topic_parts(topic@)
                is None && name@ == topic@,
            Err(_) => false,
        },
{
    let ts = split_levels(topic);
    if ts.len() == 2 {
        Ok(None)
    } else if ts.len() == 3 {
        if ts[2].is_empty() {
            Err(unsupported(topic))
        } else {
            Ok(Some(ts[2]))
        }
    } else {
        Err(unsupported(topic))
    }
}

/// Reads the child device and the service name from a health topic. A
/// topic of another shape is refused with `UnsupportedTopic` and the topic.
pub fn get_child_id_and_service_name<'a>(topic: &'a str) -> (r: Result<
    (Option<&'a str>, &'a str),
    TedgetoTeConverterError,
>)
    ensures
        match r {
            Ok((child, service)) => health_topic_parts(topic@) == Some(
                (optional_text(child), service@),
            ),
            Err(TedgetoTeConverterError::UnsupportedTopic(name)) => health_topic_parts(topic@)
                is None && name@ == topic@,
            Err(_) => false,
        },
{
    let ts = split_levels(topic);
    if ts.len() == 3 {
        if ts[2].is_empty() {
            Err(unsupported(topic))
        } else {
            Ok((None, ts[2]))
        }
    } else if ts.len() == 4 {
        if ts[2].is_empty() || ts[3].is_empty() {
            Err(unsupported(topic))
        } else {
            Ok((Some(ts[2]), ts[3]))
        }
    } else {
        Err(unsupported(topic))
    }
}

/// The device level of a translated topic: the child device, else `main`.
pub open spec fn device_level(child: Option<Seq<char>>) -> Seq<char> {
    match child {
        Some(child) => child,
        None => "main"@,
    }
}

/// Why a legacy message is not translated.
pub enum Refusal {
    UnsupportedTopic,
    NoAlarm,
}

/// What holds the place of a member of an alarm that may be a string.
pub open spec fn text_or_null(members: Map<Seq<char>, JsonModel>, key: Seq<char>) -> bool {
    !members.contains_key(key) || members[key] == JsonModel::Null || members[key] is Text
}

/// Whether the payload of an alarm can be read: `text` is a string, `null`
/// or absent; `time` is an RFC 3339 string that can be written back, `null`
/// or absent; `severity` is a string or absent.
pub open spec fn readable_alarm(members: Map<Seq<char>, JsonModel>) -> bool {
    &&& text_or_null(members, "text"@)
    &&& text_or_null(members, "time"@)
    &&& members.contains_key("time"@) && members["time"@] is Text ==> rfc3339_rewritten(
        members["time"@]->Text_0,
    ) is Some
    &&& members.contains_key("severity"@) ==> members["severity"@] is Text
}

/// The first members of a translated alarm: `text`, `null` where the
/// alarm has none; `time` where the alarm has one; the severity.
pub open spec fn alarm_head(text: JsonModel, time: Option<Seq<char>>, severity: Seq<char>) -> Seq<
    (Seq<char>, JsonModel),
> {
    let head = seq![("text"@, text)];
    let timed = match time {
        Some(time) => head.push(("time"@, JsonModel::Text(time))),
        None => head,
    };
    timed.push(("severity"@, JsonModel::Text(severity)))
}

/// The text of an alarm: that of its member `text`, where that is a string.
pub open spec fn alarm_text(members: Map<Seq<char>, JsonModel>) -> Option<Seq<char>> {
    if members.contains_key("text"@) && members["text"@] is Text {
        Some(members["text"@]->Text_0)
    } else {
        None
    }
}

/// The time of an alarm: that of its member `time`, rewritten, where that
/// is a string.
pub open spec fn alarm_time(members: Map<Seq<char>, JsonModel>) -> Option<Seq<char>> {
    if members.contains_key("time"@) && members["time"@] is Text {
        rfc3339_rewritten(members["time"@]->Text_0)
    } else {
        None
    }
}

/// The other members of an alarm: all but `text`, `time` and `severity`.
pub open spec fn alarm_rest(members: Seq<(Seq<char>, JsonModel)>) -> Seq<(Seq<char>, JsonModel)> {
    without(without(without(members, "text"@), "time"@), "severity"@)
}

/// A JSON string, or `null` where there is none.
pub open spec fn text_or_null_value(text: Option<Seq<char>>) -> JsonModel {
    match text {
        Some(text) => JsonModel::Text(text),
        None => JsonModel::Null,
    }
}

/// The members of a translated alarm: `text`, `null` where the alarm has
/// none; `time`, rewritten, where the alarm has one; the severity of the
/// topic; then the other members of the alarm in their order.
pub open spec fn alarm_members(members: Seq<(Seq<char>, JsonModel)>, severity: Seq<char>) -> Seq<
    (Seq<char>, JsonModel),
> {
    with_pairs(
        alarm_head(
            text_or_null_value(alarm_text(map_of(members))),
            alarm_time(map_of(members)),
            severity,
        ),
        alarm_rest(members),
    )
}

/// The payload of a translated alarm.
pub open spec fn alarm_payload(payload: Seq<u8>, severity: Seq<char>) -> Option<Seq<u8>> {
    match parsed_object(payload) {
        Some(members) => if readable_alarm(map_of(members)) {
            Some(vstd::utf8::encode_utf8(object_text(alarm_members(members, severity))))
        } else {
            None
        },
        None => None,
    }
}

/// The translation of a measurement: the same payload on
/// `te/device/<child or main>///m/`.
pub open spec fn translated_measurement(message: MessageModel) -> Result<MessageModel, Refusal> {
    match measurement_topic_parts(message.topic) {
        None => Err(Refusal::UnsupportedTopic),
        Some(child) => {
            Ok(
                MessageModel {
                    topic: "te/device/"@ + device_level(child) + "///m/"@,
                    payload: message.payload,
                    qos: message.qos,
                    retain: false,
                },
            )
        },
    }
}

/// The translation of an event: the same payload on
/// `te/device/<child or main>///e/<type>`.
pub open spec fn translated_event(message: MessageModel) -> Result<MessageModel, Refusal> {
    match event_topic_parts(message.topic) {
        None => Err(Refusal::UnsupportedTopic),
        Some((child, event_type)) => {
            Ok(
                MessageModel {
                    topic: "te/device/"@ + device_level(child) + "///e/"@ + event_type,
                    payload: message.payload,
                    qos: message.qos,
                    retain: false,
                },
            )
        },
    }
}

/// The translation of an alarm: on `te/device/<child or main>///a/<type>`,
/// the alarm with the severity of the topic in its payload.
pub open spec fn translated_alarm(message: MessageModel) -> Result<MessageModel, Refusal> {
    match alarm_topic_parts(message.topic) {
        None => Err(Refusal::UnsupportedTopic),
        Some((child, alarm_type, severity)) => {
            match alarm_payload(message.payload, severity) {
                None => Err(Refusal::NoAlarm),
                Some(payload) => Ok(
                    MessageModel {
                        topic: "te/device/"@ + device_level(child) + "///a/"@ + alarm_type,
                        payload: payload,
                        qos: message.qos,
                        retain: false,
                    },
                ),
            }
        },
    }
}

/// The translation of a health status: the same payload on
/// `te/device/<child or main>/service/<service>/status/health`.
pub open spec fn translated_health(message: MessageModel) -> Result<MessageModel, Refusal> {
    match health_topic_parts(message.topic) {
        None => Err(Refusal::UnsupportedTopic),
        Some((child, service)) => {
            Ok(
                MessageModel {
                    topic: "te/device/"@ + device_level(child) + "/service/"@ + service
                        + "/status/health"@,
                    payload: message.payload,
                    qos: message.qos,
                    retain: false,
                },
            )
        },
    }
}

/// The translation of a legacy message: that of its kind, told by the
/// beginning of its topic; nothing for a topic of no kind.
pub open spec fn translated(message: MessageModel) -> Result<Seq<MessageModel>, Refusal> {
    let one = if "tedge/measurements"@.is_prefix_of(message.topic) {
        Some(translated_measurement(message))
    } else if "tedge/events"@.is_prefix_of(message.topic) {
        Some(translated_event(message))
    } else if "tedge/alarms"@.is_prefix_of(message.topic) {
        Some(translated_alarm(message))
    } else if "tedge/health"@.is_prefix_of(message.topic) {
        Some(translated_health(message))
    } else {
        None
    };
    match one {
        Some(Ok(out)) => Ok(seq![out]),
        Some(Err(refusal)) => Err(refusal),
        None => Ok(Seq::<MessageModel>::empty()),
    }
}

/// How an error of the converter stands for a refusal.
pub open spec fn stands_for(
    error: TedgetoTeConverterError,
    refusal: Refusal,
    topic: Seq<char>,
) -> bool {
    match error {
        TedgetoTeConverterError::UnsupportedTopic(name) => refusal is UnsupportedTopic && name@
            == topic,
        TedgetoTeConverterError::MqttError(_) => false,
        TedgetoTeConverterError::SerdeJsonError(_) => refusal is NoAlarm,
    }
}

/// How the answer of a converting function stands for a translation.
pub open spec fn answers(
    r: Result<Message, TedgetoTeConverterError>,
    translation: Result<MessageModel, Refusal>,
    topic: Seq<char>,
) -> bool {
    match r {
        Ok(out) => translation == Ok::<MessageModel, Refusal>(out@),
        Err(e) => translation is Err && stands_for(e, translation->Err_0, topic),
    }
}

fn device_topic(child: Option<&str>) -> (r: String)
    ensures
        r@ == "te/device/"@ + device_level(optional_text(child)),
{
    let mut name = String::from_str("te/device/");
    match child {
        Some(child) => name.append(child),
        None => name.append("main"),
    }
    name
}

/// Translates a measurement.
pub fn convert_measurement(message: &Message) -> (r: Result<Message, TedgetoTeConverterError>)
    ensures
        answers(r, translated_measurement(message@), message@.topic),
{
    let child = match get_child_id_from_measurement_topic(message.topic.name.as_str()) {
        Ok(child) => child,
        Err(e) => {
            return Err(e);
        },
    };
    let mut name = device_topic(child);
    name.append("///m/");
    Ok(Message::from_bytes(&Topic { name }, message.payload.clone()).with_qos(message.qos))
}

/// Translates an event.
pub fn convert_event(message: &Message) -> (r: Result<Message, TedgetoTeConverterError>)
    ensures
        answers(r, translated_event(message@), message@.topic),
{
    let (child, event_type) = match get_child_id_and_event_type(message.topic.name.as_str()) {
        Ok(parts) => parts,
        Err(e) => {
            return Err(e);
        },
    };
    let mut name = device_topic(child);
    name.append("///e/");
    name.append(event_type);
    Ok(Message::from_bytes(&Topic { name }, message.payload.clone()).with_qos(message.qos))
}

/// Translates a health status.
pub fn convert_health_status_message(message: &Message) -> (r: Result<
    Message,
    TedgetoTeConverterError,
>)
    ensures
        answers(r, translated_health(message@), message@.topic),
{
    let (child, service) = match get_child_id_and_service_name(message.topic.name.as_str()) {
        Ok(parts) => parts,
        Err(e) => {
            return Err(e);
        },
    };
    let mut name = device_topic(child);
    name.append("/service/");
    name.append(service);
    name.append("/status/health");
    Ok(Message::from_bytes(&Topic { name }, message.payload.clone()).with_qos(message.qos))
}

/// The error that tells why a payload is no alarm.
fn no_alarm(reason: &str) -> (r: TedgetoTeConverterError)
    ensures
        r matches TedgetoTeConverterError::SerdeJsonError(error) && error.message@ == reason@,
{
    TedgetoTeConverterError::SerdeJsonError(JsonError { message: String::from_str(reason) })
}

/// An alarm as the legacy topics carry it.
#[derive(Debug)]
pub struct ThinEdgeAlarmData {
    pub text: Option<String>,
    /// The time of the alarm, as RFC 3339 text.
    pub time: Option<String>,
    pub severity: String,
    /// All the other members of the alarm.
    pub alarm_data: JsonObject,
}

/// The view of an optional text.
pub open spec fn optional_string(text: Option<String>) -> Option<Seq<char>> {
    match text {
        Some(text) => Some(text@),
        None => None,
    }
}

impl ThinEdgeAlarmData {
    /// Reads an alarm from a payload: a JSON object whose `text` is a
    /// string, `null` or absent, whose `time` is an RFC 3339 string, `null`
    /// or absent, and whose `severity` is a string or absent.
    pub fn parse(payload: &[u8]) -> (r: Result<ThinEdgeAlarmData, TedgetoTeConverterError>)
        ensures
            match r {
                Ok(alarm) => parsed_object(payload@) matches Some(members) && readable_alarm(
                    map_of(members),
                ) && optional_string(alarm.text) == alarm_text(map_of(members)) && optional_string(
                    alarm.time,
                ) == alarm_time(map_of(members)) && alarm.alarm_data.members() == alarm_rest(
                    members,
                ) && alarm.severity@ == (if map_of(members).contains_key("severity"@) {
                    map_of(members)["severity"@]->Text_0
                } else {
                    Seq::<char>::empty()
                }),
                Err(e) => e is SerdeJsonError && (parsed_object(payload@) matches Some(members)
                    ==> !readable_alarm(map_of(members))),
            },
    {
        let mut alarm = match JsonObject::parse(payload) {
            Ok(alarm) => alarm,
            Err(e) => {
                return Err(TedgetoTeConverterError::SerdeJsonError(e));
            },
        };
        proof {
            alarm.lemma_members();
            reveal_strlit("text");
            reveal_strlit("time");
            reveal_strlit("severity");
            assert("text"@.len() == 4 && "time"@.len() == 4 && "severity"@.len() == 8);
            assert("text"@[1] != "time"@[1]);
        }
        let text = match alarm.remove("text") {
            Some(JsonValue::Text(text)) => Some(text),
            Some(JsonValue::Null) => None,
            None => None,
            Some(_) => {
                return Err(no_alarm("invalid type: expected a string for `text`"));
            },
        };
        let time = match alarm.remove("time") {
            Some(JsonValue::Text(time)) => match rewrite_rfc3339(time.as_str()) {
                Some(time) => Some(time),
                None => {
                    return Err(no_alarm("invalid value: expected an RFC 3339 date for `time`"));
                },
            },
            Some(JsonValue::Null) => None,
            None => None,
            Some(_) => {
                return Err(no_alarm("invalid type: expected a string for `time`"));
            },
        };
        let severity = match alarm.remove("severity") {
            Some(JsonValue::Text(severity)) => severity,
            None => String::new(),
            Some(_) => {
                return Err(no_alarm("invalid type: expected a string for `severity`"));
            },
        };
        Ok(ThinEdgeAlarmData { text, time, severity, alarm_data: alarm })
    }

    /// The alarm as JSON: `text`, `time` where it has one, `severity`, and
    /// then its other members.
    pub fn to_text(&self) -> (r: String)
        ensures
            r@ == object_text(
                with_pairs(
                    alarm_head(
                        text_or_null_value(optional_string(self.text)),
                        optional_string(self.time),
                        self.severity@,
                    ),
                    self.alarm_data.members(),
                ),
            ),
    {
        proof {
            reveal_strlit("text");
            reveal_strlit("time");
            reveal_strlit("severity");
            assert("text"@.len() == 4 && "time"@.len() == 4 && "severity"@.len() == 8);
            assert("text"@[1] != "time"@[1]);
        }
        let mut out = JsonObject::new();
        let text = match &self.text {
            Some(text) => JsonValue::Text(text.clone()),
            None => JsonValue::Null,
        };
        let ghost text_model = text@;
        proof {
            lemma_with_pair_fresh(out.members(), "text"@, text_model);
        }
        let _ = out.insert(String::from_str("text"), text);
        assert(out.members() =~= seq![("text"@, text_model)]);
        match &self.time {
            Some(time) => {
                proof {
                    lemma_with_pair_fresh(out.members(), "time"@, JsonModel::Text(time@));
                }
                let _ = out.insert(String::from_str("time"), JsonValue::Text(time.clone()));
            },
            None => {},
        }
        proof {
            lemma_with_pair_fresh(out.members(), "severity"@, JsonModel::Text(self.severity@));
        }
        let _ = out.insert(String::from_str("severity"), JsonValue::Text(self.severity.clone()));
        out.extend(&self.alarm_data);
        out.to_text()
    }
}

/// The payload of an alarm with the severity of its topic.
pub fn alarm_with_severity(payload: &[u8], severity: &str) -> (r: Result<
    String,
    TedgetoTeConverterError,
>)
    ensures
        match r {
            Ok(text) => alarm_payload(payload@, severity@) == Some(vstd::utf8::encode_utf8(text@)),
            Err(e) => alarm_payload(payload@, severity@) is None && e is SerdeJsonError,
        },
{
    let mut alarm = match ThinEdgeAlarmData::parse(payload) {
        Ok(alarm) => alarm,
        Err(e) => {
            return Err(e);
        },
    };
    alarm.severity = String::from_str(severity);
    Ok(alarm.to_text())
}

/// Translates an alarm.
pub fn convert_alarm(message: &Message) -> (r: Result<Message, TedgetoTeConverterError>)
    ensures
        answers(r, translated_alarm(message@), message@.topic),
{
    let (child, alarm_type, severity) = match get_child_id_and_alarm_type_and_severity(
        message.topic.name.as_str(),
    ) {
        Ok(parts) => parts,
        Err(e) => {
            return Err(e);
        },
    };
    let payload = match alarm_with_severity(message.payload_bytes(), severity) {
        Ok(payload) => payload,
        Err(e) => {
            return Err(e);
        },
    };
    let mut name = device_topic(child);
    name.append("///a/");
    name.append(alarm_type);
    Ok(Message::new(&Topic { name }, payload.as_str()).with_qos(message.qos))
}

/// The views of a list of messages.
pub open spec fn messages_model(messages: Seq<Message>) -> Seq<MessageModel> {
    Seq::new(messages.len(), |i: int| messages[i]@)
}

/// Translates a legacy message to the messages of the entity scheme that
/// stand for it.
pub fn process_mqtt_message(message: &Message) -> (r: Result<Vec<Message>, TedgetoTeConverterError>)
    ensures
        translates(r, message@),
{
    let name = message.topic.name.as_str();
    let one = if has_prefix(name, "tedge/measurements") {
        convert_measurement(message)
    } else if has_prefix(name, "tedge/events") {
        convert_event(message)
    } else if has_prefix(name, "tedge/alarms") {
        convert_alarm(message)
    } else if has_prefix(name, "tedge/health") {
        convert_health_status_message(message)
    } else {
        let none: Vec<Message> = Vec::new();
        assert(messages_model(none@) =~= Seq::<MessageModel>::empty());
        return Ok(none);
    };
    match one {
        Ok(out) => {
            let mut all: Vec<Message> = Vec::new();
            let ghost model = out@;
            all.push(out);
            assert(messages_model(all@) =~= seq![model]);
            Ok(all)
        },
        Err(e) => Err(e),
    }
}

/// Whether an answer is the translation of a message.
pub open spec fn translates(
    r: Result<Vec<Message>, TedgetoTeConverterError>,
    message: MessageModel,
) -> bool {
    match r {
        Ok(out) => translated(message) == Ok::<Seq<MessageModel>, Refusal>(messages_model(out@)),
        Err(e) => translated(message) is Err && stands_for(
            e,
            translated(message)->Err_0,
            message.topic,
        ),
    }
}

/// The translation is a function of the message: two answers to the same
/// message succeed or fail together, and where they succeed they hold the
/// same messages, byte for byte.
pub proof fn law_translation_is_a_function(
    first: Result<Vec<Message>, TedgetoTeConverterError>,
    second: Result<Vec<Message>, TedgetoTeConverterError>,
    message: MessageModel,
)
    requires
        translates(first, message),
        translates(second, message),
    ensures
        first is Ok <==> second is Ok,
        match (first, second) {
            (Ok(a), Ok(b)) => messages_model(a@) == messages_model(b@),
            _ => true,
        },
{
}

/// A translation keeps the quality of service of the legacy message.
pub proof fn law_translation_keeps_qos(message: MessageModel)
    ensures
        translated(message) matches Ok(out) ==> forall|i: int|
            0 <= i < out.len() ==> (#[trigger] out[i]).qos == message.qos,
{
}

/// What makes the converter of the legacy topics.
#[derive(Debug)]
pub struct TedgetoTeConverterBuilder {
    pub service_name: String,
    pub subscriptions: TopicFilter,
}

impl TedgetoTeConverterBuilder {
    /// The builder of a converter, which listens on the legacy topics of
    /// measurements, events, alarms and health, of the main device and of its
    /// children.
    pub fn new(service_name: &str) -> (r: TedgetoTeConverterBuilder)
        ensures
            r.service_name@ == service_name@,
            r.subscriptions@ == seq![
                "tedge/measurements"@,
                "tedge/measurements/+"@,
                "tedge/events/+"@,
                "tedge/events/+/+"@,
                "tedge/alarms/+/+"@,
                "tedge/alarms/+/+/+"@,
                "tedge/health/+"@,
                "tedge/health/+/+"@,
            ],
    {
        let mut subscriptions = TopicFilter::new_unchecked("tedge/measurements");
        subscriptions.add_unchecked("tedge/measurements/+");
        subscriptions.add_unchecked("tedge/events/+");
        subscriptions.add_unchecked("tedge/events/+/+");
        subscriptions.add_unchecked("tedge/alarms/+/+");
        subscriptions.add_unchecked("tedge/alarms/+/+/+");
        subscriptions.add_unchecked("tedge/health/+");
        subscriptions.add_unchecked("tedge/health/+/+");
        assert(subscriptions@ =~= seq![
            "tedge/measurements"@,
            "tedge/measurements/+"@,
            "tedge/events/+"@,
            "tedge/events/+/+"@,
            "tedge/alarms/+/+"@,
            "tedge/alarms/+/+/+"@,
            "tedge/health/+"@,
            "tedge/health/+/+"@,
        ]);
        TedgetoTeConverterBuilder { service_name: String::from_str(service_name), subscriptions }
    }

    /// The converter.
    pub fn build(self) -> (r: TedgetoTeConverterActor)
        ensures
            r.service_name == self.service_name,
    {
        TedgetoTeConverterActor { service_name: self.service_name }
    }
}

/// The converter of the legacy topics.
#[derive(Debug)]
pub struct TedgetoTeConverterActor {
    pub service_name: String,
}

impl TedgetoTeConverterActor {
    pub fn new(service_name: String) -> (r: TedgetoTeConverterActor)
        ensures
            r.service_name == service_name,
    {
        TedgetoTeConverterActor { service_name }
    }

    pub fn name(&self) -> (r: &'static str)
        ensures
            r@ == "TedgetoTeConverterActor"@,
    {
        "TedgetoTeConverterActor"
    }

    /// Translates a legacy message to the messages of the entity scheme
    /// that stand for it.
    pub fn process_mqtt_message(&mut self, message: &Message) -> (r: Result<
        Vec<Message>,
        TedgetoTeConverterError,
    >)
        ensures
            *final(self) == *old(self),
            translates(r, message@),
    {
        process_mqtt_message(message)
    }
}

} // verus!
