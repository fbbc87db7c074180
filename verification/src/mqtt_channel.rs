//! MQTT messages as the agent exchanges them: topics, topic filters, quality
//! of service and payloads.

use crate::text::{has_char, levels};
use vstd::prelude::*;

verus! {

/// Quality of service of a publication.
#[derive(Debug, Clone, Copy, PartialEq, Eq, Structural)]
pub enum QoS {
    AtMostOnce,
    AtLeastOnce,
    ExactlyOnce,
}

/// What can be wrong with a topic, a filter or a payload.
#[derive(Debug)]
pub enum MqttError {
    /// The name holds a wildcard.
    InvalidTopic { name: String },
    /// The pattern is no topic filter.
    InvalidFilter { pattern: String },
    /// The payload is no UTF-8 text.
    InvalidUtf8Payload,
    /// A persistent session needs a name and may not be clean.
    InvalidSessionConfig,
    /// A quality of service other than 0, 1 and 2.
    InvalidQoS,
}

impl MqttError {
    /// The error in words.
    pub open spec fn text(&self) -> Seq<char> {
        match self {
            MqttError::InvalidTopic { name } => "Invalid topic name: "@ + name@,
            MqttError::InvalidFilter { pattern } => "Invalid topic filter: "@ + pattern@,
            MqttError::InvalidUtf8Payload => "Invalid UTF8 payload"@,
            MqttError::InvalidSessionConfig => "Invalid session: a session name must be provided"@,
            MqttError::InvalidQoS => "Invalid quality of service"@,
        }
    }

    /// The error in words.
    pub fn to_text(&self) -> (r: String)
        ensures
            r@ == self.text(),
    {
        match self {
            MqttError::InvalidTopic { name } => {
                let mut text = String::from_str("Invalid topic name: ");
                text.append(name.as_str());
                text
            },
            MqttError::InvalidFilter { pattern } => {
                let mut text = String::from_str("Invalid topic filter: ");
                text.append(pattern.as_str());
                text
            },
            MqttError::InvalidUtf8Payload => String::from_str("Invalid UTF8 payload"),
            MqttError::InvalidSessionConfig => String::from_str(
                "Invalid session: a session name must be provided",
            ),
            MqttError::InvalidQoS => String::from_str("Invalid quality of service"),
        }
    }
}

/// A topic name may hold neither `+` nor `#`.
pub open spec fn valid_topic(name: Seq<char>) -> bool {
    !name.contains('+') && !name.contains('#')
}

/// A topic filter is not empty; `#` stands only alone in the last level,
/// and `+` only alone in a level.
pub open spec fn valid_filter(pattern: Seq<char>) -> bool {
    let parts = levels(pattern);
    &&& pattern.len() > 0
    &&& forall|i: int|
        0 <= i < parts.len() - 1 ==> !(#[trigger] parts[i]).contains('#') && (parts[i].contains('+')
            ==> parts[i].len() == 1)
    &&& (parts.last().contains('#') || parts.last().contains('+')) ==> parts.last().len() == 1
}

/// Whether the levels of a topic match the levels of a filter, one by one:
/// `#` in the filter matches whatever is left of the topic, `+` matches any
/// one level but `#`, and any other level matches itself alone.
pub open spec fn levels_match(topic: Seq<Seq<char>>, pattern: Seq<Seq<char>>) -> bool
    decreases pattern.len(),
{
    if pattern.len() == 0 {
        topic.len() == 0
    } else if pattern[0] == seq!['#'] {
        true
    } else if topic.len() == 0 || topic[0] == seq!['#'] {
        false
    } else if pattern[0] == seq!['+'] || pattern[0] == topic[0] {
        levels_match(topic.drop_first(), pattern.drop_first())
    } else {
        false
    }
}

/// Whether a topic name matches a filter: its levels match those of the
/// filter, and it does not begin with `$`.
pub open spec fn filter_matches(topic: Seq<char>, pattern: Seq<char>) -> bool {
    !(topic.len() > 0 && topic[0] == '$') && levels_match(levels(topic), levels(pattern))
}

/// What `rumqttc::valid_filter` answers: it refuses the empty pattern, a
/// last level that holds a wildcard among other characters, and an earlier
/// level that holds `#` or holds `+` among other characters.
#[verifier::external_body]
fn is_valid_filter(pattern: &str) -> (r: bool)
    ensures
        r == valid_filter(pattern@),
{
    rumqttc::valid_filter(pattern)
}

/// What `rumqttc::matches` answers: a topic that begins with `$` matches
/// nothing; else topic and filter are split at `/` and compared level by
/// level, where `#` in the filter ends the comparison with a match, a level
/// `#` of the topic matches nothing, and `+` matches any other level. It cuts the
/// first byte off the topic, so the first character has to be a single byte.
#[verifier::external_body]
fn topic_matches(topic: &str, pattern: &str) -> (r: bool)
    requires
        topic@.len() == 0 || (topic@[0] as u32) < 128,
    ensures
        r == filter_matches(topic@, pattern@),
{
    rumqttc::matches(topic, pattern)
}

/// What `std::str::from_utf8` answers: the text of the bytes where they are
/// UTF-8, nothing where they are not.
#[verifier::external_body]
fn utf8_text(bytes: &[u8]) -> (r: Option<&str>)
    ensures
        match r {
            Some(text) => vstd::utf8::valid_utf8(bytes@) && text@ == vstd::utf8::decode_utf8(
                bytes@,
            ),
            None => !vstd::utf8::valid_utf8(bytes@),
        },
{
    std::str::from_utf8(bytes).ok()
}

/// An MQTT topic.
#[derive(Debug)]
pub struct Topic {
    pub name: String,
}

impl Clone for Topic {
    fn clone(&self) -> (r: Self)
        ensures
            r.name@ == self.name@,
    {
        Topic { name: self.name.clone() }
    }
}

impl Topic {
    /// The topic of a name without wildcards.
    pub fn new(name: &str) -> (r: Result<Topic, MqttError>)
        ensures
            match r {
                Ok(topic) => valid_topic(name@) && topic.name@ == name@,
                Err(MqttError::InvalidTopic { name: refused }) => !valid_topic(name@) && refused@
                    == name@,
                Err(_) => false,
            },
    {
        if has_char(name, '+') || has_char(name, '#') {
            Err(MqttError::InvalidTopic { name: String::from_str(name) })
        } else {
            Ok(Topic { name: String::from_str(name) })
        }
    }

    /// The topic of a name, taken as it is.
    pub fn new_unchecked(name: &str) -> (r: Topic)
        ensures
            r.name@ == name@,
    {
        Topic { name: String::from_str(name) }
    }
}

/// A set of topic filters.
#[derive(Debug)]
pub struct TopicFilter {
    pub patterns: Vec<String>,
}

/// The patterns of a filter as texts.
pub open spec fn patterns_model(patterns: Seq<String>) -> Seq<Seq<char>> {
    Seq::new(patterns.len(), |i: int| patterns[i]@)
}

/// Whether one of the patterns matches the topic.
pub open spec fn accepted(topic: Seq<char>, patterns: Seq<Seq<char>>) -> bool {
    (topic.len() == 0 || (topic[0] as u32) < 128) && exists|i: int|
        0 <= i < patterns.len() && filter_matches(topic, patterns[i])
}

impl View for TopicFilter {
    type V = Seq<Seq<char>>;

    open spec fn view(&self) -> Seq<Seq<char>> {
        patterns_model(self.patterns@)
    }
}

impl Clone for TopicFilter {
    fn clone(&self) -> (r: Self)
        ensures
            r@ == self@,
    {
        let mut r = TopicFilter::empty();
        r.add_all(self);
        assert(Seq::<Seq<char>>::empty() + self@ =~= self@);
        r
    }
}

impl TopicFilter {
    /// The filter of one pattern.
    pub fn new(pattern: &str) -> (r: Result<TopicFilter, MqttError>)
        ensures
            match r {
                Ok(filter) => valid_filter(pattern@) && filter@ == seq![pattern@],
                Err(MqttError::InvalidFilter { pattern: refused }) => !valid_filter(pattern@)
                    && refused@ == pattern@,
                Err(_) => false,
            },
    {
        let mut filter = TopicFilter::empty();
        match filter.add(pattern) {
            Ok(()) => {
                assert(filter@ =~= seq![pattern@]);
                Ok(filter)
            },
            Err(e) => Err(e),
        }
    }

    /// The filter of one pattern, taken as it is.
    pub fn new_unchecked(pattern: &str) -> (r: TopicFilter)
        ensures
            r@ == seq![pattern@],
    {
        let mut filter = TopicFilter::empty();
        filter.add_unchecked(pattern);
        assert(filter@ =~= seq![pattern@]);
        filter
    }

    /// The filter without patterns: it accepts nothing.
    pub fn empty() -> (r: TopicFilter)
        ensures
            r@ == Seq::<Seq<char>>::empty(),
    {
        let r = TopicFilter { patterns: Vec::new() };
        assert(r@ =~= Seq::<Seq<char>>::empty());
        r
    }

    /// Adds a pattern, where it is a topic filter.
    pub fn add(&mut self, pattern: &str) -> (r: Result<(), MqttError>)
        ensures
            match r {
                Ok(()) => valid_filter(pattern@) && final(self)@ == old(self)@.push(pattern@),
                Err(MqttError::InvalidFilter { pattern: refused }) => !valid_filter(pattern@)
                    && refused@ == pattern@ && final(self)@ == old(self)@,
                Err(_) => false,
            },
    {
        if is_valid_filter(pattern) {
            self.add_unchecked(pattern);
            Ok(())
        } else {
            Err(MqttError::InvalidFilter { pattern: String::from_str(pattern) })
        }
    }

    /// Adds a pattern as it is.
    pub fn add_unchecked(&mut self, pattern: &str)
        ensures
            final(self)@ == old(self)@.push(pattern@),
    {
        self.patterns.push(String::from_str(pattern));
        assert(self@ =~= old(self)@.push(pattern@));
    }

    /// Adds all the patterns of another filter.
    pub fn add_all(&mut self, other: &TopicFilter)
        ensures
            final(self)@ == old(self)@ + other@,
    {
        let n: usize = other.patterns.len();
        let mut i: usize = 0;
        assert(old(self)@ + other@.take(0) =~= old(self)@);
        while i < n
            invariant
                n == other.patterns@.len(),
                i <= n,
                self@ == old(self)@ + other@.take(i as int),
            decreases n - i,
        {
            self.add_unchecked(other.patterns[i].as_str());
            assert(old(self)@ + other@.take(i + 1) =~= (old(self)@ + other@.take(i as int)).push(
                other@[i as int],
            ));
            i = i + 1;
        }
        assert(other@.take(n as int) =~= other@);
    }

    /// Whether one of the patterns matches the topic name. A name that begins
    /// with a character of more than one byte is not accepted.
    pub fn accept_topic(&self, topic: &Topic) -> (r: bool)
        ensures
            r == accepted(topic.name@, self@),
    {
        let name = topic.name.as_str();
        if name.unicode_len() > 0 && (name.get_char(0) as u32) >= 128 {
            return false;
        }
        let n: usize = self.patterns.len();
        let mut i: usize = 0;
        while i < n
            invariant
                n == self.patterns@.len(),
                i <= n,
                name@ == topic.name@,
                name@.len() == 0 || (name@[0] as u32) < 128,
                forall|k: int| 0 <= k < i ==> !filter_matches(name@, #[trigger] self@[k]),
            decreases n - i,
        {
            if topic_matches(name, self.patterns[i].as_str()) {
                assert(filter_matches(name@, self@[i as int]));
                return true;
            }
            i = i + 1;
        }
        false
    }

    /// Whether the filter accepts the topic of a message.
    pub fn accept(&self, message: &Message) -> (r: bool)
        ensures
            r == accepted(message.topic.name@, self@),
    {
        self.accept_topic(&message.topic)
    }
}

/// A message on a topic.
#[derive(Debug)]
pub struct Message {
    pub topic: Topic,
    pub payload: Vec<u8>,
    pub qos: QoS,
    pub retain: bool,
}

/// The mathematical value of a [`Message`].
pub struct MessageModel {
    pub topic: Seq<char>,
    pub payload: Seq<u8>,
    pub qos: QoS,
    pub retain: bool,
}

impl View for Message {
    type V = MessageModel;

    open spec fn view(&self) -> MessageModel {
        MessageModel {
            topic: self.topic.name@,
            payload: self.payload@,
            qos: self.qos,
            retain: self.retain,
        }
    }
}

impl Clone for Message {
    fn clone(&self) -> (r: Self)
        ensures
            r@ == self@,
    {
        Message {
            topic: self.topic.clone(),
            payload: self.payload.clone(),
            qos: self.qos,
            retain: self.retain,
        }
    }
}

impl Message {
    /// A message with a text payload, delivered at least once, not retained.
    pub fn new(topic: &Topic, payload: &str) -> (r: Message)
        ensures
            r@ == (MessageModel {
                topic: topic.name@,
                payload: vstd::utf8::encode_utf8(payload@),
                qos: QoS::AtLeastOnce,
                retain: false,
            }),
    {
        Message {
            topic: topic.clone(),
            payload: payload.as_bytes_vec(),
            qos: QoS::AtLeastOnce,
            retain: false,
        }
    }

    /// A message with a payload of bytes, delivered at least once, not
    /// retained.
    pub fn from_bytes(topic: &Topic, payload: Vec<u8>) -> (r: Message)
        ensures
            r@ == (MessageModel {
                topic: topic.name@,
                payload: payload@,
                qos: QoS::AtLeastOnce,
                retain: false,
            }),
    {
        Message { topic: topic.clone(), payload, qos: QoS::AtLeastOnce, retain: false }
    }

    pub fn with_qos(self, qos: QoS) -> (r: Message)
        ensures
            r@ == (MessageModel { qos: qos, ..self@ }),
    {
        Message { topic: self.topic, payload: self.payload, qos, retain: self.retain }
    }

    pub fn with_retain(self) -> (r: Message)
        ensures
            r@ == (MessageModel { retain: true, ..self@ }),
    {
        Message { topic: self.topic, payload: self.payload, qos: self.qos, retain: true }
    }

    pub fn payload_bytes(&self) -> (r: &[u8])
        ensures
            r@ == self.payload@,
    {
        self.payload.as_slice()
    }

    /// The payload as text, where it is UTF-8.
    pub fn payload_str(&self) -> (r: Result<&str, MqttError>)
        ensures
            match r {
                Ok(text) => vstd::utf8::valid_utf8(self.payload@) && text@
                    == vstd::utf8::decode_utf8(self.payload@),
                Err(MqttError::InvalidUtf8Payload) => !vstd::utf8::valid_utf8(self.payload@),
                Err(_) => false,
            },
    {
        match utf8_text(self.payload.as_slice()) {
            Some(text) => Ok(text),
            None => Err(MqttError::InvalidUtf8Payload),
        }
    }
}

} // verus!
