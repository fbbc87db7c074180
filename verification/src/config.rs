//! The configuration of a connection to the local MQTT broker.

use crate::mqtt_channel::{Message, QoS, TopicFilter};
use vstd::prelude::*;

verus! {

/// The message that the broker publishes when a connection is lost.
#[derive(Debug)]
pub struct LastWill {
    pub topic: String,
    pub message: Vec<u8>,
    pub qos: QoS,
    pub retain: bool,
}

impl Clone for LastWill {
    fn clone(&self) -> (r: Self)
        ensures
            r.topic@ == self.topic@,
            r.message@ == self.message@,
            r.qos == self.qos,
            r.retain == self.retain,
    {
        LastWill {
            topic: self.topic.clone(),
            message: self.message.clone(),
            qos: self.qos,
            retain: self.retain,
        }
    }
}

/// The configuration of an MQTT connection.
#[derive(Debug)]
pub struct Config {
    /// The host of the broker.
    pub host: String,
    /// The TCP port on which the broker listens.
    pub port: u16,
    /// The name of the session. Without a name the session is clean and the
    /// client gets a random name.
    pub session_name: Option<String>,
    /// The topics to subscribe to on connect.
    pub subscriptions: TopicFilter,
    /// Whether the session is cleaned on connect.
    pub clean_session: bool,
    /// The capacity of the message queues.
    pub queue_capacity: usize,
    /// The largest payload of a message.
    pub max_packet_size: usize,
    /// The last will of the connection.
    pub last_will_message: Option<LastWill>,
}

/// What a client connects with.
#[derive(Debug)]
pub struct ConnectOptions {
    pub client_id: String,
    pub host: String,
    pub port: u16,
    pub clean_session: bool,
    pub max_packet_size: usize,
    pub last_will: Option<LastWill>,
}

/// Hands out what `fastrand::lowercase` answers: a character from `a` to
/// `z`, as a text.
#[verifier::external_body]
fn random_lowercase() -> (r: String)
    ensures
        r@.len() == 1,
        'a' <= r@[0] <= 'z',
{
    fastrand::lowercase().to_string()
}

/// A name of lower case letters.
pub open spec fn lowercase_name(name: Seq<char>, len: nat) -> bool {
    name.len() == len && forall|i: int| 0 <= i < name.len() ==> 'a' <= #[trigger] name[i] <= 'z'
}

/// A random name of ten lower case letters.
pub fn random_client_id() -> (r: String)
    ensures
        lowercase_name(r@, 10),
{
    let mut id = String::new();
    let mut i: usize = 0;
    while i < 10
        invariant
            i <= 10,
            lowercase_name(id@, i as nat),
        decreases 10 - i,
    {
        let letter = random_lowercase();
        id.append(letter.as_str());
        i = i + 1;
    }
    id
}

impl Default for Config {
    /// By default a client connects to the local broker.
    fn default() -> (r: Self)
        ensures
            r.host@ == "localhost"@,
            r.port == 1883,
            r.session_name is None,
            r.subscriptions@ == Seq::<Seq<char>>::empty(),
            !r.clean_session,
            r.queue_capacity == 1024,
            r.max_packet_size == 1024 * 1024,
            r.last_will_message is None,
    {
        Config {
            host: String::from_str("localhost"),
            port: 1883,
            session_name: None,
            subscriptions: TopicFilter::empty(),
            clean_session: false,
            queue_capacity: 1024,
            max_packet_size: 1024 * 1024,
            last_will_message: None,
        }
    }
}

impl Config {
    /// The default configuration for a host and a port.
    pub fn new(host: &str, port: u16) -> (r: Config)
        ensures
            r.host@ == host@,
            r.port == port,
            r.session_name is None,
            r.subscriptions@ == Seq::<Seq<char>>::empty(),
            !r.clean_session,
            r.queue_capacity == 1024,
            r.max_packet_size == 1024 * 1024,
            r.last_will_message is None,
    {
        Config::default().with_host(host).with_port(port)
    }

    /// Sets the host.
    pub fn with_host(self, host: &str) -> (r: Config)
        ensures
            r.host@ == host@,
            r.port == self.port,
            r.session_name == self.session_name,
            r.subscriptions == self.subscriptions,
            r.clean_session == self.clean_session,
            r.queue_capacity == self.queue_capacity,
            r.max_packet_size == self.max_packet_size,
            r.last_will_message == self.last_will_message,
    {
        Config {
            host: String::from_str(host),
            port: self.port,
            session_name: self.session_name,
            subscriptions: self.subscriptions,
            clean_session: self.clean_session,
            queue_capacity: self.queue_capacity,
            max_packet_size: self.max_packet_size,
            last_will_message: self.last_will_message,
        }
    }

    /// Sets the port.
    pub fn with_port(self, port: u16) -> (r: Config)
        ensures
            r.host == self.host,
            r.port == port,
            r.session_name == self.session_name,
            r.subscriptions == self.subscriptions,
            r.clean_session == self.clean_session,
            r.queue_capacity == self.queue_capacity,
            r.max_packet_size == self.max_packet_size,
            r.last_will_message == self.last_will_message,
    {
        Config {
            host: self.host,
            port,
            session_name: self.session_name,
            subscriptions: self.subscriptions,
            clean_session: self.clean_session,
            queue_capacity: self.queue_capacity,
            max_packet_size: self.max_packet_size,
            last_will_message: self.last_will_message,
        }
    }

    /// Sets the name of the session.
    pub fn with_session_name(self, name: &str) -> (r: Config)
        ensures
            r.host == self.host,
            r.port == self.port,
            r.session_name matches Some(session) && session@ == name@,
            r.subscriptions == self.subscriptions,
            r.clean_session == self.clean_session,
            r.queue_capacity == self.queue_capacity,
            r.max_packet_size == self.max_packet_size,
            r.last_will_message == self.last_will_message,
    {
        Config {
            host: self.host,
            port: self.port,
            session_name: Some(String::from_str(name)),
            subscriptions: self.subscriptions,
            clean_session: self.clean_session,
            queue_capacity: self.queue_capacity,
            max_packet_size: self.max_packet_size,
            last_will_message: self.last_will_message,
        }
    }

    /// Adds topics to subscribe to on connect.
    pub fn with_subscriptions(self, topics: TopicFilter) -> (r: Config)
        ensures
            r.host == self.host,
            r.port == self.port,
            r.session_name == self.session_name,
            r.subscriptions@ == self.subscriptions@ + topics@,
            r.clean_session == self.clean_session,
            r.queue_capacity == self.queue_capacity,
            r.max_packet_size == self.max_packet_size,
            r.last_will_message == self.last_will_message,
    {
        let mut subscriptions = self.subscriptions;
        subscriptions.add_all(&topics);
        Config {
            host: self.host,
            port: self.port,
            session_name: self.session_name,
            subscriptions,
            clean_session: self.clean_session,
            queue_capacity: self.queue_capacity,
            max_packet_size: self.max_packet_size,
            last_will_message: self.last_will_message,
        }
    }

    /// Sets whether the session is cleaned on connect.
    pub fn with_clean_session(self, flag: bool) -> (r: Config)
        ensures
            r.host == self.host,
            r.port == self.port,
            r.session_name == self.session_name,
            r.subscriptions == self.subscriptions,
            r.clean_session == flag,
            r.queue_capacity == self.queue_capacity,
            r.max_packet_size == self.max_packet_size,
            r.last_will_message == self.last_will_message,
    {
        Config {
            host: self.host,
            port: self.port,
            session_name: self.session_name,
            subscriptions: self.subscriptions,
            clean_session: flag,
            queue_capacity: self.queue_capacity,
            max_packet_size: self.max_packet_size,
            last_will_message: self.last_will_message,
        }
    }

    /// Sets the capacity of the message queues.
    pub fn with_queue_capacity(self, queue_capacity: usize) -> (r: Config)
        ensures
            r.host == self.host,
            r.port == self.port,
            r.session_name == self.session_name,
            r.subscriptions == self.subscriptions,
            r.clean_session == self.clean_session,
            r.queue_capacity == queue_capacity,
            r.max_packet_size == self.max_packet_size,
            r.last_will_message == self.last_will_message,
    {
        Config {
            host: self.host,
            port: self.port,
            session_name: self.session_name,
            subscriptions: self.subscriptions,
            clean_session: self.clean_session,
            queue_capacity,
            max_packet_size: self.max_packet_size,
            last_will_message: self.last_will_message,
        }
    }

    /// Sets the largest payload of a message.
    pub fn with_max_packet_size(self, max_packet_size: usize) -> (r: Config)
        ensures
            r.host == self.host,
            r.port == self.port,
            r.session_name == self.session_name,
            r.subscriptions == self.subscriptions,
            r.clean_session == self.clean_session,
            r.queue_capacity == self.queue_capacity,
            r.max_packet_size == max_packet_size,
            r.last_will_message == self.last_will_message,
    {
        Config {
            host: self.host,
            port: self.port,
            session_name: self.session_name,
            subscriptions: self.subscriptions,
            clean_session: self.clean_session,
            queue_capacity: self.queue_capacity,
            max_packet_size,
            last_will_message: self.last_will_message,
        }
    }

    /// Sets the last will: a message delivered at least once and not
    /// retained.
    pub fn with_last_will_message(self, topic: &str, payload: Vec<u8>) -> (r: Config)
        ensures
            r.host == self.host,
            r.port == self.port,
            r.session_name == self.session_name,
            r.subscriptions == self.subscriptions,
            r.clean_session == self.clean_session,
            r.queue_capacity == self.queue_capacity,
            r.max_packet_size == self.max_packet_size,
            r.last_will_message matches Some(will) && will.topic@ == topic@ && will.message@
                == payload@ && will.qos == QoS::AtLeastOnce && !will.retain,
    {
        Config {
            host: self.host,
            port: self.port,
            session_name: self.session_name,
            subscriptions: self.subscriptions,
            clean_session: self.clean_session,
            queue_capacity: self.queue_capacity,
            max_packet_size: self.max_packet_size,
            last_will_message: Some(
                LastWill {
                    topic: String::from_str(topic),
                    message: payload,
                    qos: QoS::AtLeastOnce,
                    retain: false,
                },
            ),
        }
    }

    /// Sets the last will to a message, with its quality of service and
    /// its retain flag.
    pub fn with_last_will(self, message: &Message) -> (r: Config)
        ensures
            r.host == self.host,
            r.port == self.port,
            r.session_name == self.session_name,
            r.subscriptions == self.subscriptions,
            r.clean_session == self.clean_session,
            r.queue_capacity == self.queue_capacity,
            r.max_packet_size == self.max_packet_size,
            r.last_will_message matches Some(will) && will.topic@ == message@.topic
                && will.message@ == message@.payload && will.qos == message@.qos && will.retain
                == message@.retain,
    {
        Config {
            host: self.host,
            port: self.port,
            session_name: self.session_name,
            subscriptions: self.subscriptions,
            clean_session: self.clean_session,
            queue_capacity: self.queue_capacity,
            max_packet_size: self.max_packet_size,
            last_will_message: Some(
                LastWill {
                    topic: message.topic.name.clone(),
                    message: message.payload.clone(),
                    qos: message.qos,
                    retain: message.retain,
                },
            ),
        }
    }

    /// What a client connects with: the session name as its name, or ten
    /// random lower case letters and a clean session where it has none.
    pub fn mqtt_options(&self) -> (r: ConnectOptions)
        ensures
            match self.session_name {
                Some(name) => r.client_id@ == name@ && r.clean_session == self.clean_session,
                None => lowercase_name(r.client_id@, 10) && r.clean_session,
            },
            r.host@ == self.host@,
            r.port == self.port,
            r.max_packet_size == self.max_packet_size,
            match (r.last_will, self.last_will_message) {
                (Some(will), Some(given)) => will.topic@ == given.topic@ && will.message@
                    == given.message@ && will.qos == given.qos && will.retain == given.retain,
                (None, None) => true,
                _ => false,
            },
    {
        let client_id = match &self.session_name {
            None => random_client_id(),
            Some(name) => name.clone(),
        };
        let clean_session = match &self.session_name {
            None => true,
            Some(_) => self.clean_session,
        };
        let last_will = match &self.last_will_message {
            Some(will) => Some(will.clone()),
            None => None,
        };
        ConnectOptions {
            client_id,
            host: self.host.clone(),
            port: self.port,
            clean_session,
            max_packet_size: self.max_packet_size,
            last_will,
        }
    }

    /// Whether a persistent session can be created: it has a name and is
    /// not cleaned on connect.
    pub fn check_session_to_init(&self) -> (r: Result<(), crate::mqtt_channel::MqttError>)
        ensures
            match r {
                Ok(()) => !self.clean_session && self.session_name is Some,
                Err(crate::mqtt_channel::MqttError::InvalidSessionConfig) => self.clean_session
                    || self.session_name is None,
                Err(_) => false,
            },
    {
        if self.clean_session || self.session_name.is_none() {
            Err(crate::mqtt_channel::MqttError::InvalidSessionConfig)
        } else {
            Ok(())
        }
    }

    /// Whether a persistent session can be cleared: it has a name.
    pub fn check_session_to_clear(&self) -> (r: Result<(), crate::mqtt_channel::MqttError>)
        ensures
            match r {
                Ok(()) => self.session_name is Some,
                Err(crate::mqtt_channel::MqttError::InvalidSessionConfig) => self.session_name
                    is None,
                Err(_) => false,
            },
    {
        if self.session_name.is_none() {
            Err(crate::mqtt_channel::MqttError::InvalidSessionConfig)
        } else {
            Ok(())
        }
    }
}

/// The number that a decimal digit stands for.
pub open spec fn digit_of(c: char) -> Option<nat> {
    if c == '0' {
        Some(0)
    } else if c == '1' {
        Some(1)
    } else if c == '2' {
        Some(2)
    } else if c == '3' {
        Some(3)
    } else if c == '4' {
        Some(4)
    } else if c == '5' {
        Some(5)
    } else if c == '6' {
        Some(6)
    } else if c == '7' {
        Some(7)
    } else if c == '8' {
        Some(8)
    } else if c == '9' {
        Some(9)
    } else {
        None
    }
}

/// The number that decimal digits stand for; none where there is no digit
/// or something else than a digit.
pub open spec fn number_of(digits: Seq<char>) -> Option<nat>
    decreases digits.len(),
{
    if digits.len() == 0 {
        None
    } else if digits.len() == 1 {
        digit_of(digits[0])
    } else {
        match (number_of(digits.drop_last()), digit_of(digits.last())) {
            (Some(high), Some(low)) => Some(high * 10 + low),
            _ => None,
        }
    }
}

/// A text without the `+` that it may begin with.
pub open spec fn unsigned(text: Seq<char>) -> Seq<char> {
    if text.len() > 0 && text[0] == '+' {
        text.drop_first()
    } else {
        text
    }
}

/// The quality of service that a text stands for: it is read as a decimal
/// number, which may begin with `+` and with zeros, and the numbers 0, 1 and 2
/// stand for the three qualities.
pub open spec fn qos_of(text: Seq<char>) -> Option<QoS> {
    match number_of(unsigned(text)) {
        Some(n) => if n == 0 {
            Some(QoS::AtMostOnce)
        } else if n == 1 {
            Some(QoS::AtLeastOnce)
        } else if n == 2 {
            Some(QoS::ExactlyOnce)
        } else {
            None
        },
        None => None,
    }
}

fn digit_value(c: char) -> (r: Option<u8>)
    ensures
        match r {
            Some(d) => digit_of(c) == Some(d as nat),
            None => digit_of(c) is None,
        },
{
    if c == '0' {
        Some(0)
    } else if c == '1' {
        Some(1)
    } else if c == '2' {
        Some(2)
    } else if c == '3' {
        Some(3)
    } else if c == '4' {
        Some(4)
    } else if c == '5' {
        Some(5)
    } else if c == '6' {
        Some(6)
    } else if c == '7' {
        Some(7)
    } else if c == '8' {
        Some(8)
    } else if c == '9' {
        Some(9)
    } else {
        None
    }
}

/// A number as far as it matters here: itself up to 2, and 3 for any
/// number above.
pub open spec fn capped(n: nat) -> nat {
    if n <= 2 {
        n
    } else {
        3
    }
}

/// Digits that hold something else than a digit stand for no number.
proof fn lemma_number_needs_digits(digits: Seq<char>, at: int)
    requires
        0 <= at < digits.len(),
        digit_of(digits[at]) is None,
    ensures
        number_of(digits) is None,
    decreases digits.len(),
{
    if digits.len() > 1 && at < digits.len() - 1 {
        lemma_number_needs_digits(digits.drop_last(), at);
    }
}

/// The number of digits followed by one more digit.
proof fn lemma_number_push(digits: Seq<char>, c: char)
    ensures
        number_of(digits.push(c)) == if digits.len() == 0 {
            digit_of(c)
        } else {
            match (number_of(digits), digit_of(c)) {
                (Some(high), Some(low)) => Some(high * 10 + low),
                _ => None,
            }
        },
{
    assert(digits.push(c).drop_last() =~= digits);
}

/// The capped number after one more digit.
fn with_digit(value: u8, d: u8) -> (r: u8)
    requires
        value <= 3,
        d <= 9,
    ensures
        r <= 3,
        forall|read: nat| #[trigger] capped(read) == value ==> r == capped((read * 10 + d) as nat),
{
    if value > 2 {
        3
    } else if value * 10 + d > 2 {
        3
    } else {
        value * 10 + d
    }
}

/// Reads a quality of service from a decimal number: 0, 1 or 2.
pub fn parse_qos(src: &str) -> (r: Result<QoS, crate::mqtt_channel::MqttError>)
    ensures
        match r {
            Ok(qos) => qos_of(src@) == Some(qos),
            Err(crate::mqtt_channel::MqttError::InvalidQoS) => qos_of(src@) is None,
            Err(_) => false,
        },
{
    let n: usize = src.unicode_len();
    let start: usize = if n > 0 && src.get_char(0) == '+' {
        1
    } else {
        0
    };
    let ghost digits = unsigned(src@);
    assert(digits =~= src@.subrange(start as int, n as int));
    if start == n {
        return Err(crate::mqtt_channel::MqttError::InvalidQoS);
    }
    let first = match digit_value(src.get_char(start)) {
        Some(d) => d,
        None => {
            proof {
                lemma_number_needs_digits(digits, 0);
            }
            return Err(crate::mqtt_channel::MqttError::InvalidQoS);
        },
    };
    let mut value: u8 = if first > 2 {
        3
    } else {
        first
    };
    let mut i: usize = start + 1;
    proof {
        lemma_number_push(Seq::<char>::empty(), digits[0]);
        assert(digits.take(1) =~= Seq::<char>::empty().push(digits[0]));
    }
    while i < n
        invariant
            n == src@.len(),
            start < i <= n,
            digits == unsigned(src@),
            digits == src@.subrange(start as int, n as int),
            value <= 3,
            number_of(digits.take(i - start)) is Some,
            capped(number_of(digits.take(i - start))->0) == value,
        decreases n - i,
    {
        let c = src.get_char(i);
        proof {
            assert(digits[i - start] == c);
            assert(digits.take(i + 1 - start) =~= digits.take(i - start).push(c));
            lemma_number_push(digits.take(i - start), c);
        }
        match digit_value(c) {
            Some(d) => {
                value = with_digit(value, d);
            },
            None => {
                proof {
                    lemma_number_needs_digits(digits, i - start);
                }
                return Err(crate::mqtt_channel::MqttError::InvalidQoS);
            },
        }
        i = i + 1;
    }
    assert(digits.take(n - start) =~= digits);
    if value == 0 {
        Ok(QoS::AtMostOnce)
    } else if value == 1 {
        Ok(QoS::AtLeastOnce)
    } else if value == 2 {
        Ok(QoS::ExactlyOnce)
    } else {
        Err(crate::mqtt_channel::MqttError::InvalidQoS)
    }
}

} // verus!
