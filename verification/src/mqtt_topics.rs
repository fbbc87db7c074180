//! Entity topic identifiers: the four levels `<class>/<name>/<kind>/<qualifier>`
//! that name an entity inside the local MQTT topics. The default scheme is
//! `device/<device-id>/service/<service-name>`, with the last two levels empty
//! for a device.

use crate::mqtt_channel::Topic;
use crate::text::{has_char, has_prefix, levels, same_text, split_levels};
use vstd::prelude::*;

verus! {

/// Why a text is no entity topic identifier.
#[derive(Debug, Clone, Copy, PartialEq, Eq, Structural)]
pub enum TopicIdError {
    /// More than four levels.
    TooLong,
    /// A wildcard character, `+` or `#`, in it.
    InvalidMqttTopic,
}

/// An entity topic identifier.
#[derive(Debug)]
pub struct EntityTopicId {
    class: String,
    name: String,
    kind: String,
    qualifier: String,
}

/// The four levels of an entity topic identifier.
pub struct TopicIdModel {
    pub class: Seq<char>,
    pub name: Seq<char>,
    pub kind: Seq<char>,
    pub qualifier: Seq<char>,
}

impl View for EntityTopicId {
    type V = TopicIdModel;

    closed spec fn view(&self) -> TopicIdModel {
        TopicIdModel {
            class: self.class@,
            name: self.name@,
            kind: self.kind@,
            qualifier: self.qualifier@,
        }
    }
}

/// The identifier as it stands in a topic: its levels with `/` between them.
pub open spec fn topic_id_text(id: TopicIdModel) -> Seq<char> {
    id.class + "/"@ + id.name + "/"@ + id.kind + "/"@ + id.qualifier
}

/// A topic name may hold neither `+` nor `#`.
pub open spec fn valid_topic_name(name: Seq<char>) -> bool {
    !name.contains('+') && !name.contains('#')
}

/// The level at a position, empty where the text has fewer levels.
pub open spec fn level_or_empty(levels: Seq<Seq<char>>, i: int) -> Seq<char> {
    if 0 <= i < levels.len() {
        levels[i]
    } else {
        Seq::<char>::empty()
    }
}

/// What a text is read as: up to four levels, the missing ones empty, none
/// with a wildcard.
pub open spec fn parsed_topic_id(text: Seq<char>) -> Result<TopicIdModel, TopicIdError> {
    let levels = crate::text::levels(text);
    if levels.len() > 4 {
        Err(TopicIdError::TooLong)
    } else if !valid_topic_name(text) {
        Err(TopicIdError::InvalidMqttTopic)
    } else {
        Ok(
            TopicIdModel {
                class: level_or_empty(levels, 0),
                name: level_or_empty(levels, 1),
                kind: level_or_empty(levels, 2),
                qualifier: level_or_empty(levels, 3),
            },
        )
    }
}

/// The identifier of the main device in the default scheme: `device/main//`.
pub open spec fn main_device_id() -> TopicIdModel {
    TopicIdModel {
        class: "device"@,
        name: "main"@,
        kind: Seq::<char>::empty(),
        qualifier: Seq::<char>::empty(),
    }
}

/// The identifier of a device in the default scheme: `device/<name>//`.
pub open spec fn device_id(name: Seq<char>) -> TopicIdModel {
    TopicIdModel {
        class: "device"@,
        name: name,
        kind: Seq::<char>::empty(),
        qualifier: Seq::<char>::empty(),
    }
}

/// The device name of an identifier of the default scheme: that of
/// `device/<name>//` and of `device/<name>/service/<service>`.
pub open spec fn device_name_of(id: TopicIdModel) -> Option<Seq<char>> {
    if id.class == "device"@ && (id.kind == "service"@ || (id.kind.len() == 0 && id.qualifier.len()
        == 0)) {
        Some(id.name)
    } else {
        None
    }
}

/// The service name of an identifier `device/<name>/service/<service>`.
pub open spec fn service_name_of(id: TopicIdModel) -> Option<Seq<char>> {
    if id.class == "device"@ && id.kind == "service"@ {
        Some(id.qualifier)
    } else {
        None
    }
}

/// The device that an identifier of the default scheme belongs to.
pub open spec fn default_parent_of(id: TopicIdModel) -> Option<TopicIdModel> {
    match device_name_of(id) {
        Some(name) => Some(device_id(name)),
        None => None,
    }
}

impl Clone for EntityTopicId {
    fn clone(&self) -> (r: Self)
        ensures
            r@ == self@,
    {
        EntityTopicId {
            class: self.class.clone(),
            name: self.name.clone(),
            kind: self.kind.clone(),
            qualifier: self.qualifier.clone(),
        }
    }
}

impl EntityTopicId {
    /// Reads an identifier from a text of up to four levels.
    pub fn from_str(entity_id: &str) -> (r: Result<EntityTopicId, TopicIdError>)
        ensures
            match r {
                Ok(id) => parsed_topic_id(entity_id@) == Ok::<TopicIdModel, TopicIdError>(id@),
                Err(e) => parsed_topic_id(entity_id@) == Err::<TopicIdModel, TopicIdError>(e),
            },
    {
        let levels = split_levels(entity_id);
        if levels.len() > 4 {
            return Err(TopicIdError::TooLong);
        }
        if has_char(entity_id, '+') || has_char(entity_id, '#') {
            return Err(TopicIdError::InvalidMqttTopic);
        }
        let class = String::from_str(levels[0]);
        let name = if levels.len() > 1 {
            String::from_str(levels[1])
        } else {
            String::new()
        };
        let kind = if levels.len() > 2 {
            String::from_str(levels[2])
        } else {
            String::new()
        };
        let qualifier = if levels.len() > 3 {
            String::from_str(levels[3])
        } else {
            String::new()
        };
        Ok(EntityTopicId { class, name, kind, qualifier })
    }

    /// The identifier of the main device in the default scheme.
    pub fn default_main_device() -> (r: EntityTopicId)
        ensures
            r@ == main_device_id(),
    {
        EntityTopicId {
            class: String::from_str("device"),
            name: String::from_str("main"),
            kind: String::new(),
            qualifier: String::new(),
        }
    }

    /// The identifier `device/<child>//`, read from that text.
    pub fn default_child_device(child: &str) -> (r: Result<EntityTopicId, TopicIdError>)
        ensures
            match r {
                Ok(id) => parsed_topic_id("device/"@ + child@ + "//"@) == Ok::<
                    TopicIdModel,
                    TopicIdError,
                >(id@),
                Err(e) => parsed_topic_id("device/"@ + child@ + "//"@) == Err::<
                    TopicIdModel,
                    TopicIdError,
                >(e),
            },
    {
        let mut text = String::from_str("device/");
        text.append(child);
        text.append("//");
        EntityTopicId::from_str(text.as_str())
    }

    /// The identifier `device/main/service/<service>`, read from that text.
    pub fn default_main_service(service: &str) -> (r: Result<EntityTopicId, TopicIdError>)
        ensures
            match r {
                Ok(id) => parsed_topic_id("device/main/service/"@ + service@) == Ok::<
                    TopicIdModel,
                    TopicIdError,
                >(id@),
                Err(e) => parsed_topic_id("device/main/service/"@ + service@) == Err::<
                    TopicIdModel,
                    TopicIdError,
                >(e),
            },
    {
        let mut text = String::from_str("device/main/service/");
        text.append(service);
        EntityTopicId::from_str(text.as_str())
    }

    /// The identifier `device/<child>/service/<service>`, read from that
    /// text.
    pub fn default_child_service(child: &str, service: &str) -> (r: Result<
        EntityTopicId,
        TopicIdError,
    >)
        ensures
            match r {
                Ok(id) => parsed_topic_id("device/"@ + child@ + "/service/"@ + service@) == Ok::<
                    TopicIdModel,
                    TopicIdError,
                >(id@),
                Err(e) => parsed_topic_id("device/"@ + child@ + "/service/"@ + service@) == Err::<
                    TopicIdModel,
                    TopicIdError,
                >(e),
            },
    {
        let mut text = String::from_str("device/");
        text.append(child);
        text.append("/service/");
        text.append(service);
        EntityTopicId::from_str(text.as_str())
    }

    /// Whether two identifiers have the same levels.
    pub fn equals(&self, other: &EntityTopicId) -> (r: bool)
        ensures
            r == (self@ == other@),
    {
        same_text(self.class.as_str(), other.class.as_str()) && same_text(
            self.name.as_str(),
            other.name.as_str(),
        ) && same_text(self.kind.as_str(), other.kind.as_str()) && same_text(
            self.qualifier.as_str(),
            other.qualifier.as_str(),
        )
    }

    /// The identifier as it stands in a topic.
    pub fn to_text(&self) -> (r: String)
        ensures
            r@ == topic_id_text(self@),
    {
        let mut text = self.class.clone();
        text.append("/");
        text.append(self.name.as_str());
        text.append("/");
        text.append(self.kind.as_str());
        text.append("/");
        text.append(self.qualifier.as_str());
        text
    }

    /// Whether this is `device/main//`.
    pub fn is_default_main_device(&self) -> (r: bool)
        ensures
            r == (self@ == main_device_id()),
    {
        let r = same_text(self.class.as_str(), "device") && same_text(self.name.as_str(), "main")
            && self.kind.as_str().is_empty() && self.qualifier.as_str().is_empty();
        proof {
            if self.kind@.len() == 0 {
                assert(self.kind@ =~= Seq::<char>::empty());
            }
            if self.qualifier@.len() == 0 {
                assert(self.qualifier@ =~= Seq::<char>::empty());
            }
        }
        r
    }

    /// Whether the identifier follows the default scheme.
    pub fn matches_default_topic_scheme(&self) -> (r: bool)
        ensures
            r == (device_name_of(self@) is Some),
    {
        self.default_device_name().is_some()
    }

    /// The device name, where the identifier follows the default scheme.
    pub fn default_device_name(&self) -> (r: Option<&str>)
        ensures
            match r {
                Some(name) => device_name_of(self@) == Some(name@),
                None => device_name_of(self@) is None,
            },
    {
        if same_text(self.class.as_str(), "device") && (same_text(self.kind.as_str(), "service") || (
        self.kind.as_str().is_empty() && self.qualifier.as_str().is_empty())) {
            Some(self.name.as_str())
        } else {
            None
        }
    }

    /// The service name, where the identifier is that of a service in the
    /// default scheme.
    pub fn default_service_name(&self) -> (r: Option<&str>)
        ensures
            match r {
                Some(name) => service_name_of(self@) == Some(name@),
                None => service_name_of(self@) is None,
            },
    {
        if same_text(self.class.as_str(), "device") && same_text(self.kind.as_str(), "service") {
            Some(self.qualifier.as_str())
        } else {
            None
        }
    }

    /// The identifier of the device that this one belongs to in the default
    /// scheme: of a device, the device itself.
    pub fn default_parent_identifier(&self) -> (r: Option<EntityTopicId>)
        ensures
            match r {
                Some(parent) => default_parent_of(self@) == Some(parent@),
                None => default_parent_of(self@) is None,
            },
    {
        match self.default_device_name() {
            Some(name) => Some(
                EntityTopicId {
                    class: String::from_str("device"),
                    name: String::from_str(name),
                    kind: String::new(),
                    qualifier: String::new(),
                },
            ),
            None => None,
        }
    }
}

/// The identifier of a service in the default scheme:
/// `device/<device>/service/<service>`.
pub open spec fn service_id(device: Seq<char>, service: Seq<char>) -> TopicIdModel {
    TopicIdModel { class: "device"@, name: device, kind: "service"@, qualifier: service }
}

/// Whether a text can stand as one level of an identifier: it holds
/// neither `/` nor a wildcard.
pub open spec fn one_level(text: Seq<char>) -> bool {
    !text.contains('/') && !text.contains('+') && !text.contains('#')
}

proof fn lemma_literals()
    ensures
        "device/"@ == "device"@ + seq!['/'],
        "//"@ == seq!['/'] + Seq::<char>::empty() + seq!['/'] + Seq::<char>::empty(),
        "/service/"@ == seq!['/'] + "service"@ + seq!['/'],
        "device/main/service/"@ == "device"@ + seq!['/'] + "main"@ + seq!['/'] + "service"@ + seq![
            '/',
        ],
        one_level("device"@),
        one_level("service"@),
        one_level("main"@),
{
    reveal_strlit("device/");
    reveal_strlit("device");
    reveal_strlit("//");
    reveal_strlit("/service/");
    reveal_strlit("service");
    reveal_strlit("main");
    reveal_strlit("device/main/service/");
    assert("device/"@ =~= "device"@ + seq!['/']);
    assert("//"@ =~= seq!['/'] + Seq::<char>::empty() + seq!['/'] + Seq::<char>::empty());
    assert("/service/"@ =~= seq!['/'] + "service"@ + seq!['/']);
    assert("device/main/service/"@ =~= "device"@ + seq!['/'] + "main"@ + seq!['/'] + "service"@
        + seq!['/']);
}

proof fn lemma_four_levels(a: Seq<char>, b: Seq<char>, c: Seq<char>, d: Seq<char>)
    requires
        one_level(a),
        one_level(b),
        one_level(c),
        one_level(d),
    ensures
        parsed_topic_id(a + seq!['/'] + b + seq!['/'] + c + seq!['/'] + d) == Ok::<
            TopicIdModel,
            TopicIdError,
        >(TopicIdModel { class: a, name: b, kind: c, qualifier: d }),
{
    let text = a + seq!['/'] + b + seq!['/'] + c + seq!['/'] + d;
    crate::text::lemma_pieces_of_one(a, '/');
    crate::text::lemma_pieces_of_one(b, '/');
    crate::text::lemma_pieces_of_one(c, '/');
    crate::text::lemma_pieces_of_one(d, '/');
    crate::text::lemma_pieces_of_two(a + seq!['/'] + b + seq!['/'] + c, d, '/');
    crate::text::lemma_pieces_of_two(a + seq!['/'] + b, c, '/');
    crate::text::lemma_pieces_of_two(a, b, '/');
    assert(crate::text::levels(text) =~= seq![a, b, c, d]);
    assert forall|i: int| 0 <= i < text.len() implies text[i] != '+' && text[i] != '#' by {
        let la = a.len() as int;
        let lb = b.len() as int;
        let lc = c.len() as int;
        if i < la {
            assert(a.contains(a[i]));
        } else if i == la {
        } else if i < la + 1 + lb {
            assert(b.contains(b[i - la - 1]));
        } else if i == la + 1 + lb {
        } else if i < la + 1 + lb + 1 + lc {
            assert(c.contains(c[i - la - lb - 2]));
        } else if i == la + 1 + lb + 1 + lc {
        } else {
            assert(d.contains(d[i - la - lb - lc - 3]));
        }
    }
}

/// The text `device/<name>//` is read as the identifier of that device,
/// where the name can stand as one level.
pub proof fn lemma_device_id(name: Seq<char>)
    requires
        one_level(name),
    ensures
        parsed_topic_id("device/"@ + name + "//"@) == Ok::<TopicIdModel, TopicIdError>(
            device_id(name),
        ),
{
    lemma_literals();
    let empty = Seq::<char>::empty();
    lemma_four_levels("device"@, name, empty, empty);
    assert("device/"@ + name + "//"@ =~= "device"@ + seq!['/'] + name + seq!['/'] + empty + seq![
        '/',
    ] + empty);
}

/// The text `device/<device>/service/<service>` is read as the identifier
/// of that service, where both names can stand as one level.
pub proof fn lemma_service_id(device: Seq<char>, service: Seq<char>)
    requires
        one_level(device),
        one_level(service),
    ensures
        parsed_topic_id("device/"@ + device + "/service/"@ + service) == Ok::<
            TopicIdModel,
            TopicIdError,
        >(service_id(device, service)),
        device == "main"@ ==> parsed_topic_id("device/main/service/"@ + service) == Ok::<
            TopicIdModel,
            TopicIdError,
        >(service_id(device, service)),
{
    lemma_literals();
    lemma_four_levels("device"@, device, "service"@, service);
    assert("device/"@ + device + "/service/"@ + service =~= "device"@ + seq!['/'] + device + seq![
        '/',
    ] + "service"@ + seq!['/'] + service);
    if device == "main"@ {
        assert("device/main/service/"@ + service =~= "device"@ + seq!['/'] + device + seq!['/']
            + "service"@ + seq!['/'] + service);
    }
}

/// What is published about an entity: the part of a topic behind the
/// entity topic identifier.
#[derive(Debug)]
pub enum Channel {
    /// The registration of the entity: nothing behind the identifier.
    EntityMetadata,
    Measurement { measurement_type: String },
    Event { event_type: String },
    Alarm { alarm_type: String },
    Health,
    Command { operation: String, cmd_id: String },
}

/// The mathematical value of a [`Channel`].
pub enum ChannelModel {
    EntityMetadata,
    Measurement { measurement_type: Seq<char> },
    Event { event_type: Seq<char> },
    Alarm { alarm_type: Seq<char> },
    Health,
    Command { operation: Seq<char>, cmd_id: Seq<char> },
}

impl View for Channel {
    type V = ChannelModel;

    open spec fn view(&self) -> ChannelModel {
        match self {
            Channel::EntityMetadata => ChannelModel::EntityMetadata,
            Channel::Measurement { measurement_type } => ChannelModel::Measurement {
                measurement_type: measurement_type@,
            },
            Channel::Event { event_type } => ChannelModel::Event { event_type: event_type@ },
            Channel::Alarm { alarm_type } => ChannelModel::Alarm { alarm_type: alarm_type@ },
            Channel::Health => ChannelModel::Health,
            Channel::Command { operation, cmd_id } => ChannelModel::Command {
                operation: operation@,
                cmd_id: cmd_id@,
            },
        }
    }
}

/// The part of a topic that names a channel: `m/<type>`, `e/<type>`,
/// `a/<type>`, `status/health`, `cmd/<operation>/<id>`; nothing for the
/// registration.
pub open spec fn channel_text(channel: ChannelModel) -> Seq<char> {
    match channel {
        ChannelModel::EntityMetadata => Seq::<char>::empty(),
        ChannelModel::Measurement { measurement_type } => "m/"@ + measurement_type,
        ChannelModel::Event { event_type } => "e/"@ + event_type,
        ChannelModel::Alarm { alarm_type } => "a/"@ + alarm_type,
        ChannelModel::Health => "status/health"@,
        ChannelModel::Command { operation, cmd_id } => "cmd/"@ + operation + "/"@ + cmd_id,
    }
}

/// The topic of a channel of an entity under a root: the root, the entity
/// topic identifier and, for all but the registration, the channel, with `/`
/// between them.
pub open spec fn channel_topic(root: Seq<char>, id: TopicIdModel, channel: ChannelModel) -> Seq<
    char,
> {
    if channel is EntityMetadata {
        root + "/"@ + topic_id_text(id)
    } else {
        root + "/"@ + topic_id_text(id) + "/"@ + channel_text(channel)
    }
}

impl Channel {
    /// The part of a topic that names the channel.
    pub fn to_text(&self) -> (r: String)
        ensures
            r@ == channel_text(self@),
    {
        match self {
            Channel::EntityMetadata => String::new(),
            Channel::Measurement { measurement_type } => {
                let mut text = String::from_str("m/");
                text.append(measurement_type.as_str());
                text
            },
            Channel::Event { event_type } => {
                let mut text = String::from_str("e/");
                text.append(event_type.as_str());
                text
            },
            Channel::Alarm { alarm_type } => {
                let mut text = String::from_str("a/");
                text.append(alarm_type.as_str());
                text
            },
            Channel::Health => String::from_str("status/health"),
            Channel::Command { operation, cmd_id } => {
                let mut text = String::from_str("cmd/");
                text.append(operation.as_str());
                text.append("/");
                text.append(cmd_id.as_str());
                text
            },
        }
    }
}

/// The local topic scheme: every topic begins with the root.
#[derive(Debug)]
pub struct MqttSchema {
    pub root: String,
}

impl MqttSchema {
    /// The scheme under the root `te`.
    pub fn new() -> (r: MqttSchema)
        ensures
            r.root@ == "te"@,
    {
        MqttSchema { root: String::from_str("te") }
    }

    /// The scheme under a given root.
    pub fn with_root(root: String) -> (r: MqttSchema)
        ensures
            r.root@ == root@,
    {
        MqttSchema { root }
    }

    /// The topic of a channel of an entity.
    pub fn topic_for(&self, entity: &EntityTopicId, channel: &Channel) -> (r: Topic)
        ensures
            r.name@ == channel_topic(self.root@, entity@, channel@),
    {
        let mut name = self.root.clone();
        name.append("/");
        name.append(entity.to_text().as_str());
        match channel {
            Channel::EntityMetadata => {},
            _ => {
                name.append("/");
                name.append(channel.to_text().as_str());
            },
        }
        Topic { name }
    }
}

/// Why a topic names no channel of an entity.
#[derive(Debug, Clone, Copy, PartialEq, Eq, Structural)]
pub enum EntityTopicError {
    /// The topic does not begin with the root, or names no entity.
    OutsideSchema,
    /// What follows the entity names no channel.
    UnknownChannel,
}

/// The channel that the levels behind an entity topic identifier name.
pub open spec fn channel_of_levels(rest: Seq<Seq<char>>) -> Option<ChannelModel> {
    if rest.len() == 0 {
        Some(ChannelModel::EntityMetadata)
    } else if rest.len() == 2 && rest[0] == "m"@ {
        Some(ChannelModel::Measurement { measurement_type: rest[1] })
    } else if rest.len() == 2 && rest[0] == "e"@ {
        Some(ChannelModel::Event { event_type: rest[1] })
    } else if rest.len() == 2 && rest[0] == "a"@ {
        Some(ChannelModel::Alarm { alarm_type: rest[1] })
    } else if rest.len() == 2 && rest[0] == "status"@ && rest[1] == "health"@ {
        Some(ChannelModel::Health)
    } else if rest.len() == 3 && rest[0] == "cmd"@ {
        Some(ChannelModel::Command { operation: rest[1], cmd_id: rest[2] })
    } else {
        None
    }
}

/// The entity and the channel that a topic names under a root: the topic
/// is the root, `/`, the four levels of the entity and the levels of the
/// channel, and holds no wildcard.
pub open spec fn entity_channel(root: Seq<char>, topic: Seq<char>) -> Result<
    (TopicIdModel, ChannelModel),
    EntityTopicError,
> {
    let prefix = root + "/"@;
    if !prefix.is_prefix_of(topic) || !valid_topic_name(topic) {
        Err(EntityTopicError::OutsideSchema)
    } else {
        let parts = levels(topic.subrange(prefix.len() as int, topic.len() as int));
        if parts.len() < 4 {
            Err(EntityTopicError::OutsideSchema)
        } else {
            match channel_of_levels(parts.subrange(4, parts.len() as int)) {
                Some(channel) => Ok(
                    (
                        TopicIdModel {
                            class: parts[0],
                            name: parts[1],
                            kind: parts[2],
                            qualifier: parts[3],
                        },
                        channel,
                    ),
                ),
                None => Err(EntityTopicError::UnknownChannel),
            }
        }
    }
}

impl MqttSchema {
    /// Reads the entity and the channel that a topic names.
    pub fn entity_channel_of(&self, topic: &str) -> (r: Result<
        (EntityTopicId, Channel),
        EntityTopicError,
    >)
        ensures
            match r {
                Ok((entity, channel)) => entity_channel(self.root@, topic@) == Ok::<
                    (TopicIdModel, ChannelModel),
                    EntityTopicError,
                >((entity@, channel@)),
                Err(e) => entity_channel(self.root@, topic@) == Err::<
                    (TopicIdModel, ChannelModel),
                    EntityTopicError,
                >(e),
            },
    {
        let mut prefix = self.root.clone();
        prefix.append("/");
        if !has_prefix(topic, prefix.as_str()) || has_char(topic, '+') || has_char(topic, '#') {
            return Err(EntityTopicError::OutsideSchema);
        }
        let tail = topic.substring_char(prefix.as_str().unicode_len(), topic.unicode_len());
        let parts = split_levels(tail);
        if parts.len() < 4 {
            return Err(EntityTopicError::OutsideSchema);
        }
        let ghost rest = levels(tail@).subrange(4, parts@.len() as int);
        let n: usize = parts.len();
        let channel = if n == 4 {
            Channel::EntityMetadata
        } else if n == 6 && same_text(parts[4], "m") {
            assert(rest[0] == levels(tail@)[4] && rest[1] == levels(tail@)[5]);
            Channel::Measurement { measurement_type: String::from_str(parts[5]) }
        } else if n == 6 && same_text(parts[4], "e") {
            assert(rest[0] == levels(tail@)[4] && rest[1] == levels(tail@)[5]);
            Channel::Event { event_type: String::from_str(parts[5]) }
        } else if n == 6 && same_text(parts[4], "a") {
            assert(rest[0] == levels(tail@)[4] && rest[1] == levels(tail@)[5]);
            Channel::Alarm { alarm_type: String::from_str(parts[5]) }
        } else if n == 6 && same_text(parts[4], "status") && same_text(parts[5], "health") {
            assert(rest[0] == levels(tail@)[4] && rest[1] == levels(tail@)[5]);
            Channel::Health
        } else if n == 7 && same_text(parts[4], "cmd") {
            assert(rest[0] == levels(tail@)[4] && rest[1] == levels(tail@)[5] && rest[2] == levels(
                tail@,
            )[6]);
            Channel::Command {
                operation: String::from_str(parts[5]),
                cmd_id: String::from_str(parts[6]),
            }
        } else {
            proof {
                if n == 6 {
                    assert(rest[0] == levels(tail@)[4] && rest[1] == levels(tail@)[5]);
                }
                if n == 7 {
                    assert(rest[0] == levels(tail@)[4]);
                }
            }
            return Err(EntityTopicError::UnknownChannel);
        };
        Ok(
            (
                EntityTopicId {
                    class: String::from_str(parts[0]),
                    name: String::from_str(parts[1]),
                    kind: String::from_str(parts[2]),
                    qualifier: String::from_str(parts[3]),
                },
                channel,
            ),
        )
    }
}

/// The levels by which a channel is named.
pub open spec fn channel_levels(channel: ChannelModel) -> Seq<Seq<char>> {
    match channel {
        ChannelModel::EntityMetadata => Seq::<Seq<char>>::empty(),
        ChannelModel::Measurement { measurement_type } => seq!["m"@, measurement_type],
        ChannelModel::Event { event_type } => seq!["e"@, event_type],
        ChannelModel::Alarm { alarm_type } => seq!["a"@, alarm_type],
        ChannelModel::Health => seq!["status"@, "health"@],
        ChannelModel::Command { operation, cmd_id } => seq!["cmd"@, operation, cmd_id],
    }
}

/// Whether every level of an identifier can stand as one level.
pub open spec fn levels_fit(id: TopicIdModel) -> bool {
    one_level(id.class) && one_level(id.name) && one_level(id.kind) && one_level(id.qualifier)
}

/// Whether every name in a channel can stand as one level.
pub open spec fn names_fit(channel: ChannelModel) -> bool {
    forall|i: int|
        0 <= i < channel_levels(channel).len() ==> one_level(#[trigger] channel_levels(channel)[i])
}

proof fn lemma_channel_words()
    ensures
        one_level("m"@),
        one_level("e"@),
        one_level("a"@),
        one_level("status"@),
        one_level("health"@),
        one_level("cmd"@),
        "m"@ != "e"@,
        "m"@ != "a"@,
        "e"@ != "a"@,
        "status"@.len() == 6,
        "cmd"@.len() == 3,
        "m"@.len() == 1,
        "e"@.len() == 1,
        "a"@.len() == 1,
        "m/"@ == "m"@ + seq!['/'],
        "e/"@ == "e"@ + seq!['/'],
        "a/"@ == "a"@ + seq!['/'],
        "cmd/"@ == "cmd"@ + seq!['/'],
        "status/health"@ == "status"@ + seq!['/'] + "health"@,
        "/"@ == seq!['/'],
{
    reveal_strlit("m");
    reveal_strlit("e");
    reveal_strlit("a");
    reveal_strlit("status");
    reveal_strlit("health");
    reveal_strlit("cmd");
    reveal_strlit("m/");
    reveal_strlit("e/");
    reveal_strlit("a/");
    reveal_strlit("cmd/");
    reveal_strlit("status/health");
    reveal_strlit("/");
    assert("m"@[0] != "e"@[0] && "m"@[0] != "a"@[0] && "e"@[0] != "a"@[0]);
    assert("m/"@ =~= "m"@ + seq!['/']);
    assert("e/"@ =~= "e"@ + seq!['/']);
    assert("a/"@ =~= "a"@ + seq!['/']);
    assert("cmd/"@ =~= "cmd"@ + seq!['/']);
    assert("status/health"@ =~= "status"@ + seq!['/'] + "health"@);
    assert("/"@ =~= seq!['/']);
}

/// The topic of a channel of an entity is read back as that entity and
/// that channel, where the root holds no wildcard and every level of the
/// entity and every name in the channel can stand as one level.
pub proof fn law_topic_names_its_channel(root: Seq<char>, id: TopicIdModel, channel: ChannelModel)
    requires
        valid_topic_name(root),
        levels_fit(id),
        names_fit(channel),
    ensures
        entity_channel(root, channel_topic(root, id, channel)) == Ok::<
            (TopicIdModel, ChannelModel),
            EntityTopicError,
        >((id, channel)),
{
    lemma_channel_words();
    let entity = seq![id.class, id.name, id.kind, id.qualifier];
    let behind = channel_levels(channel);
    let parts = entity + behind;
    let topic = channel_topic(root, id, channel);
    let prefix = root + "/"@;
    let tail = crate::text::joined(parts, '/');
    assert forall|i: int| 0 <= i < parts.len() implies one_level(#[trigger] parts[i]) by {
        if i >= 4 {
            assert(parts[i] == behind[i - 4]);
        }
    }
    // what stands behind the root is the levels put together
    let slash = seq!['/'];
    let one = seq![id.class];
    let two = one.push(id.name);
    let three = two.push(id.kind);
    assert(three.push(id.qualifier) =~= entity);
    crate::text::lemma_joined_push(one, id.name, '/');
    crate::text::lemma_joined_push(two, id.kind, '/');
    crate::text::lemma_joined_push(three, id.qualifier, '/');
    assert(crate::text::joined(one, '/') == id.class);
    assert(crate::text::joined(entity, '/') =~= topic_id_text(id));
    match channel {
        ChannelModel::EntityMetadata => {
            assert(parts =~= entity);
        },
        ChannelModel::Measurement { measurement_type } => {
            crate::text::lemma_joined_push(entity, "m"@, '/');
            crate::text::lemma_joined_push(entity.push("m"@), measurement_type, '/');
            assert(parts =~= entity.push("m"@).push(measurement_type));
        },
        ChannelModel::Event { event_type } => {
            crate::text::lemma_joined_push(entity, "e"@, '/');
            crate::text::lemma_joined_push(entity.push("e"@), event_type, '/');
            assert(parts =~= entity.push("e"@).push(event_type));
        },
        ChannelModel::Alarm { alarm_type } => {
            crate::text::lemma_joined_push(entity, "a"@, '/');
            crate::text::lemma_joined_push(entity.push("a"@), alarm_type, '/');
            assert(parts =~= entity.push("a"@).push(alarm_type));
        },
        ChannelModel::Health => {
            crate::text::lemma_joined_push(entity, "status"@, '/');
            crate::text::lemma_joined_push(entity.push("status"@), "health"@, '/');
            assert(parts =~= entity.push("status"@).push("health"@));
        },
        ChannelModel::Command { operation, cmd_id } => {
            crate::text::lemma_joined_push(entity, "cmd"@, '/');
            crate::text::lemma_joined_push(entity.push("cmd"@), operation, '/');
            crate::text::lemma_joined_push(entity.push("cmd"@).push(operation), cmd_id, '/');
            assert(parts =~= entity.push("cmd"@).push(operation).push(cmd_id));
        },
    }
    assert(topic =~= prefix + tail);
    assert(tail =~= topic.subrange(prefix.len() as int, topic.len() as int));
    crate::text::lemma_pieces_of_joined(parts, '/');
    assert(parts.subrange(4, parts.len() as int) =~= behind);
    // no wildcard in the topic
    crate::text::lemma_joined_holds(parts, '/', '+');
    crate::text::lemma_joined_holds(parts, '/', '#');
    assert(valid_topic_name(topic)) by {
        assert forall|k: int| 0 <= k < topic.len() implies topic[k] != '+' && topic[k] != '#' by {
            if k < root.len() {
                assert(root.contains(root[k]));
            } else if k > root.len() {
                assert(tail[k - prefix.len()] == topic[k]);
                assert(tail.contains(tail[k - prefix.len()]));
            }
        }
    }
    assert(prefix.is_prefix_of(topic));
}

} // verus!
