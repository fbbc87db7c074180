//! The registry of the entities (main device, child devices, services) that
//! publish on the local MQTT topics: who they are, whom they belong to, and
//! under which identifier the cloud knows them.

use crate::assoc::{
    distinct_keys, lemma_map_len, lemma_map_of, lemma_with_pair, lemma_without, map_of, with_pair, without,
};
use crate::entity_laws::{
    law_initial_store_is_rooted, law_registration_keeps_rooted, law_twin_update_keeps_rooted,
    moves_under_itself, rooted,
};
use crate::json::{object_text, parsed_object, JsonModel, JsonObject, JsonValue};
use crate::mqtt_channel::{Message, QoS};
use crate::mqtt_topics::{
    channel_topic, default_parent_of, device_name_of, parsed_topic_id, service_name_of,
    topic_id_text, Channel, ChannelModel,
    EntityTopicId, MqttSchema, TopicIdError, TopicIdModel,
};
use crate::text::{has_prefix, same_text};
use vstd::prelude::*;

verus! {

/// The identifier under which the cloud knows an entity.
#[derive(Debug)]
pub struct EntityExternalId(String);

impl View for EntityExternalId {
    type V = Seq<char>;

    closed spec fn view(&self) -> Seq<char> {
        self.0@
    }
}

impl Clone for EntityExternalId {
    fn clone(&self) -> (r: Self)
        ensures
            r@ == self@,
    {
        EntityExternalId(self.0.clone())
    }
}

impl EntityExternalId {
    pub fn from(val: &str) -> (r: EntityExternalId)
        ensures
            r@ == val@,
    {
        EntityExternalId(String::from_str(val))
    }

    pub fn from_string(val: String) -> (r: EntityExternalId)
        ensures
            r@ == val@,
    {
        EntityExternalId(val)
    }

    pub fn as_ref(&self) -> (r: &str)
        ensures
            r@ == self@,
    {
        self.0.as_str()
    }

    pub fn into_string(self) -> (r: String)
        ensures
            r@ == self@,
    {
        self.0
    }

    pub fn equals(&self, other: &EntityExternalId) -> (r: bool)
        ensures
            r == (self@ == other@),
    {
        same_text(self.0.as_str(), other.0.as_str())
    }
}

/// An external identifier that holds a character which the cloud's topics
/// cannot carry.
#[derive(Debug)]
pub struct InvalidExternalIdError {
    pub external_id: String,
    pub invalid_char: char,
}

/// What an entity is.
#[derive(Debug, Clone, Copy, PartialEq, Eq, Structural)]
pub enum EntityType {
    MainDevice,
    ChildDevice,
    Service,
}

impl EntityType {
    /// The word for the type in a registration message.
    pub open spec fn word(self) -> Seq<char> {
        match self {
            EntityType::MainDevice => "device"@,
            EntityType::ChildDevice => "child-device"@,
            EntityType::Service => "service"@,
        }
    }

    pub fn to_text(&self) -> (r: String)
        ensures
            r@ == self.word(),
    {
        match self {
            EntityType::MainDevice => String::from_str("device"),
            EntityType::ChildDevice => String::from_str("child-device"),
            EntityType::Service => String::from_str("service"),
        }
    }
}

/// Why the store refuses a request.
#[derive(Debug)]
pub enum Error {
    /// The parent, given by its topic identifier, is not registered.
    NoParent(String),
    NoMainDevice,
    /// The registration would make a second main device, or make the main
    /// device something else: the topic identifier of the main device.
    MainDeviceAlreadyRegistered(String),
    /// The external identifier belongs to another entity.
    ExternalIdInUse(String),
    /// No entity is registered under this identifier.
    UnknownEntity(String),
    /// Only entities of the default topic scheme register themselves.
    NonDefaultTopicScheme(EntityTopicId),
    InvalidExternalIdError(InvalidExternalIdError),
    EntityRegistrationOtherNotMap,
}

/// What the store holds of one entity.
#[derive(Debug)]
pub struct EntityMetadata {
    pub topic_id: EntityTopicId,
    pub parent: Option<EntityTopicId>,
    pub entity_type: EntityType,
    pub external_id: EntityExternalId,
    pub other: JsonObject,
    pub twin_data: JsonObject,
}

/// The mathematical value of an [`EntityMetadata`].
pub struct EntityModel {
    pub topic_id: TopicIdModel,
    pub parent: Option<TopicIdModel>,
    pub entity_type: EntityType,
    pub external_id: Seq<char>,
    pub other: Map<Seq<char>, JsonModel>,
    pub twin_data: Map<Seq<char>, JsonModel>,
}

/// The view of an optional topic identifier.
pub open spec fn optional_id(id: Option<EntityTopicId>) -> Option<TopicIdModel> {
    match id {
        Some(id) => Some(id@),
        None => None,
    }
}

impl View for EntityMetadata {
    type V = EntityModel;

    open spec fn view(&self) -> EntityModel {
        EntityModel {
            topic_id: self.topic_id@,
            parent: optional_id(self.parent),
            entity_type: self.entity_type,
            external_id: self.external_id@,
            other: self.other@,
            twin_data: self.twin_data@,
        }
    }
}

fn clone_optional_id(id: &Option<EntityTopicId>) -> (r: Option<EntityTopicId>)
    ensures
        optional_id(r) == optional_id(*id),
{
    match id {
        Some(id) => Some(id.clone()),
        None => None,
    }
}

fn same_optional_id(a: &Option<EntityTopicId>, b: &Option<EntityTopicId>) -> (r: bool)
    ensures
        r == (optional_id(*a) == optional_id(*b)),
{
    match (a, b) {
        (Some(a), Some(b)) => a.equals(b),
        (None, None) => true,
        _ => false,
    }
}

impl Clone for EntityMetadata {
    fn clone(&self) -> (r: Self)
        ensures
            r@ == self@,
    {
        EntityMetadata {
            topic_id: self.topic_id.clone(),
            parent: clone_optional_id(&self.parent),
            entity_type: self.entity_type,
            external_id: self.external_id.clone(),
            other: self.other.clone(),
            twin_data: self.twin_data.clone(),
        }
    }
}

impl EntityMetadata {
    /// The metadata of the main device `device/main//`.
    pub fn main_device(device_id: String) -> (r: EntityMetadata)
        ensures
            r@ == (EntityModel {
                topic_id: crate::mqtt_topics::main_device_id(),
                parent: None,
                entity_type: EntityType::MainDevice,
                external_id: device_id@,
                other: Map::empty(),
                twin_data: Map::empty(),
            }),
    {
        EntityMetadata {
            topic_id: EntityTopicId::default_main_device(),
            external_id: EntityExternalId::from_string(device_id),
            entity_type: EntityType::MainDevice,
            parent: None,
            other: JsonObject::new(),
            twin_data: JsonObject::new(),
        }
    }

    /// The metadata of a child device `device/<id>//` of the main device.
    pub fn child_device(child_device_id: String) -> (r: Result<EntityMetadata, TopicIdError>)
        ensures
            match r {
                Ok(entity) => crate::mqtt_topics::parsed_topic_id(
                    "device/"@ + child_device_id@ + "//"@,
                ) == Ok::<TopicIdModel, TopicIdError>(entity@.topic_id) && entity@ == (EntityModel {
                    topic_id: entity@.topic_id,
                    parent: Some(crate::mqtt_topics::main_device_id()),
                    entity_type: EntityType::ChildDevice,
                    external_id: child_device_id@,
                    other: Map::empty(),
                    twin_data: Map::empty(),
                }),
                Err(e) => crate::mqtt_topics::parsed_topic_id("device/"@ + child_device_id@ + "//"@)
                    == Err::<TopicIdModel, TopicIdError>(e),
            },
    {
        match EntityTopicId::default_child_device(child_device_id.as_str()) {
            Ok(topic_id) => Ok(
                EntityMetadata {
                    topic_id,
                    external_id: EntityExternalId::from_string(child_device_id),
                    entity_type: EntityType::ChildDevice,
                    parent: Some(EntityTopicId::default_main_device()),
                    other: JsonObject::new(),
                    twin_data: JsonObject::new(),
                },
            ),
            Err(e) => Err(e),
        }
    }

    /// Whether two entities have the same fields.
    pub fn equals(&self, other: &EntityMetadata) -> (r: bool)
        ensures
            r == (self@ == other@),
    {
        self.topic_id.equals(&other.topic_id) && same_optional_id(&self.parent, &other.parent)
            && self.entity_type == other.entity_type && self.external_id.equals(&other.external_id)
            && self.other.equals(&other.other) && self.twin_data.equals(&other.twin_data)
    }
}

/// A registration message: what an entity says of itself.
#[derive(Debug)]
pub struct EntityRegistrationMessage {
    pub topic_id: EntityTopicId,
    pub external_id: Option<EntityExternalId>,
    pub entity_type: EntityType,
    pub parent: Option<EntityTopicId>,
    pub other: JsonObject,
}

/// The mathematical value of an [`EntityRegistrationMessage`].
pub struct RegistrationModel {
    pub topic_id: TopicIdModel,
    pub external_id: Option<Seq<char>>,
    pub entity_type: EntityType,
    pub parent: Option<TopicIdModel>,
    pub other: Map<Seq<char>, JsonModel>,
}

/// The view of an optional external identifier.
pub open spec fn optional_xid(id: Option<EntityExternalId>) -> Option<Seq<char>> {
    match id {
        Some(id) => Some(id@),
        None => None,
    }
}

impl View for EntityRegistrationMessage {
    type V = RegistrationModel;

    open spec fn view(&self) -> RegistrationModel {
        RegistrationModel {
            topic_id: self.topic_id@,
            external_id: optional_xid(self.external_id),
            entity_type: self.entity_type,
            parent: optional_id(self.parent),
            other: self.other@,
        }
    }
}

impl Clone for EntityRegistrationMessage {
    fn clone(&self) -> (r: Self)
        ensures
            r@ == self@,
            r.other.members() == self.other.members(),
    {
        EntityRegistrationMessage {
            topic_id: self.topic_id.clone(),
            external_id: match &self.external_id {
                Some(id) => Some(id.clone()),
                None => None,
            },
            entity_type: self.entity_type,
            parent: clone_optional_id(&self.parent),
            other: self.other.clone(),
        }
    }
}

/// The entity type that a word of a registration message stands for.
pub open spec fn entity_type_of(word: Seq<char>) -> Option<EntityType> {
    if word == "device"@ {
        Some(EntityType::MainDevice)
    } else if word == "child-device"@ {
        Some(EntityType::ChildDevice)
    } else if word == "service"@ {
        Some(EntityType::Service)
    } else {
        None
    }
}

/// Whether a member is absent or a string.
pub open spec fn absent_or_text(members: Map<Seq<char>, JsonModel>, key: Seq<char>) -> bool {
    members.contains_key(key) ==> members[key] is Text
}

/// The text of a member that is a string, if it is there.
pub open spec fn optional_text(members: Map<Seq<char>, JsonModel>, key: Seq<char>) -> Option<
    Seq<char>,
> {
    if members.contains_key(key) {
        Some(members[key]->Text_0)
    } else {
        None
    }
}

/// What a message is read as, where it is a registration message: its topic
/// is `te/` followed by an entity topic identifier, and its payload a JSON
/// object with a string `@type` that is `device`, `child-device` or
/// `service`, with `@parent`, if there, a string holding an entity topic
/// identifier, and with `@id`, if there, a string. The other members are the
/// properties.
pub open spec fn parsed_registration(topic: Seq<char>, payload: Seq<u8>) -> Option<
    RegistrationModel,
> {
    if !"te/"@.is_prefix_of(topic) || parsed_object(payload) is None {
        None
    } else {
        let members = map_of(parsed_object(payload)->0);
        let topic_id = parsed_topic_id(topic.subrange("te/"@.len() as int, topic.len() as int));
        if !members.contains_key("@type"@) || !(members["@type"@] is Text) || entity_type_of(
            members["@type"@]->Text_0,
        ) is None || !absent_or_text(members, "@parent"@) || !absent_or_text(members, "@id"@) || (
        members.contains_key("@parent"@) && parsed_topic_id(members["@parent"@]->Text_0) is Err)
            || topic_id is Err {
            None
        } else {
            Some(
                RegistrationModel {
                    topic_id: topic_id->Ok_0,
                    external_id: optional_text(members, "@id"@),
                    entity_type: entity_type_of(members["@type"@]->Text_0)->0,
                    parent: if members.contains_key("@parent"@) && entity_type_of(
                        members["@type"@]->Text_0,
                    )->0 != EntityType::MainDevice {
                        Some(parsed_topic_id(members["@parent"@]->Text_0)->Ok_0)
                    } else {
                        None
                    },
                    other: members.remove("@type"@).remove("@parent"@).remove("@id"@),
                },
            )
        }
    }
}

/// The members of the payload of a registration message: `@type`, then
/// `@id` and `@parent` where the registration has them, then its properties.
pub open spec fn registration_members(
    entity_type: EntityType,
    external_id: Option<Seq<char>>,
    parent: Option<TopicIdModel>,
    other: Seq<(Seq<char>, JsonModel)>,
) -> Seq<(Seq<char>, JsonModel)> {
    let head = seq![("@type"@, JsonModel::Text(entity_type.word()))];
    let with_id = match external_id {
        Some(id) => with_pair(head, "@id"@, JsonModel::Text(id)),
        None => head,
    };
    let with_parent = match parent {
        Some(parent) => with_pair(with_id, "@parent"@, JsonModel::Text(topic_id_text(parent))),
        None => with_id,
    };
    crate::assoc::with_pairs(with_parent, other)
}

impl EntityRegistrationMessage {
    /// Reads a message as a registration message, where it is one.
    pub fn new(message: &Message) -> (r: Option<EntityRegistrationMessage>)
        ensures
            match r {
                Some(registration) => parsed_registration(message@.topic, message@.payload) == Some(
                    registration@,
                ),
                None => parsed_registration(message@.topic, message@.payload) is None,
            },
    {
        let name = message.topic.name.as_str();
        proof {
            reveal_strlit("te/");
            reveal_strlit("@type");
            reveal_strlit("@parent");
            reveal_strlit("@id");
            assert("@type"@.len() == 5 && "@parent"@.len() == 7 && "@id"@.len() == 3);
        }
        if !has_prefix(name, "te/") {
            return None;
        }
        let topic_id_text = name.substring_char(3, name.unicode_len());
        let mut properties = match JsonObject::parse(message.payload_bytes()) {
            Ok(object) => object,
            Err(_) => {
                return None;
            },
        };
        proof {
            properties.lemma_members();
        }
        let ghost members = properties@;
        let entity_type = match properties.remove("@type") {
            Some(JsonValue::Text(word)) => {
                if same_text(word.as_str(), "device") {
                    EntityType::MainDevice
                } else if same_text(word.as_str(), "child-device") {
                    EntityType::ChildDevice
                } else if same_text(word.as_str(), "service") {
                    EntityType::Service
                } else {
                    return None;
                }
            },
            _ => {
                return None;
            },
        };
        let parent = match properties.remove("@parent") {
            Some(JsonValue::Text(parent)) => match EntityTopicId::from_str(parent.as_str()) {
                Ok(parent) => Some(parent),
                Err(_) => {
                    return None;
                },
            },
            Some(_) => {
                return None;
            },
            None => None,
        };
        let parent = match entity_type {
            EntityType::MainDevice => None,
            _ => parent,
        };
        let external_id = match properties.remove("@id") {
            Some(JsonValue::Text(id)) => Some(EntityExternalId::from_string(id)),
            Some(_) => {
                return None;
            },
            None => None,
        };
        let topic_id = match EntityTopicId::from_str(topic_id_text) {
            Ok(topic_id) => topic_id,
            Err(_) => {
                return None;
            },
        };
        Some(EntityRegistrationMessage { topic_id, external_id, entity_type, parent, other: properties })
    }

    /// The registration of the main device `device/main//`.
    pub fn main_device(main_device_id: String) -> (r: EntityRegistrationMessage)
        ensures
            r@ == (RegistrationModel {
                topic_id: crate::mqtt_topics::main_device_id(),
                external_id: Some(main_device_id@),
                entity_type: EntityType::MainDevice,
                parent: None,
                other: Map::empty(),
            }),
    {
        EntityRegistrationMessage {
            topic_id: EntityTopicId::default_main_device(),
            external_id: Some(EntityExternalId::from_string(main_device_id)),
            entity_type: EntityType::MainDevice,
            parent: None,
            other: JsonObject::new(),
        }
    }

    /// The retained message that announces the registration: on the topic of
    /// the entity, a JSON object of `@type`, `@id`, `@parent` and the
    /// properties.
    pub fn to_mqtt_message(self, mqtt_schema: &MqttSchema) -> (r: Message)
        ensures
            r@.topic == channel_topic(
                mqtt_schema.root@,
                self.topic_id@,
                ChannelModel::EntityMetadata,
            ),
            r@.payload == vstd::utf8::encode_utf8(
                object_text(
                    registration_members(
                        self.entity_type,
                        optional_xid(self.external_id),
                        optional_id(self.parent),
                        self.other.members(),
                    ),
                ),
            ),
            r@.qos == QoS::AtLeastOnce,
            r@.retain,
    {
        let mut props = JsonObject::new();
        let _ = props.insert(String::from_str("@type"), JsonValue::Text(self.entity_type.to_text()));
        proof {
            assert(props.members() =~= seq![("@type"@, JsonModel::Text(self.entity_type.word()))]);
        }
        match &self.external_id {
            Some(external_id) => {
                let _ = props.insert(
                    String::from_str("@id"),
                    JsonValue::Text(String::from_str(external_id.as_ref())),
                );
            },
            None => {},
        }
        match &self.parent {
            Some(parent) => {
                let _ = props.insert(String::from_str("@parent"), JsonValue::Text(parent.to_text()));
            },
            None => {},
        }
        props.extend(&self.other);
        let text = props.to_text();
        let topic = mqtt_schema.topic_for(&self.topic_id, &Channel::EntityMetadata);
        Message::new(&topic, text.as_str()).with_retain()
    }
}

/// The views of a list of registrations.
pub open spec fn registrations_model(messages: Seq<EntityRegistrationMessage>) -> Seq<
    RegistrationModel,
> {
    Seq::new(messages.len(), |i: int| messages[i]@)
}

/// The registration that is made for the device of an entity which
/// registers itself: a child device with its name as a property.
pub open spec fn device_registration(
    device: TopicIdModel,
    name: Seq<char>,
    external_id: Seq<char>,
) -> RegistrationModel {
    RegistrationModel {
        topic_id: device,
        external_id: Some(external_id),
        entity_type: EntityType::ChildDevice,
        parent: None,
        other: Map::<Seq<char>, JsonModel>::empty().insert("name"@, JsonModel::Text(name)),
    }
}

/// The registration that is made for a service which registers itself: a
/// service of its device, with its name and the default service type as
/// properties.
pub open spec fn service_registration(
    service: TopicIdModel,
    device: TopicIdModel,
    name: Seq<char>,
    service_type: Seq<char>,
    external_id: Seq<char>,
) -> RegistrationModel {
    RegistrationModel {
        topic_id: service,
        external_id: Some(external_id),
        entity_type: EntityType::Service,
        parent: Some(device),
        other: Map::<Seq<char>, JsonModel>::empty().insert("name"@, JsonModel::Text(name)).insert(
            "type"@,
            JsonModel::Text(service_type),
        ),
    }
}

/// Whether the device of an entity of the default scheme has to be
/// registered first: it is not `device/main//` and not in the store.
pub open spec fn device_missing(store: StoreModel, id: TopicIdModel) -> bool {
    default_parent_of(id) matches Some(device) && device != crate::mqtt_topics::main_device_id()
        && !store.entities.contains_key(device)
}

/// What a store holds.
pub struct StoreModel {
    pub main_device: TopicIdModel,
    pub entities: Map<TopicIdModel, EntityModel>,
    pub index: Map<Seq<char>, TopicIdModel>,
    pub default_service_type: Seq<char>,
}

/// The store right after its construction: the main device alone.
pub open spec fn initial_store(main: RegistrationModel, default_service_type: Seq<char>) -> StoreModel {
    StoreModel {
        main_device: main.topic_id,
        entities: Map::<TopicIdModel, EntityModel>::empty().insert(
            main.topic_id,
            EntityModel {
                topic_id: main.topic_id,
                parent: None,
                entity_type: main.entity_type,
                external_id: main.external_id->0,
                other: main.other,
                twin_data: Map::empty(),
            },
        ),
        index: Map::<Seq<char>, TopicIdModel>::empty().insert(main.external_id->0, main.topic_id),
        default_service_type: default_service_type,
    }
}

/// The external identifier of the main device.
pub open spec fn main_external_id(store: StoreModel) -> Seq<char> {
    store.entities[store.main_device].external_id
}

/// The parent that a registration gets: none for a main device; for a child
/// device the parent it names, else the main device; for a service the
/// parent it names, else the device of its topic identifier in the default
/// scheme, else the main device.
pub open spec fn resolved_parent(store: StoreModel, message: RegistrationModel) -> Option<
    TopicIdModel,
> {
    match message.entity_type {
        EntityType::MainDevice => None,
        EntityType::ChildDevice => Some(
            match message.parent {
                Some(parent) => parent,
                None => store.main_device,
            },
        ),
        EntityType::Service => Some(
            match message.parent {
                Some(parent) => parent,
                None => match default_parent_of(message.topic_id) {
                    Some(parent) => parent,
                    None => store.main_device,
                },
            },
        ),
    }
}

/// Whether the parent that a registration gets is missing from the store.
pub open spec fn parent_missing(store: StoreModel, message: RegistrationModel) -> bool {
    resolved_parent(store, message) matches Some(parent) && !store.entities.contains_key(parent)
}

/// Whether a registration is at odds with the one main device: it is of a
/// main device under another topic identifier, or of something else under
/// the topic identifier of the main device.
pub open spec fn main_device_conflict(store: StoreModel, message: RegistrationModel) -> bool {
    (message.topic_id == store.main_device) != (message.entity_type == EntityType::MainDevice)
}

/// Whether an external identifier belongs to another entity than the one
/// under a topic identifier.
pub open spec fn external_id_in_use(
    store: StoreModel,
    topic_id: TopicIdModel,
    external_id: Seq<char>,
) -> bool {
    store.index.contains_key(external_id) && store.index[external_id] != topic_id
}

/// The properties that a registration is stored with: a service without a
/// `type` gets the store's default service type.
pub open spec fn registered_other(store: StoreModel, message: RegistrationModel) -> Map<
    Seq<char>,
    JsonModel,
> {
    if message.entity_type == EntityType::Service && !message.other.contains_key("type"@) {
        message.other.insert("type"@, JsonModel::Text(store.default_service_type))
    } else {
        message.other
    }
}

/// The entity that a registration describes, under a given external
/// identifier, with no twin data yet.
pub open spec fn described_entity(
    store: StoreModel,
    message: RegistrationModel,
    external_id: Seq<char>,
) -> EntityModel {
    EntityModel {
        topic_id: message.topic_id,
        parent: resolved_parent(store, message),
        entity_type: message.entity_type,
        external_id: external_id,
        other: registered_other(store, message),
        twin_data: Map::empty(),
    }
}

/// The external identifier that a registration is filed under where one is
/// given: that of the main device for a main device, else the given one.
pub open spec fn filed_under(
    store: StoreModel,
    message: RegistrationModel,
    external_id: Seq<char>,
) -> Seq<char> {
    if message.entity_type == EntityType::MainDevice {
        main_external_id(store)
    } else {
        external_id
    }
}

/// The entity that a registration leaves in the store: the described one
/// for a new entity; for a registered one the described fields, with the
/// properties merged, the new ones winning, and the twin data that it had.
pub open spec fn registered_entity(
    store: StoreModel,
    message: RegistrationModel,
    external_id: Seq<char>,
) -> EntityModel {
    let described = described_entity(store, message, external_id);
    if store.entities.contains_key(message.topic_id) {
        let existing = store.entities[message.topic_id];
        EntityModel {
            other: existing.other.union_prefer_right(described.other),
            twin_data: existing.twin_data,
            ..described
        }
    } else {
        described
    }
}

/// Whether a registration changes nothing: the entity is registered, and
/// just as the registration would leave it.
pub open spec fn already_registered(
    store: StoreModel,
    message: RegistrationModel,
    external_id: Seq<char>,
) -> bool {
    store.entities.contains_key(message.topic_id) && store.entities[message.topic_id]
        == registered_entity(store, message, external_id)
}

/// The store after a registration that it takes. A new entity is added and
/// indexed by its external identifier. A registered entity takes the
/// described fields and is indexed by its external identifier alone; its
/// properties are merged, the new ones winning, and its twin data stay.
/// Where that leaves the entity as it was, the store is as it was.
pub open spec fn store_after_update(
    store: StoreModel,
    message: RegistrationModel,
    external_id: Seq<char>,
) -> StoreModel {
    if already_registered(store, message, external_id) {
        store
    } else if store.entities.contains_key(message.topic_id) {
        StoreModel {
            entities: store.entities.insert(
                message.topic_id,
                registered_entity(store, message, external_id),
            ),
            index: store.index.remove(store.entities[message.topic_id].external_id).insert(
                external_id,
                message.topic_id,
            ),
            ..store
        }
    } else {
        StoreModel {
            entities: store.entities.insert(
                message.topic_id,
                registered_entity(store, message, external_id),
            ),
            index: store.index.insert(external_id, message.topic_id),
            ..store
        }
    }
}

/// The entities that a registration affects: none where nothing changes;
/// else the parent, followed by the entity itself where it was registered
/// before.
pub open spec fn affected_by_update(
    store: StoreModel,
    message: RegistrationModel,
    external_id: Seq<char>,
) -> Seq<TopicIdModel> {
    let parent = match resolved_parent(store, message) {
        Some(parent) => seq![parent],
        None => Seq::<TopicIdModel>::empty(),
    };
    if already_registered(store, message, external_id) {
        Seq::<TopicIdModel>::empty()
    } else if store.entities.contains_key(message.topic_id) {
        parent.push(message.topic_id)
    } else {
        parent
    }
}

/// The views of a list of topic identifiers.
pub open spec fn ids_model(ids: Seq<EntityTopicId>) -> Seq<TopicIdModel> {
    Seq::new(ids.len(), |i: int| ids[i]@)
}

/// The views of a list of borrowed topic identifiers.
pub open spec fn id_refs_model(ids: Seq<&EntityTopicId>) -> Seq<TopicIdModel> {
    Seq::new(ids.len(), |i: int| ids[i]@)
}

/// The entity under a topic identifier.
pub open spec fn entity_of(store: StoreModel, id: TopicIdModel) -> Option<EntityModel> {
    if store.entities.contains_key(id) {
        Some(store.entities[id])
    } else {
        None
    }
}

/// The entity under an external identifier: the one under the topic
/// identifier that the index holds for it.
pub open spec fn entity_of_external_id(store: StoreModel, external_id: Seq<char>) -> Option<
    EntityModel,
> {
    if store.index.contains_key(external_id) {
        entity_of(store, store.index[external_id])
    } else {
        None
    }
}

/// The ancestors of an entity, the nearest first, following at most `steps`
/// parents.
pub open spec fn ancestors_within(store: StoreModel, id: TopicIdModel, steps: nat) -> Seq<
    TopicIdModel,
>
    decreases steps,
{
    if steps == 0 || !store.entities.contains_key(id) {
        Seq::<TopicIdModel>::empty()
    } else {
        match store.entities[id].parent {
            Some(parent) => seq![parent] + ancestors_within(store, parent, (steps - 1) as nat),
            None => Seq::<TopicIdModel>::empty(),
        }
    }
}

/// The ancestors of an entity, from its parent upwards. No chain of parents
/// without a cycle is longer than the number of entities.
pub open spec fn ancestors_of(store: StoreModel, id: TopicIdModel) -> Seq<TopicIdModel> {
    ancestors_within(store, id, store.entities.dom().len())
}

/// The twin data of an entity after an update of one fragment: `null` takes
/// the fragment away, any other value sets it.
pub open spec fn twin_data_after(
    twin_data: Map<Seq<char>, JsonModel>,
    key: Seq<char>,
    value: JsonModel,
) -> Map<Seq<char>, JsonModel> {
    if value == JsonModel::Null {
        twin_data.remove(key)
    } else {
        twin_data.insert(key, value)
    }
}

/// The store after an update of one fragment of the twin data of a
/// registered entity.
pub open spec fn store_after_twin_update(
    store: StoreModel,
    id: TopicIdModel,
    key: Seq<char>,
    value: JsonModel,
) -> StoreModel {
    StoreModel {
        entities: store.entities.insert(
            id,
            EntityModel {
                twin_data: twin_data_after(store.entities[id].twin_data, key, value),
                ..store.entities[id]
            },
        ),
        ..store
    }
}

/// Those of a list of entities that have a given parent and type, in the
/// order of the list.
pub open spec fn members_of(
    store: StoreModel,
    ids: Seq<TopicIdModel>,
    parent: TopicIdModel,
    entity_type: EntityType,
) -> Seq<TopicIdModel>
    decreases ids.len(),
{
    if ids.len() == 0 {
        Seq::<TopicIdModel>::empty()
    } else {
        let front = members_of(store, ids.drop_last(), parent, entity_type);
        let entity = store.entities[ids.last()];
        if entity.parent == Some(parent) && entity.entity_type == entity_type {
            front.push(ids.last())
        } else {
            front
        }
    }
}

/// The members of an entity among some entities are, as a set, those of
/// them that have the entity as their parent and are of the given type.
pub proof fn lemma_members_of(
    store: StoreModel,
    ids: Seq<TopicIdModel>,
    parent: TopicIdModel,
    entity_type: EntityType,
)
    ensures
        forall|id: TopicIdModel| #[trigger]
            members_of(store, ids, parent, entity_type).contains(id) <==> ids.contains(id)
                && store.entities[id].parent == Some(parent) && store.entities[id].entity_type
                == entity_type,
    decreases ids.len(),
{
    let all = members_of(store, ids, parent, entity_type);
    if ids.len() > 0 {
        let front = members_of(store, ids.drop_last(), parent, entity_type);
        lemma_members_of(store, ids.drop_last(), parent, entity_type);
        assert forall|id: TopicIdModel| #[trigger]
            all.contains(id) <==> ids.contains(id) && store.entities[id].parent == Some(parent)
                && store.entities[id].entity_type == entity_type by {
            if ids.contains(id) {
                let k = choose|k: int| 0 <= k < ids.len() && ids[k] == id;
                if k < ids.len() - 1 {
                    assert(ids.drop_last()[k] == id);
                }
            }
            if ids.drop_last().contains(id) {
                let k = choose|k: int| 0 <= k < ids.drop_last().len() && ids.drop_last()[k] == id;
                assert(ids[k] == id);
            }
            assert(ids[ids.len() - 1] == ids.last());
            if all.contains(id) {
                let k = choose|k: int| 0 <= k < all.len() && all[k] == id;
                if all != front {
                    if k < front.len() {
                        assert(front[k] == id);
                    }
                }
            }
            if front.contains(id) && all != front {
                let k = choose|k: int| 0 <= k < front.len() && front[k] == id;
                assert(all[k] == id);
            }
            if all != front {
                assert(all[all.len() - 1] == ids.last());
            }
        }
    }
}

/// In a store that holds the parent of each entity, every ancestor is
/// registered.
pub proof fn lemma_ancestors_registered(store: StoreModel, id: TopicIdModel, steps: nat)
    requires
        closed_under_parents(store),
    ensures
        forall|k: int|
            0 <= k < ancestors_within(store, id, steps).len() ==> store.entities.contains_key(
                #[trigger] ancestors_within(store, id, steps)[k],
            ),
    decreases steps,
{
    if steps > 0 && store.entities.contains_key(id) {
        match store.entities[id].parent {
            Some(parent) => {
                lemma_ancestors_registered(store, parent, (steps - 1) as nat);
                let rest = ancestors_within(store, parent, (steps - 1) as nat);
                let all = ancestors_within(store, id, steps);
                assert(all == seq![parent] + rest);
                assert forall|k: int| 0 <= k < all.len() implies store.entities.contains_key(
                    #[trigger] all[k],
                ) by {
                    if k > 0 {
                        assert(all[k] == rest[k - 1]);
                    }
                }
            },
            None => {},
        }
    }
}

/// Puts a value in the place of the one at a position and hands the old
/// one out.
fn replace_at<T>(list: &mut Vec<T>, i: usize, value: T) -> (previous: T)
    requires
        i < old(list)@.len(),
    ensures
        final(list)@ == old(list)@.update(i as int, value),
        previous == old(list)@[i as int],
{
    list.push(value);
    let previous = list.swap_remove(i);
    assert(list@ =~= old(list)@.update(i as int, value));
    previous
}

/// Files a topic identifier under an external identifier: in the place of
/// the pair with that external identifier where there is one, else behind
/// the last.
fn put_pair(
    index: &mut Vec<(EntityExternalId, EntityTopicId)>,
    external_id: EntityExternalId,
    topic_id: EntityTopicId,
)
    requires
        distinct_keys(index_pairs(old(index)@)),
    ensures
        index_pairs(final(index)@) == with_pair(index_pairs(old(index)@), external_id@, topic_id@),
{
    let ghost before = index_pairs(index@);
    let n: usize = index.len();
    let mut i: usize = 0;
    while i < n
        invariant
            n == index@.len(),
            i <= n,
            index@ == old(index)@,
            before == index_pairs(index@),
            distinct_keys(before),
            forall|k: int| 0 <= k < i ==> index@[k].0@ != external_id@,
        decreases n - i,
    {
        if index[i].0.equals(&external_id) {
            let ghost pair = (external_id@, topic_id@);
            let _ = replace_at(index, i, (external_id, topic_id));
            proof {
                assert(before[i as int].0 == pair.0);
                let at = choose|k: int| 0 <= k < before.len() && before[k].0 == pair.0;
                assert(at == i);
                assert(index_pairs(index@) =~= before.update(i as int, pair));
            }
            return ;
        }
        i = i + 1;
    }
    let ghost pair = (external_id@, topic_id@);
    index.push((external_id, topic_id));
    proof {
        if exists|k: int| 0 <= k < before.len() && before[k].0 == pair.0 {
            let k = choose|k: int| 0 <= k < before.len() && before[k].0 == pair.0;
            assert(old(index)@[k].0@ == pair.0);
        }
        assert(index_pairs(index@) =~= before.push(pair));
    }
}

/// Takes the pair of an external identifier out of the index.
fn remove_pair(index: &mut Vec<(EntityExternalId, EntityTopicId)>, external_id: &EntityExternalId)
    requires
        distinct_keys(index_pairs(old(index)@)),
    ensures
        index_pairs(final(index)@) == without(index_pairs(old(index)@), external_id@),
{
    let ghost before = index_pairs(index@);
    let n: usize = index.len();
    let mut i: usize = 0;
    while i < n
        invariant
            n == index@.len(),
            i <= n,
            index@ == old(index)@,
            before == index_pairs(index@),
            distinct_keys(before),
            forall|k: int| 0 <= k < i ==> index@[k].0@ != external_id@,
        decreases n - i,
    {
        if index[i].0.equals(external_id) {
            let _ = index.remove(i);
            proof {
                assert(before[i as int].0 == external_id@);
                let at = choose|k: int| 0 <= k < before.len() && before[k].0 == external_id@;
                assert(at == i);
                assert(index_pairs(index@) =~= before.remove(i as int));
            }
            return ;
        }
        i = i + 1;
    }
    proof {
        if exists|k: int| 0 <= k < before.len() && before[k].0 == external_id@ {
            let k = choose|k: int| 0 <= k < before.len() && before[k].0 == external_id@;
            assert(old(index)@[k].0@ == external_id@);
        }
    }
}

/// The registry.
pub struct EntityStore<MF, SF> where
    MF: Fn(&EntityTopicId, &EntityExternalId) -> EntityExternalId,
    SF: Fn(&str) -> Result<EntityExternalId, InvalidExternalIdError>,
 {
    main_device: EntityTopicId,
    entities: Vec<EntityMetadata>,
    entity_id_index: Vec<(EntityExternalId, EntityTopicId)>,
    external_id_mapper: MF,
    external_id_validator_fn: SF,
    default_service_type: String,
}

/// The entities of a store, each with its topic identifier.
pub open spec fn entity_pairs(entities: Seq<EntityMetadata>) -> Seq<(TopicIdModel, EntityModel)> {
    Seq::new(entities.len(), |i: int| (entities[i].topic_id@, entities[i]@))
}

/// The index of a store.
pub open spec fn index_pairs(index: Seq<(EntityExternalId, EntityTopicId)>) -> Seq<
    (Seq<char>, TopicIdModel),
> {
    Seq::new(index.len(), |i: int| (index[i].0@, index[i].1@))
}

/// Every entity is filed under its own topic identifier, the main device is
/// among them, and so is the parent of each.
pub open spec fn closed_under_parents(store: StoreModel) -> bool {
    &&& store.entities.contains_key(store.main_device)
    &&& store.entities.dom().finite()
    &&& forall|id: TopicIdModel| #[trigger]
        store.entities.contains_key(id) ==> store.entities[id].topic_id == id && (
        store.entities[id].parent matches Some(parent) ==> store.entities.contains_key(parent))
}

/// What every store keeps beside that: there is one main device, which has
/// no parent; every other entity has one; and the index holds each entity
/// under its external identifier and nothing else, so that no two entities
/// share an external identifier.
pub open spec fn consistent(store: StoreModel) -> bool {
    &&& closed_under_parents(store)
    &&& store.entities[store.main_device].entity_type == EntityType::MainDevice
    &&& store.entities[store.main_device].parent is None
    &&& forall|id: TopicIdModel| #[trigger]
        store.entities.contains_key(id) && id != store.main_device
            ==> store.entities[id].entity_type != EntityType::MainDevice
            && store.entities[id].parent is Some
    &&& forall|id: TopicIdModel| #[trigger]
        store.entities.contains_key(id) ==> store.index.contains_key(
            store.entities[id].external_id,
        ) && store.index[store.entities[id].external_id] == id
    &&& forall|x: Seq<char>| #[trigger]
        store.index.contains_key(x) ==> store.entities.contains_key(store.index[x])
            && store.entities[store.index[x]].external_id == x
}

/// A registration that the store takes keeps it consistent.
pub proof fn lemma_update_keeps_consistent(
    store: StoreModel,
    message: RegistrationModel,
    external_id: Seq<char>,
)
    requires
        consistent(store),
        !parent_missing(store, message),
        !main_device_conflict(store, message),
        !external_id_in_use(store, message.topic_id, external_id),
    ensures
        consistent(store_after_update(store, message, external_id)),
{
    let after = store_after_update(store, message, external_id);
    let t = message.topic_id;
    if after != store {
        assert(after.entities.dom() =~= store.entities.dom().insert(t));
        assert(after.entities[t].topic_id == t);
        assert(after.entities[t].external_id == external_id);
        assert(after.entities[t].parent == resolved_parent(store, message));
        assert(after.entities[t].entity_type == message.entity_type);
        assert forall|id: TopicIdModel| #[trigger] after.entities.contains_key(id) implies after.entities[id].topic_id
            == id && (after.entities[id].parent matches Some(parent) ==> after.entities.contains_key(
            parent,
        )) by {
            if id != t {
                assert(store.entities.contains_key(id));
            }
        }
        assert forall|id: TopicIdModel| #[trigger]
            after.entities.contains_key(id) && id != after.main_device implies after.entities[id].entity_type
            != EntityType::MainDevice && after.entities[id].parent is Some by {
            if id != t {
                assert(store.entities.contains_key(id));
            }
        }
        assert forall|id: TopicIdModel| #[trigger] after.entities.contains_key(id) implies after.index.contains_key(
            after.entities[id].external_id,
        ) && after.index[after.entities[id].external_id] == id by {
            if id != t {
                assert(store.entities.contains_key(id));
                let y = store.entities[id].external_id;
                assert(store.index.contains_key(y) && store.index[y] == id);
                if store.entities.contains_key(t) {
                    let gone = store.entities[t].external_id;
                    assert(store.index[gone] == t);
                }
            }
        }
        assert forall|x: Seq<char>| #[trigger] after.index.contains_key(x) implies after.entities.contains_key(
            after.index[x],
        ) && after.entities[after.index[x]].external_id == x by {
            if x != external_id {
                assert(store.index.contains_key(x));
                let holder = store.index[x];
                assert(store.entities.contains_key(holder));
                assert(store.entities[holder].external_id == x);
            }
        }
    }
}

impl<MF, SF> View for EntityStore<MF, SF> where
    MF: Fn(&EntityTopicId, &EntityExternalId) -> EntityExternalId,
    SF: Fn(&str) -> Result<EntityExternalId, InvalidExternalIdError>,
 {
    type V = StoreModel;

    closed spec fn view(&self) -> StoreModel {
        StoreModel {
            main_device: self.main_device@,
            entities: map_of(entity_pairs(self.entities@)),
            index: map_of(index_pairs(self.entity_id_index@)),
            default_service_type: self.default_service_type@,
        }
    }
}

impl<MF, SF> EntityStore<MF, SF> where
    MF: Fn(&EntityTopicId, &EntityExternalId) -> EntityExternalId,
    SF: Fn(&str) -> Result<EntityExternalId, InvalidExternalIdError>,
 {
    /// What every store keeps: nothing is filed twice, the store is
    /// consistent, and the two functions accept every argument.
    pub closed spec fn wf(&self) -> bool {
        &&& distinct_keys(entity_pairs(self.entities@))
        &&& distinct_keys(index_pairs(self.entity_id_index@))
        &&& consistent(self@)
        &&& forall|id: &EntityTopicId, main: &EntityExternalId|
            self.external_id_mapper.requires((id, main))
        &&& forall|id: &str| self.external_id_validator_fn.requires((id,))
    }

    /// The topic identifiers in the order of their registration.
    pub closed spec fn registered(&self) -> Seq<TopicIdModel> {
        Seq::new(self.entities@.len(), |i: int| self.entities@[i].topic_id@)
    }

    /// The store derives and checks external identifiers with these two
    /// functions.
    pub closed spec fn uses(&self, mapper: MF, validator: SF) -> bool {
        self.external_id_mapper == mapper && self.external_id_validator_fn == validator
    }

    /// Two stores derive and check external identifiers alike.
    pub closed spec fn same_functions(&self, other: &Self) -> bool {
        self.external_id_mapper == other.external_id_mapper && self.external_id_validator_fn
            == other.external_id_validator_fn
    }

    /// Whether the mapper may derive this external identifier for an entity,
    /// given the external identifier of the main device.
    pub closed spec fn derives(&self, id: TopicIdModel, external_id: Seq<char>) -> bool {
        exists|topic_id: EntityTopicId, main: EntityExternalId, answer: EntityExternalId|
            topic_id@ == id && main@ == main_external_id(self@) && answer@ == external_id
                && self.external_id_mapper.ensures((&topic_id, &main), answer)
    }

    /// Whether the validator may accept a given external identifier and
    /// answer with this one.
    pub closed spec fn accepts(&self, given: Seq<char>, external_id: Seq<char>) -> bool {
        exists|text: &str, answer: EntityExternalId|
            text@ == given && answer@ == external_id && self.external_id_validator_fn.ensures(
                (text,),
                Ok::<EntityExternalId, InvalidExternalIdError>(answer),
            )
    }

    /// Whether the validator may refuse a given external identifier with
    /// this error.
    pub closed spec fn refuses(&self, given: Seq<char>, error: InvalidExternalIdError) -> bool {
        exists|text: &str|
            text@ == given && self.external_id_validator_fn.ensures(
                (text,),
                Err::<EntityExternalId, InvalidExternalIdError>(error),
            )
    }

    /// What a valid store keeps: it is consistent, and the list of the
    /// registered topic identifiers holds each entity once.
    pub proof fn lemma_wf(&self)
        requires
            self.wf(),
        ensures
            consistent(self@),
            closed_under_parents(self@),
            self.registered().no_duplicates(),
            forall|id: TopicIdModel|
                self.registered().contains(id) <==> #[trigger] self@.entities.contains_key(id),
            self.registered().len() == self@.entities.dom().len(),
    {
        let pairs = entity_pairs(self.entities@);
        lemma_map_of(pairs);
        lemma_map_len(pairs);
        assert forall|i: int, j: int|
            0 <= i < self.registered().len() && 0 <= j < self.registered().len() && i
                != j implies self.registered()[i] != self.registered()[j] by {
            assert(pairs[i].0 == self.registered()[i]);
            assert(pairs[j].0 == self.registered()[j]);
        }
        assert forall|id: TopicIdModel|
            self.registered().contains(id) <==> #[trigger] self@.entities.contains_key(id) by {
            if self.registered().contains(id) {
                let i = choose|i: int| 0 <= i < self.registered().len() && self.registered()[i] == id;
                assert(pairs[i].0 == id);
            }
            if self@.entities.contains_key(id) {
                let i = choose|i: int| 0 <= i < pairs.len() && pairs[i].0 == id;
                assert(self.registered()[i] == id);
            }
        }
    }

    /// A store that derives and checks external identifiers like one that
    /// uses two functions uses them too.
    pub proof fn lemma_uses(&self, before: &Self, mapper: MF, validator: SF)
        requires
            self.same_functions(before),
            before.uses(mapper, validator),
        ensures
            self.uses(mapper, validator),
    {
    }

    /// What `refuses` says of the validator that the store was made with.
    pub proof fn lemma_refuses(
        &self,
        mapper: MF,
        validator: SF,
        given: Seq<char>,
        error: InvalidExternalIdError,
    )
        requires
            self.uses(mapper, validator),
        ensures
            self.refuses(given, error) <==> exists|text: &str|
                text@ == given && validator.ensures(
                    (text,),
                    Err::<EntityExternalId, InvalidExternalIdError>(error),
                ),
    {
    }

    /// The external identifier that a registration may be filed under: that
    /// of the main device for a main device; else what the validator makes of
    /// the one it brings, or what the mapper derives where it brings none.
    pub open spec fn assigns(&self, message: RegistrationModel, external_id: Seq<char>) -> bool {
        match message.entity_type {
            EntityType::MainDevice => external_id == main_external_id(self@),
            _ => match message.external_id {
                Some(given) => self.accepts(given, external_id),
                None => self.derives(message.topic_id, external_id),
            },
        }
    }

    /// What `derives` says of the mapper that the store was made with.
    pub proof fn lemma_derives(&self, mapper: MF, validator: SF, id: TopicIdModel, external_id: Seq<char>)
        requires
            self.uses(mapper, validator),
        ensures
            self.derives(id, external_id) <==> exists|
                topic_id: EntityTopicId,
                main: EntityExternalId,
                answer: EntityExternalId,
            |
                topic_id@ == id && main@ == main_external_id(self@) && answer@ == external_id
                    && mapper.ensures((&topic_id, &main), answer),
    {
    }

    /// What `accepts` says of the validator that the store was made with.
    pub proof fn lemma_accepts(
        &self,
        mapper: MF,
        validator: SF,
        given: Seq<char>,
        external_id: Seq<char>,
    )
        requires
            self.uses(mapper, validator),
        ensures
            self.accepts(given, external_id) <==> exists|text: &str, answer: EntityExternalId|
                text@ == given && answer@ == external_id && validator.ensures(
                    (text,),
                    Ok::<EntityExternalId, InvalidExternalIdError>(answer),
                ),
    {
    }

    fn find(&self, id: &EntityTopicId) -> (r: Option<usize>)
        requires
            self.wf(),
        ensures
            match r {
                Some(i) => i < self.entities@.len() && self.entities@[i as int].topic_id@ == id@
                    && self@.entities.contains_key(id@) && self@.entities[id@]
                    == self.entities@[i as int]@,
                None => !self@.entities.contains_key(id@),
            },
    {
        proof {
            lemma_map_of(entity_pairs(self.entities@));
        }
        let n: usize = self.entities.len();
        let mut i: usize = 0;
        while i < n
            invariant
                self.wf(),
                n == self.entities@.len(),
                i <= n,
                forall|k: int| 0 <= k < i ==> self.entities@[k].topic_id@ != id@,
            decreases n - i,
        {
            if self.entities[i].topic_id.equals(id) {
                proof {
                            lemma_map_of(entity_pairs(self.entities@));
                    assert(entity_pairs(self.entities@)[i as int].0 == id@);
                }
                return Some(i);
            }
            i = i + 1;
        }
        proof {
            if self@.entities.contains_key(id@) {
                let k = choose|k: int|
                    0 <= k < entity_pairs(self.entities@).len() && entity_pairs(
                        self.entities@,
                    )[k].0 == id@;
                assert(self.entities@[k].topic_id@ == id@);
            }
        }
        None
    }

    /// The entity under a topic identifier.
    pub fn get(&self, entity_topic_id: &EntityTopicId) -> (r: Option<&EntityMetadata>)
        requires
            self.wf(),
        ensures
            match r {
                Some(entity) => entity_of(self@, entity_topic_id@) == Some(entity@),
                None => entity_of(self@, entity_topic_id@) is None,
            },
    {
        match self.find(entity_topic_id) {
            Some(i) => Some(&self.entities[i]),
            None => None,
        }
    }

    /// The entity under a topic identifier; `UnknownEntity` with the
    /// identifier where there is none.
    pub fn try_get(&self, entity_topic_id: &EntityTopicId) -> (r: Result<&EntityMetadata, Error>)
        requires
            self.wf(),
        ensures
            match r {
                Ok(entity) => entity_of(self@, entity_topic_id@) == Some(entity@),
                Err(Error::UnknownEntity(name)) => entity_of(self@, entity_topic_id@) is None
                    && name@ == topic_id_text(entity_topic_id@),
                Err(_) => false,
            },
    {
        match self.get(entity_topic_id) {
            Some(entity) => Ok(entity),
            None => Err(Error::UnknownEntity(entity_topic_id.to_text())),
        }
    }

    /// Creates a store that holds the main device alone, with `service` as
    /// the default service type. The mapper derives external identifiers,
    /// the validator checks those that registrations bring; both have to
    /// accept every argument.
    pub fn with_main_device(
        main_device: EntityRegistrationMessage,
        external_id_mapper_fn: MF,
        external_id_validator_fn: SF,
    ) -> (r: Option<Self>)
        requires
            forall|id: &EntityTopicId, main: &EntityExternalId|
                external_id_mapper_fn.requires((id, main)),
            forall|id: &str| external_id_validator_fn.requires((id,)),
        ensures
            r is Some <==> main_device.entity_type == EntityType::MainDevice
                && main_device.external_id is Some,
            r matches Some(store) ==> store.wf() && store@ == initial_store(main_device@, "service"@)
                && consistent(store@) && rooted(store@) && store.registered()
                == seq![main_device.topic_id@] && store.uses(
                external_id_mapper_fn,
                external_id_validator_fn,
            ),
    {
        Self::with_main_device_and_default_service_type(
            main_device,
            String::from_str("service"),
            external_id_mapper_fn,
            external_id_validator_fn,
        )
    }

    /// Creates a store that holds the main device alone. There is none
    /// where the registration is not that of a main device or brings no
    /// external identifier.
    pub fn with_main_device_and_default_service_type(
        main_device: EntityRegistrationMessage,
        default_service_type: String,
        external_id_mapper_fn: MF,
        external_id_validator_fn: SF,
    ) -> (r: Option<Self>)
        requires
            forall|id: &EntityTopicId, main: &EntityExternalId|
                external_id_mapper_fn.requires((id, main)),
            forall|id: &str| external_id_validator_fn.requires((id,)),
        ensures
            r is Some <==> main_device.entity_type == EntityType::MainDevice
                && main_device.external_id is Some,
            r matches Some(store) ==> store.wf() && store@ == initial_store(
                main_device@,
                default_service_type@,
            ) && consistent(store@) && rooted(store@) && store.registered()
                == seq![main_device.topic_id@] && store.uses(
                external_id_mapper_fn,
                external_id_validator_fn,
            ),
    {
        proof {
            law_initial_store_is_rooted(main_device@, default_service_type@);
        }
        if main_device.entity_type != EntityType::MainDevice {
            return None;
        }
        let entity_id = match main_device.external_id {
            Some(id) => id,
            None => {
                return None;
            },
        };
        let ghost message = main_device@;
        let metadata = EntityMetadata {
            topic_id: main_device.topic_id.clone(),
            external_id: entity_id.clone(),
            entity_type: main_device.entity_type,
            parent: None,
            other: main_device.other,
            twin_data: JsonObject::new(),
        };
        let mut entities: Vec<EntityMetadata> = Vec::new();
        entities.push(metadata);
        let mut entity_id_index: Vec<(EntityExternalId, EntityTopicId)> = Vec::new();
        entity_id_index.push((entity_id, main_device.topic_id.clone()));
        proof {
            let pairs = entity_pairs(entities@);
            let index = index_pairs(entity_id_index@);
            lemma_map_of(pairs);
            lemma_map_of(index);
            assert(pairs =~= with_pair(Seq::<(TopicIdModel, EntityModel)>::empty(), pairs[0].0, pairs[0].1));
            assert(index =~= with_pair(Seq::<(Seq<char>, TopicIdModel)>::empty(), index[0].0, index[0].1));
            lemma_with_pair(Seq::<(TopicIdModel, EntityModel)>::empty(), pairs[0].0, pairs[0].1);
            lemma_with_pair(Seq::<(Seq<char>, TopicIdModel)>::empty(), index[0].0, index[0].1);
            assert(map_of(Seq::<(TopicIdModel, EntityModel)>::empty()) =~= Map::<
                TopicIdModel,
                EntityModel,
            >::empty());
            assert(map_of(Seq::<(Seq<char>, TopicIdModel)>::empty()) =~= Map::<
                Seq<char>,
                TopicIdModel,
            >::empty());
            assert(map_of(pairs).dom() =~= set![message.topic_id]);
        }
        let store = EntityStore {
            main_device: main_device.topic_id,
            entities,
            entity_id_index,
            external_id_mapper: external_id_mapper_fn,
            external_id_validator_fn,
            default_service_type,
        };
        assert(store.registered() =~= seq![message.topic_id]);
        Some(store)
    }

    fn holder(&self, external_id: &EntityExternalId) -> (r: Option<usize>)
        requires
            self.wf(),
        ensures
            match r {
                Some(i) => i < self.entity_id_index@.len() && self@.index.contains_key(
                    external_id@,
                ) && self@.index[external_id@] == self.entity_id_index@[i as int].1@,
                None => !self@.index.contains_key(external_id@),
            },
    {
        let n: usize = self.entity_id_index.len();
        let mut i: usize = 0;
        while i < n
            invariant
                self.wf(),
                n == self.entity_id_index@.len(),
                i <= n,
                forall|k: int| 0 <= k < i ==> self.entity_id_index@[k].0@ != external_id@,
            decreases n - i,
        {
            if self.entity_id_index[i].0.equals(external_id) {
                proof {
                    lemma_map_of(index_pairs(self.entity_id_index@));
                    assert(index_pairs(self.entity_id_index@)[i as int].0 == external_id@);
                }
                return Some(i);
            }
            i = i + 1;
        }
        proof {
            if self@.index.contains_key(external_id@) {
                let k = choose|k: int|
                    0 <= k < index_pairs(self.entity_id_index@).len() && index_pairs(
                        self.entity_id_index@,
                    )[k].0 == external_id@;
                assert(self.entity_id_index@[k].0@ == external_id@);
            }
        }
        None
    }

    /// The entity under an external identifier: the one under the topic
    /// identifier that the index holds for it.
    pub fn get_by_external_id(&self, external_id: &EntityExternalId) -> (r: Option<&EntityMetadata>)
        requires
            self.wf(),
        ensures
            match r {
                Some(entity) => entity_of_external_id(self@, external_id@) == Some(entity@)
                    && entity@.external_id == external_id@ && entity@.topic_id
                    == self@.index[external_id@],
                None => entity_of_external_id(self@, external_id@) is None,
            },
    {
        match self.holder(external_id) {
            Some(i) => self.get(&self.entity_id_index[i].1),
            None => None,
        }
    }

    /// The entity under an external identifier; `UnknownEntity` with the
    /// identifier where there is none.
    pub fn try_get_by_external_id(&self, external_id: &EntityExternalId) -> (r: Result<
        &EntityMetadata,
        Error,
    >)
        requires
            self.wf(),
        ensures
            match r {
                Ok(entity) => entity_of_external_id(self@, external_id@) == Some(entity@),
                Err(Error::UnknownEntity(name)) => entity_of_external_id(self@, external_id@) is None
                    && name@ == external_id@,
                Err(_) => false,
            },
    {
        match self.get_by_external_id(external_id) {
            Some(entity) => Ok(entity),
            None => Err(Error::UnknownEntity(external_id.clone().into_string())),
        }
    }

    fn resolve_parent(&self, message: &EntityRegistrationMessage) -> (r: Option<EntityTopicId>)
        ensures
            optional_id(r) == resolved_parent(self@, message@),
    {
        match message.entity_type {
            EntityType::MainDevice => None,
            EntityType::ChildDevice => match &message.parent {
                Some(parent) => Some(parent.clone()),
                None => Some(self.main_device.clone()),
            },
            EntityType::Service => match &message.parent {
                Some(parent) => Some(parent.clone()),
                None => match message.topic_id.default_parent_identifier() {
                    Some(parent) => Some(parent),
                    None => Some(self.main_device.clone()),
                },
            },
        }
    }

    /// Files a registration whose parent is present under a given external
    /// identifier.
    fn upsert(
        &mut self,
        message: EntityRegistrationMessage,
        parent: Option<EntityTopicId>,
        external_id: EntityExternalId,
    ) -> (affected: Vec<EntityTopicId>)
        requires
            old(self).wf(),
            optional_id(parent) == resolved_parent(old(self)@, message@),
            !parent_missing(old(self)@, message@),
            !main_device_conflict(old(self)@, message@),
            !external_id_in_use(old(self)@, message.topic_id@, external_id@),
        ensures
            final(self)@ == store_after_update(old(self)@, message@, external_id@),
            ids_model(affected@) == affected_by_update(old(self)@, message@, external_id@),
            final(self).wf(),
            final(self).same_functions(old(self)),
            consistent(final(self)@),
            rooted(old(self)@) && !moves_under_itself(old(self)@, message@) ==> rooted(
                final(self)@,
            ),
            final(self).registered() == if old(self)@.entities.contains_key(message.topic_id@) {
                old(self).registered()
            } else {
                old(self).registered().push(message.topic_id@)
            },
    {
        proof {
            lemma_map_of(entity_pairs(self.entities@));
            lemma_map_of(index_pairs(self.entity_id_index@));
            if rooted(self@) && !moves_under_itself(self@, message@) {
                law_registration_keeps_rooted(self@, message@, external_id@);
            }
        }
        let ghost before = self@;
        let ghost before_pairs = entity_pairs(self.entities@);
        let ghost before_index = index_pairs(self.entity_id_index@);
        let ghost before_registered = self.registered();
        let ghost msg = message@;
        proof {
            lemma_update_keeps_consistent(before, msg, external_id@);
        }
        let mut affected: Vec<EntityTopicId> = Vec::new();
        match &parent {
            Some(parent) => {
                affected.push(parent.clone());
            },
            None => {},
        }
        let topic_id = message.topic_id;
        let mut other = message.other;
        if message.entity_type == EntityType::Service {
            other.insert_if_absent(
                String::from_str("type"),
                JsonValue::Text(self.default_service_type.clone()),
            );
        }
        let described = EntityMetadata {
            topic_id: topic_id.clone(),
            entity_type: message.entity_type,
            external_id: external_id.clone(),
            parent,
            other,
            twin_data: JsonObject::new(),
        };
        assert(described@ == described_entity(before, msg, external_id@));
        match self.find(&topic_id) {
            Some(i) => {
                let mut merged_other = self.entities[i].other.clone();
                merged_other.extend(&described.other);
                let merged = EntityMetadata {
                    topic_id: described.topic_id,
                    entity_type: described.entity_type,
                    external_id: described.external_id,
                    parent: described.parent,
                    other: merged_other,
                    twin_data: self.entities[i].twin_data.clone(),
                };
                let ghost merged_model = merged@;
                assert(merged_model == registered_entity(before, msg, external_id@));
                if self.entities[i].equals(&merged) {
                    let none: Vec<EntityTopicId> = Vec::new();
                    assert(ids_model(none@) =~= Seq::<TopicIdModel>::empty());
                    assert(self.registered() =~= before_registered);
                    return none;
                }
                let previous_id = self.entities[i].external_id.clone();
                proof {
                    assert(before_pairs[i as int].0 == msg.topic_id);
                    lemma_without(before_index, previous_id@);
                    lemma_with_pair(without(before_index, previous_id@), external_id@, msg.topic_id);
                    lemma_with_pair(before_pairs, msg.topic_id, merged_model);
                    assert(before_pairs.update(i as int, (msg.topic_id, merged_model)) =~= with_pair(
                        before_pairs,
                        msg.topic_id,
                        merged_model,
                    ));
                }
                let _ = replace_at(&mut self.entities, i, merged);
                proof {
                    assert(entity_pairs(self.entities@) =~= before_pairs.update(
                        i as int,
                        (msg.topic_id, merged_model),
                    ));
                    assert(self.registered() =~= before_registered);
                }
                remove_pair(&mut self.entity_id_index, &previous_id);
                put_pair(&mut self.entity_id_index, external_id, topic_id.clone());
                affected.push(topic_id);
                proof {
                    assert(ids_model(affected@) =~= affected_by_update(before, msg, external_id@));
                }
                affected
            },
            None => {
                let ghost described_model = described@;
                proof {
                    lemma_with_pair(before_pairs, msg.topic_id, described_model);
                    assert(before_pairs.push((msg.topic_id, described_model)) =~= with_pair(
                        before_pairs,
                        msg.topic_id,
                        described_model,
                    ));
                    lemma_with_pair(before_index, external_id@, msg.topic_id);
                }
                self.entities.push(described);
                proof {
                    assert(entity_pairs(self.entities@) =~= before_pairs.push(
                        (msg.topic_id, described_model),
                    ));
                }
                put_pair(&mut self.entity_id_index, external_id, topic_id);
                proof {
                    assert(self.registered() =~= before_registered.push(msg.topic_id));
                    assert(ids_model(affected@) =~= affected_by_update(before, msg, external_id@));
                }
                affected
            },
        }
    }

    /// What the store has against a registration, whatever its external
    /// identifier: the parent that it gets is missing, or it is at odds with
    /// the one main device.
    fn check(&self, message: &EntityRegistrationMessage, parent: &Option<EntityTopicId>) -> (r:
        Result<(), Error>)
        requires
            self.wf(),
            optional_id(*parent) == resolved_parent(self@, message@),
        ensures
            match r {
                Ok(()) => !parent_missing(self@, message@) && !main_device_conflict(
                    self@,
                    message@,
                ),
                Err(Error::NoParent(name)) => parent_missing(self@, message@) && name@
                    == topic_id_text(resolved_parent(self@, message@)->0),
                Err(Error::MainDeviceAlreadyRegistered(name)) => !parent_missing(self@, message@)
                    && main_device_conflict(self@, message@) && name@ == topic_id_text(
                    self@.main_device,
                ),
                Err(_) => false,
            },
    {
        match parent {
            Some(parent) => {
                if self.find(parent).is_none() {
                    return Err(Error::NoParent(parent.to_text()));
                }
            },
            None => {},
        }
        let main_topic = message.topic_id.equals(&self.main_device);
        let main_type = message.entity_type == EntityType::MainDevice;
        if main_topic != main_type {
            return Err(Error::MainDeviceAlreadyRegistered(self.main_device.to_text()));
        }
        Ok(())
    }

    /// Whether an external identifier belongs to another entity than the
    /// one under a topic identifier.
    fn in_use(&self, topic_id: &EntityTopicId, external_id: &EntityExternalId) -> (r: bool)
        requires
            self.wf(),
        ensures
            r == external_id_in_use(self@, topic_id@, external_id@),
    {
        match self.holder(external_id) {
            Some(i) => !self.entity_id_index[i].1.equals(topic_id),
            None => false,
        }
    }

    /// Files a registration under a given external identifier; that of the
    /// main device under the external identifier which the main device has.
    ///
    /// It fails with `NoParent` and the parent's topic identifier where the
    /// parent that the registration gets is not registered; else with
    /// `MainDeviceAlreadyRegistered` where the registration is at odds with the
    /// one main device; else with `ExternalIdInUse` where the external
    /// identifier belongs to another entity. The store is then unchanged.
    pub fn update_with_external_id(
        &mut self,
        message: EntityRegistrationMessage,
        external_id: EntityExternalId,
    ) -> (r: Result<Vec<EntityTopicId>, Error>)
        requires
            old(self).wf(),
        ensures
            final(self).wf(),
            final(self).same_functions(old(self)),
            consistent(final(self)@),
            final(self)@.main_device == old(self)@.main_device,
            main_external_id(final(self)@) == main_external_id(old(self)@),
            rooted(old(self)@) && !moves_under_itself(old(self)@, message@) ==> rooted(
                final(self)@,
            ),
            final(self).registered() == if r is Ok && !old(self)@.entities.contains_key(
                message.topic_id@,
            ) {
                old(self).registered().push(message.topic_id@)
            } else {
                old(self).registered()
            },
            match r {
                Ok(affected) => !parent_missing(old(self)@, message@) && !main_device_conflict(
                    old(self)@,
                    message@,
                ) && !external_id_in_use(
                    old(self)@,
                    message.topic_id@,
                    filed_under(old(self)@, message@, external_id@),
                ) && final(self)@ == store_after_update(
                    old(self)@,
                    message@,
                    filed_under(old(self)@, message@, external_id@),
                ) && ids_model(affected@) == affected_by_update(
                    old(self)@,
                    message@,
                    filed_under(old(self)@, message@, external_id@),
                ),
                Err(Error::NoParent(name)) => parent_missing(old(self)@, message@) && name@
                    == topic_id_text(resolved_parent(old(self)@, message@)->0) && final(self)@
                    == old(self)@,
                Err(Error::MainDeviceAlreadyRegistered(name)) => !parent_missing(
                    old(self)@,
                    message@,
                ) && main_device_conflict(old(self)@, message@) && name@ == topic_id_text(
                    old(self)@.main_device,
                ) && final(self)@ == old(self)@,
                Err(Error::ExternalIdInUse(name)) => !parent_missing(old(self)@, message@)
                    && !main_device_conflict(old(self)@, message@) && external_id_in_use(
                    old(self)@,
                    message.topic_id@,
                    filed_under(old(self)@, message@, external_id@),
                ) && name@ == filed_under(old(self)@, message@, external_id@) && final(self)@
                    == old(self)@,
                Err(_) => false,
            },
    {
        let parent = self.resolve_parent(&message);
        match self.check(&message, &parent) {
            Ok(()) => {},
            Err(e) => {
                return Err(e);
            },
        }
        let external_id = match message.entity_type {
            EntityType::MainDevice => self.main_device_external_id(),
            _ => external_id,
        };
        if self.in_use(&message.topic_id, &external_id) {
            return Err(Error::ExternalIdInUse(external_id.into_string()));
        }
        Ok(self.upsert(message, parent, external_id))
    }

    /// Registers an entity, or updates a registered one, and tells which
    /// entities that affects.
    ///
    /// It fails with `NoParent` where the parent that the registration gets
    /// is not registered; else with `MainDeviceAlreadyRegistered` where the
    /// registration is at odds with the one main device; else with the
    /// validator's error where that refuses the external identifier which the
    /// registration brings; else with `ExternalIdInUse` where the external
    /// identifier belongs to another entity. The store is then unchanged.
    pub fn update(&mut self, message: EntityRegistrationMessage) -> (r: Result<
        Vec<EntityTopicId>,
        Error,
    >)
        requires
            old(self).wf(),
        ensures
            final(self).wf(),
            final(self).same_functions(old(self)),
            consistent(final(self)@),
            final(self)@.main_device == old(self)@.main_device,
            main_external_id(final(self)@) == main_external_id(old(self)@),
            rooted(old(self)@) && !moves_under_itself(old(self)@, message@) ==> rooted(
                final(self)@,
            ),
            final(self).registered() == if r is Ok && !old(self)@.entities.contains_key(
                message.topic_id@,
            ) {
                old(self).registered().push(message.topic_id@)
            } else {
                old(self).registered()
            },
            match r {
                Ok(affected) => !parent_missing(old(self)@, message@) && !main_device_conflict(
                    old(self)@,
                    message@,
                ) && exists|external_id: Seq<char>|
                    old(self).assigns(message@, external_id) && !external_id_in_use(
                        old(self)@,
                        message.topic_id@,
                        external_id,
                    ) && final(self)@ == store_after_update(old(self)@, message@, external_id)
                        && ids_model(affected@) == affected_by_update(
                        old(self)@,
                        message@,
                        external_id,
                    ),
                Err(Error::NoParent(name)) => parent_missing(old(self)@, message@) && name@
                    == topic_id_text(resolved_parent(old(self)@, message@)->0) && final(self)@
                    == old(self)@,
                Err(Error::MainDeviceAlreadyRegistered(name)) => !parent_missing(
                    old(self)@,
                    message@,
                ) && main_device_conflict(old(self)@, message@) && name@ == topic_id_text(
                    old(self)@.main_device,
                ) && final(self)@ == old(self)@,
                Err(Error::InvalidExternalIdError(error)) => !parent_missing(old(self)@, message@)
                    && !main_device_conflict(old(self)@, message@) && message.entity_type
                    != EntityType::MainDevice && message@.external_id is Some && old(self).refuses(
                    message@.external_id->0,
                    error,
                ) && final(self)@ == old(self)@,
                Err(Error::ExternalIdInUse(name)) => !parent_missing(old(self)@, message@)
                    && !main_device_conflict(old(self)@, message@) && old(self).assigns(
                    message@,
                    name@,
                ) && external_id_in_use(old(self)@, message.topic_id@, name@) && final(self)@
                    == old(self)@,
                Err(_) => false,
            },
    {
        let parent = self.resolve_parent(&message);
        match self.check(&message, &parent) {
            Ok(()) => {},
            Err(e) => {
                return Err(e);
            },
        }
        let external_id = match message.entity_type {
            EntityType::MainDevice => self.main_device_external_id(),
            _ => match &message.external_id {
                Some(id) => match (self.external_id_validator_fn)(id.as_ref()) {
                    Ok(checked) => checked,
                    Err(error) => {
                        return Err(Error::InvalidExternalIdError(error));
                    },
                },
                None => {
                    let main = self.main_device_external_id();
                    (self.external_id_mapper)(&message.topic_id, &main)
                },
            },
        };
        assert(self.assigns(message@, external_id@));
        self.update_with_external_id(message, external_id)
    }

    /// The ancestors of an entity, from its parent up to the main device.
    ///
    /// The walk follows at most as many parents as there are entities:
    /// where no entity is its own ancestor, that is the whole chain.
    pub fn ancestors<'a>(&'a self, entity_topic_id: &'a EntityTopicId) -> (r: Result<
        Vec<&'a EntityTopicId>,
        Error,
    >)
        requires
            self.wf(),
        ensures
            match r {
                Ok(list) => self@.entities.contains_key(entity_topic_id@) && id_refs_model(list@)
                    == ancestors_of(self@, entity_topic_id@),
                Err(Error::UnknownEntity(name)) => !self@.entities.contains_key(entity_topic_id@)
                    && name@ == topic_id_text(entity_topic_id@),
                Err(_) => false,
            },
    {
        if self.find(entity_topic_id).is_none() {
            return Err(Error::UnknownEntity(entity_topic_id.to_text()));
        }
        proof {
            lemma_map_len(entity_pairs(self.entities@));
        }
        let total: usize = self.entities.len();
        let mut ancestors: Vec<&'a EntityTopicId> = Vec::new();
        let mut current: &'a EntityTopicId = entity_topic_id;
        let mut steps: usize = 0;
        let mut done: bool = false;
        assert(id_refs_model(ancestors@) + ancestors_within(self@, current@, total as nat)
            =~= ancestors_within(self@, current@, total as nat));
        while steps < total && !done
            invariant
                self.wf(),
                steps <= total,
                total == self@.entities.dom().len(),
                !done ==> ancestors_of(self@, entity_topic_id@) == id_refs_model(ancestors@)
                    + ancestors_within(self@, current@, (total - steps) as nat),
                done ==> ancestors_of(self@, entity_topic_id@) == id_refs_model(ancestors@),
            decreases total - steps, (if done { 0int } else { 1int }),
        {
            let ghost so_far = id_refs_model(ancestors@);
            match self.find(current) {
                Some(i) => match &self.entities[i].parent {
                    Some(parent) => {
                        ancestors.push(parent);
                        proof {
                            assert(id_refs_model(ancestors@) =~= so_far.push(parent@));
                            assert(so_far + (seq![parent@] + ancestors_within(
                                self@,
                                parent@,
                                (total - steps - 1) as nat,
                            )) =~= so_far.push(parent@) + ancestors_within(
                                self@,
                                parent@,
                                (total - steps - 1) as nat,
                            ));
                        }
                        current = parent;
                        steps = steps + 1;
                    },
                    None => {
                        proof {
                            assert(so_far + Seq::<TopicIdModel>::empty() =~= so_far);
                        }
                        done = true;
                    },
                },
                None => {
                    proof {
                        assert(so_far + Seq::<TopicIdModel>::empty() =~= so_far);
                    }
                    done = true;
                },
            }
        }
        proof {
            if !done {
                assert(id_refs_model(ancestors@) + Seq::<TopicIdModel>::empty() =~= id_refs_model(
                    ancestors@,
                ));
            }
        }
        Ok(ancestors)
    }

    /// The external identifiers of the ancestors of an entity, in the order
    /// of `ancestors`.
    pub fn ancestors_external_ids(&self, entity_topic_id: &EntityTopicId) -> (r: Result<
        Vec<String>,
        Error,
    >)
        requires
            self.wf(),
        ensures
            match r {
                Ok(list) => self@.entities.contains_key(entity_topic_id@) && list@.len()
                    == ancestors_of(self@, entity_topic_id@).len() && forall|i: int|
                    0 <= i < list@.len() ==> self@.entities.contains_key(
                        ancestors_of(self@, entity_topic_id@)[i],
                    ) && (#[trigger] list@[i])@ == self@.entities[ancestors_of(
                        self@,
                        entity_topic_id@,
                    )[i]].external_id,
                Err(Error::UnknownEntity(name)) => !self@.entities.contains_key(entity_topic_id@)
                    && name@ == topic_id_text(entity_topic_id@),
                Err(_) => false,
            },
    {
        let ancestors = match self.ancestors(entity_topic_id) {
            Ok(ancestors) => ancestors,
            Err(e) => {
                return Err(e);
            },
        };
        let ghost chain = ancestors_of(self@, entity_topic_id@);
        proof {
            lemma_ancestors_registered(self@, entity_topic_id@, self@.entities.dom().len());
        }
        let mut external_ids: Vec<String> = Vec::new();
        let n: usize = ancestors.len();
        let mut i: usize = 0;
        while i < n
            invariant
                self.wf(),
                n == ancestors@.len(),
                i <= n,
                id_refs_model(ancestors@) == chain,
                forall|k: int| 0 <= k < chain.len() ==> self@.entities.contains_key(chain[k]),
                external_ids@.len() == i,
                forall|k: int|
                    0 <= k < i ==> (#[trigger] external_ids@[k])@
                        == self@.entities[chain[k]].external_id,
            decreases n - i,
        {
            assert(id_refs_model(ancestors@)[i as int] == ancestors@[i as int]@);
            match self.find(ancestors[i]) {
                Some(at) => {
                    external_ids.push(self.entities[at].external_id.clone().into_string());
                },
                None => {
                    proof {
                        assert(self@.entities.contains_key(chain[i as int]));
                        assert(false);
                    }
                },
            }
            i = i + 1;
        }
        Ok(external_ids)
    }

    /// The child devices of an entity, in the order of their registration.
    pub fn child_devices(&self, entity_topic: &EntityTopicId) -> (r: Vec<&EntityTopicId>)
        requires
            self.wf(),
        ensures
            id_refs_model(r@) == members_of(
                self@,
                self.registered(),
                entity_topic@,
                EntityType::ChildDevice,
            ),
            forall|id: TopicIdModel| #[trigger]
                id_refs_model(r@).contains(id) <==> self@.entities.contains_key(id)
                    && self@.entities[id].parent == Some(entity_topic@) && self@.entities[id].entity_type
                    == EntityType::ChildDevice,
    {
        self.members(entity_topic, EntityType::ChildDevice)
    }

    /// The services of an entity, in the order of their registration.
    pub fn services(&self, entity_topic: &EntityTopicId) -> (r: Vec<&EntityTopicId>)
        requires
            self.wf(),
        ensures
            id_refs_model(r@) == members_of(
                self@,
                self.registered(),
                entity_topic@,
                EntityType::Service,
            ),
            forall|id: TopicIdModel| #[trigger]
                id_refs_model(r@).contains(id) <==> self@.entities.contains_key(id)
                    && self@.entities[id].parent == Some(entity_topic@) && self@.entities[id].entity_type
                    == EntityType::Service,
    {
        self.members(entity_topic, EntityType::Service)
    }

    fn members(&self, parent: &EntityTopicId, entity_type: EntityType) -> (r: Vec<&EntityTopicId>)
        requires
            self.wf(),
        ensures
            id_refs_model(r@) == members_of(self@, self.registered(), parent@, entity_type),
            forall|id: TopicIdModel| #[trigger]
                id_refs_model(r@).contains(id) <==> self@.entities.contains_key(id)
                    && self@.entities[id].parent == Some(parent@) && self@.entities[id].entity_type
                    == entity_type,
    {
        proof {
            lemma_map_of(entity_pairs(self.entities@));
            self.lemma_wf();
            lemma_members_of(self@, self.registered(), parent@, entity_type);
        }
        let mut found: Vec<&EntityTopicId> = Vec::new();
        let n: usize = self.entities.len();
        let mut i: usize = 0;
        assert(self.registered().take(0) =~= Seq::<TopicIdModel>::empty());
        assert(id_refs_model(found@) =~= Seq::<TopicIdModel>::empty());
        while i < n
            invariant
                self.wf(),
                n == self.entities@.len(),
                i <= n,
                id_refs_model(found@) == members_of(
                    self@,
                    self.registered().take(i as int),
                    parent@,
                    entity_type,
                ),
            decreases n - i,
        {
            let entity = &self.entities[i];
            let ghost so_far = id_refs_model(found@);
            proof {
                lemma_map_of(entity_pairs(self.entities@));
                let upto = self.registered().take(i + 1);
                assert(upto.drop_last() =~= self.registered().take(i as int));
                assert(upto.last() == entity.topic_id@);
                assert(entity_pairs(self.entities@)[i as int].0 == entity.topic_id@);
                assert(self@.entities[entity.topic_id@] == entity@);
            }
            let is_member = match &entity.parent {
                Some(p) => p.equals(parent),
                None => false,
            } && entity.entity_type == entity_type;
            if is_member {
                found.push(&entity.topic_id);
                assert(id_refs_model(found@) =~= so_far.push(entity.topic_id@));
            }
            i = i + 1;
        }
        assert(self.registered().take(n as int) =~= self.registered());
        found
    }

    /// All the entities, in the order of their registration.
    pub fn iter(&self) -> (r: Vec<(&EntityTopicId, &EntityMetadata)>)
        requires
            self.wf(),
        ensures
            r@.len() == self.registered().len(),
            forall|i: int|
                0 <= i < r@.len() ==> (#[trigger] r@[i]).0@ == self.registered()[i]
                    && self@.entities.contains_key(r@[i].0@) && r@[i].1@
                    == self@.entities[r@[i].0@],
    {
        proof {
            lemma_map_of(entity_pairs(self.entities@));
        }
        let mut all: Vec<(&EntityTopicId, &EntityMetadata)> = Vec::new();
        let n: usize = self.entities.len();
        let mut i: usize = 0;
        while i < n
            invariant
                self.wf(),
                n == self.entities@.len(),
                i <= n,
                all@.len() == i,
                forall|k: int|
                    0 <= k < i ==> (#[trigger] all@[k]).0@ == self.registered()[k]
                        && self@.entities.contains_key(all@[k].0@) && all@[k].1@
                        == self@.entities[all@[k].0@],
            decreases n - i,
        {
            proof {
                lemma_map_of(entity_pairs(self.entities@));
                assert(entity_pairs(self.entities@)[i as int].0 == self.entities@[i as int].topic_id@);
            }
            all.push((&self.entities[i].topic_id, &self.entities[i]));
            i = i + 1;
        }
        all
    }

    /// How a store and its answer relate after an entity of the default
    /// scheme, other than `device/main//`, has registered itself, for the
    /// external identifiers that the mapper derived and those that the
    /// validator made of them.
    pub open spec fn auto_registered(
        &self,
        after: StoreModel,
        messages: Seq<RegistrationModel>,
        id: TopicIdModel,
        device_derived: Seq<char>,
        device_stored: Seq<char>,
        service_derived: Seq<char>,
        service_stored: Seq<char>,
    ) -> bool {
        let device = default_parent_of(id)->0;
        let first = device_registration(device, device_name_of(id)->0, device_derived);
        let second = service_registration(
            id,
            device,
            service_name_of(id)->0,
            self@.default_service_type,
            service_derived,
        );
        let middle = if device_missing(self@, id) {
            store_after_update(self@, first, device_stored)
        } else {
            self@
        };
        &&& device_missing(self@, id) ==> self.derives(device, device_derived) && self.accepts(
            device_derived,
            device_stored,
        ) && !external_id_in_use(self@, device, device_stored)
        &&& service_name_of(id) is Some ==> self.derives(id, service_derived) && self.accepts(
            service_derived,
            service_stored,
        ) && !parent_missing(middle, second) && !main_device_conflict(middle, second)
            && !external_id_in_use(middle, id, service_stored)
        &&& after == if service_name_of(id) is Some {
            store_after_update(middle, second, service_stored)
        } else {
            middle
        }
        &&& messages == (if device_missing(self@, id) {
            seq![first]
        } else {
            Seq::<RegistrationModel>::empty()
        }) + (if service_name_of(id) is Some {
            seq![second]
        } else {
            Seq::<RegistrationModel>::empty()
        })
    }

    /// `auto_registered` for some external identifiers.
    pub open spec fn auto_registered_for_some(
        &self,
        after: StoreModel,
        messages: Seq<RegistrationModel>,
        id: TopicIdModel,
    ) -> bool {
        exists|
            device_derived: Seq<char>,
            device_stored: Seq<char>,
            service_derived: Seq<char>,
            service_stored: Seq<char>,
        |
            self.auto_registered(
                after,
                messages,
                id,
                device_derived,
                device_stored,
                service_derived,
                service_stored,
            )
    }

    /// Whether a store is this one after the device of an entity has been
    /// registered, for some external identifier that the mapper derived and
    /// the validator accepted.
    pub open spec fn device_registered_for_some(&self, after: StoreModel, id: TopicIdModel) -> bool {
        device_missing(self@, id) && exists|device_derived: Seq<char>, device_stored: Seq<char>|
            self.derives(default_parent_of(id)->0, device_derived) && self.accepts(
                device_derived,
                device_stored,
            ) && !external_id_in_use(self@, default_parent_of(id)->0, device_stored) && after
                == #[trigger] store_after_update(
                self@,
                device_registration(
                    default_parent_of(id)->0,
                    device_name_of(id)->0,
                    device_derived,
                ),
                device_stored,
            )
    }

    /// Whether the first step of a self-registration is behind: the device
    /// of the entity has been registered where it had to be, and nothing has
    /// changed where it had not.
    pub open spec fn device_step_done(&self, after: StoreModel, id: TopicIdModel) -> bool {
        if device_missing(self@, id) {
            self.device_registered_for_some(after, id)
        } else {
            after == self@
        }
    }

    /// Whether the validator refuses, with this error, an external
    /// identifier that the mapper derives for an entity.
    pub open spec fn derived_id_refused(
        &self,
        id: TopicIdModel,
        error: crate::entity_store::InvalidExternalIdError,
    ) -> bool {
        exists|derived: Seq<char>| self.derives(id, derived) && self.refuses(derived, error)
    }

    /// Whether an external identifier, which the validator made of one that
    /// the mapper derives for an entity, belongs in a store to another entity.
    pub open spec fn derived_id_in_use(
        &self,
        store: StoreModel,
        id: TopicIdModel,
        external_id: Seq<char>,
    ) -> bool {
        external_id_in_use(store, id, external_id) && exists|derived: Seq<char>|
            self.derives(id, derived) && self.accepts(derived, external_id)
    }

    proof fn lemma_same_answers(&self, other: &Self)
        requires
            self.same_functions(other),
            main_external_id(self@) == main_external_id(other@),
        ensures
            forall|id: TopicIdModel, x: Seq<char>| self.derives(id, x) == other.derives(id, x),
            forall|given: Seq<char>, x: Seq<char>| self.accepts(given, x) == other.accepts(given, x),
            forall|given: Seq<char>, e: crate::entity_store::InvalidExternalIdError|
                self.refuses(given, e) == other.refuses(given, e),
    {
    }

    /// Registers an entity of the default topic scheme that sent data
    /// without registering: first its device, as a child device, where that is
    /// neither `device/main//` nor registered; then the entity itself where
    /// it is a service. It answers with the registrations made, in that order.
    /// Every external identifier is derived by the mapper and then put to the
    /// validator.
    ///
    /// For `device/main//` nothing is done. An entity outside the default
    /// scheme is refused with `NonDefaultTopicScheme`. The device's step fails
    /// with the validator's error where that refuses the derived identifier,
    /// and with `ExternalIdInUse` where the identifier belongs to another
    /// entity; the store is then unchanged. The service's step fails in the
    /// same two ways, with `NoParent` where its device is `device/main//` and
    /// not registered, and with `MainDeviceAlreadyRegistered` where the service
    /// sits on the main device's topic identifier; the device's step is then
    /// behind and nothing else has changed.
    pub fn auto_register_entity(&mut self, entity_topic_id: &EntityTopicId) -> (r: Result<
        Vec<EntityRegistrationMessage>,
        Error,
    >)
        requires
            old(self).wf(),
        ensures
            final(self).wf(),
            final(self).same_functions(old(self)),
            consistent(final(self)@),
            final(self)@.main_device == old(self)@.main_device,
            main_external_id(final(self)@) == main_external_id(old(self)@),
            rooted(old(self)@) && !old(self)@.entities.contains_key(entity_topic_id@) ==> rooted(
                final(self)@,
            ),
            match r {
                Ok(messages) => device_name_of(entity_topic_id@) is Some && if entity_topic_id@
                    == crate::mqtt_topics::main_device_id() {
                    messages@.len() == 0 && final(self)@ == old(self)@
                } else {
                    old(self).auto_registered_for_some(
                        final(self)@,
                        registrations_model(messages@),
                        entity_topic_id@,
                    )
                },
                Err(Error::NonDefaultTopicScheme(id)) => device_name_of(entity_topic_id@) is None
                    && id@ == entity_topic_id@ && final(self)@ == old(self)@,
                Err(Error::NoParent(name)) => service_name_of(entity_topic_id@) is Some
                    && default_parent_of(entity_topic_id@) == Some(
                    crate::mqtt_topics::main_device_id(),
                ) && !old(self)@.entities.contains_key(crate::mqtt_topics::main_device_id())
                    && name@ == topic_id_text(crate::mqtt_topics::main_device_id()) && final(self)@
                    == old(self)@,
                Err(Error::InvalidExternalIdError(error)) => device_name_of(entity_topic_id@)
                    is Some && entity_topic_id@ != crate::mqtt_topics::main_device_id() && ((
                device_missing(old(self)@, entity_topic_id@) && old(self).derived_id_refused(
                    default_parent_of(entity_topic_id@)->0,
                    error,
                ) && final(self)@ == old(self)@) || (service_name_of(entity_topic_id@) is Some
                    && old(self).device_step_done(final(self)@, entity_topic_id@)
                    && old(self).derived_id_refused(entity_topic_id@, error))),
                Err(Error::ExternalIdInUse(name)) => device_name_of(entity_topic_id@) is Some
                    && entity_topic_id@ != crate::mqtt_topics::main_device_id() && ((
                device_missing(old(self)@, entity_topic_id@) && old(self).derived_id_in_use(
                    old(self)@,
                    default_parent_of(entity_topic_id@)->0,
                    name@,
                ) && final(self)@ == old(self)@) || (service_name_of(entity_topic_id@) is Some
                    && old(self).device_step_done(final(self)@, entity_topic_id@)
                    && old(self).derived_id_in_use(final(self)@, entity_topic_id@, name@))),
                Err(Error::MainDeviceAlreadyRegistered(name)) => service_name_of(entity_topic_id@)
                    is Some && entity_topic_id@ == old(self)@.main_device
                    && old(self).device_step_done(final(self)@, entity_topic_id@) && name@
                    == topic_id_text(old(self)@.main_device),
                Err(_) => false,
            },
    {
        let device_name = match entity_topic_id.default_device_name() {
            Some(name) => name,
            None => {
                return Err(Error::NonDefaultTopicScheme(entity_topic_id.clone()));
            },
        };
        if entity_topic_id.is_default_main_device() {
            return Ok(Vec::new());
        }
        let parent_device_id = match entity_topic_id.default_parent_identifier() {
            Some(id) => id,
            None => {
                proof {
                    assert(false);
                }
                return Err(Error::NonDefaultTopicScheme(entity_topic_id.clone()));
            },
        };
        let ghost id = entity_topic_id@;
        let ghost device = parent_device_id@;
        let ghost before = self@;
        let ghost mut device_derived = Seq::<char>::empty();
        let ghost mut device_stored = Seq::<char>::empty();
        let ghost mut service_derived = Seq::<char>::empty();
        let ghost mut service_stored = Seq::<char>::empty();
        let mut register_messages: Vec<EntityRegistrationMessage> = Vec::new();
        proof {
            reveal_strlit("name");
            reveal_strlit("type");
            assert("name"@.len() == 4 && "type"@.len() == 4);
            assert("name"@[0] != "type"@[0]);
        }
        if !parent_device_id.is_default_main_device() && self.find(&parent_device_id).is_none() {
            let main = self.main_device_external_id();
            let device_external_id = (self.external_id_mapper)(&parent_device_id, &main);
            let mut other = JsonObject::new();
            let _ = other.insert(String::from_str("name"), JsonValue::text(device_name));
            let device_register_message = EntityRegistrationMessage {
                topic_id: parent_device_id.clone(),
                external_id: Some(device_external_id),
                entity_type: EntityType::ChildDevice,
                parent: None,
                other,
            };
            let ghost first = device_register_message@;
            proof {
                device_derived = first.external_id->0;
                assert(first == device_registration(device, device_name_of(id)->0, device_derived));
                assert(self.derives(device, device_derived));
            }
            let kept = device_register_message.clone();
            match self.update(device_register_message) {
                Ok(_) => {},
                Err(e) => {
                    return Err(e);
                },
            }
            proof {
                device_stored = choose|x: Seq<char>|
                    old(self).assigns(first, x) && !external_id_in_use(before, first.topic_id, x)
                        && self@ == store_after_update(before, first, x);
                assert(main_external_id(self@) == main_external_id(before));
                self.lemma_same_answers(&*old(self));
                assert(old(self).device_registered_for_some(self@, id));
            }
            register_messages.push(kept);
            assert(registrations_model(register_messages@) =~= seq![first]);
        } else {
            assert(registrations_model(register_messages@) =~= Seq::<RegistrationModel>::empty());
        }
        let ghost middle = self@;
        let ghost first_part = registrations_model(register_messages@);
        match entity_topic_id.default_service_name() {
            Some(service_name) => {
                let main = self.main_device_external_id();
                let service_external_id = (self.external_id_mapper)(entity_topic_id, &main);
                let mut other = JsonObject::new();
                let _ = other.insert(String::from_str("name"), JsonValue::text(service_name));
                let _ = other.insert(
                    String::from_str("type"),
                    JsonValue::Text(self.default_service_type.clone()),
                );
                let service_register_message = EntityRegistrationMessage {
                    topic_id: entity_topic_id.clone(),
                    external_id: Some(service_external_id),
                    entity_type: EntityType::Service,
                    parent: Some(parent_device_id),
                    other,
                };
                let ghost second = service_register_message@;
                proof {
                    service_derived = second.external_id->0;
                    assert(second == service_registration(
                        id,
                        device,
                        service_name_of(id)->0,
                        before.default_service_type,
                        service_derived,
                    ));
                    assert(self.derives(id, service_derived));
                    reveal_strlit("service");
                    assert(id.kind.len() == 7);
                    assert(id != device);
                    assert(!before.entities.contains_key(id) ==> !middle.entities.contains_key(id));
                }
                let kept = service_register_message.clone();
                let ghost mid_store = *self;
                match self.update(service_register_message) {
                    Ok(_) => {},
                    Err(e) => {
                        proof {
                            assert(old(self).device_step_done(self@, id));
                            assert(old(self).derives(id, service_derived));
                        }
                        return Err(e);
                    },
                }
                proof {
                    service_stored = choose|x: Seq<char>|
                        mid_store.assigns(second, x) && !external_id_in_use(
                            middle,
                            second.topic_id,
                            x,
                        ) && self@ == store_after_update(middle, second, x);
                }
                register_messages.push(kept);
                proof {
                    assert(registrations_model(register_messages@) =~= first_part + seq![second]);
                    assert(old(self).auto_registered(
                        self@,
                        registrations_model(register_messages@),
                        id,
                        device_derived,
                        device_stored,
                        service_derived,
                        service_stored,
                    ));
                }
            },
            None => {
                proof {
                    assert(registrations_model(register_messages@) =~= first_part + Seq::<
                        RegistrationModel,
                    >::empty());
                    assert(old(self).auto_registered(
                        self@,
                        registrations_model(register_messages@),
                        id,
                        device_derived,
                        device_stored,
                        service_derived,
                        service_stored,
                    ));
                }
            },
        }
        Ok(register_messages)
    }

    /// Updates one fragment of the twin data of an entity: `null` takes the
    /// fragment away, any other value sets it. Tells whether the twin data
    /// changed.
    pub fn update_twin_data(
        &mut self,
        entity_topic_id: &EntityTopicId,
        fragment_key: String,
        fragment_value: JsonValue,
    ) -> (r: Result<bool, Error>)
        requires
            old(self).wf(),
        ensures
            final(self).wf(),
            final(self).same_functions(old(self)),
            consistent(final(self)@),
            final(self)@.main_device == old(self)@.main_device,
            main_external_id(final(self)@) == main_external_id(old(self)@),
            rooted(old(self)@) ==> rooted(final(self)@),
            final(self).registered() == old(self).registered(),
            match r {
                Ok(changed) => old(self)@.entities.contains_key(entity_topic_id@) && final(self)@
                    == store_after_twin_update(
                    old(self)@,
                    entity_topic_id@,
                    fragment_key@,
                    fragment_value@,
                ) && changed == (final(self)@.entities[entity_topic_id@].twin_data != old(self)@.entities[entity_topic_id@].twin_data),
                Err(Error::UnknownEntity(name)) => !old(self)@.entities.contains_key(
                    entity_topic_id@,
                ) && name@ == topic_id_text(entity_topic_id@) && final(self)@ == old(self)@,
                Err(_) => false,
            },
    {
        let i = match self.find(entity_topic_id) {
            Some(i) => i,
            None => {
                return Err(Error::UnknownEntity(entity_topic_id.to_text()));
            },
        };
        proof {
            lemma_map_of(entity_pairs(self.entities@));
            if rooted(self@) {
                law_twin_update_keeps_rooted(
                    self@,
                    entity_topic_id@,
                    fragment_key@,
                    fragment_value@,
                );
            }
        }
        let ghost before = self@;
        let ghost before_pairs = entity_pairs(self.entities@);
        let ghost before_registered = self.registered();
        let mut twin_data = self.entities[i].twin_data.clone();
        let ghost old_twin = twin_data@;
        let changed = if fragment_value.is_null() {
            twin_data.remove(fragment_key.as_str()).is_some()
        } else {
            match twin_data.insert(fragment_key, fragment_value.clone()) {
                Some(previous) => !previous.equals(&fragment_value),
                None => true,
            }
        };
        proof {
            if fragment_value@ == JsonModel::Null {
                if changed {
                    assert(!twin_data@.contains_key(fragment_key@));
                } else {
                    assert(twin_data@ =~= old_twin);
                }
            } else {
                if changed {
                    assert(twin_data@[fragment_key@] == fragment_value@);
                } else {
                    assert(twin_data@ =~= old_twin);
                }
            }
        }
        let updated = EntityMetadata {
            topic_id: self.entities[i].topic_id.clone(),
            parent: clone_optional_id(&self.entities[i].parent),
            entity_type: self.entities[i].entity_type,
            external_id: self.entities[i].external_id.clone(),
            other: self.entities[i].other.clone(),
            twin_data,
        };
        let ghost updated_model = updated@;
        proof {
            assert(before_pairs[i as int].0 == entity_topic_id@);
            lemma_with_pair(before_pairs, entity_topic_id@, updated_model);
            assert(before_pairs.update(i as int, (entity_topic_id@, updated_model)) =~= with_pair(
                before_pairs,
                entity_topic_id@,
                updated_model,
            ));
        }
        let _ = replace_at(&mut self.entities, i, updated);
        proof {
            assert(entity_pairs(self.entities@) =~= before_pairs.update(
                i as int,
                (entity_topic_id@, updated_model),
            ));
            assert(self.registered() =~= before_registered);
        }
        Ok(changed)
    }

    /// The topic identifier of the main device.
    pub fn main_device(&self) -> (r: &EntityTopicId)
        ensures
            r@ == self@.main_device,
    {
        &self.main_device
    }

    /// The external identifier of the main device.
    pub fn main_device_external_id(&self) -> (r: EntityExternalId)
        requires
            self.wf(),
        ensures
            r@ == main_external_id(self@),
    {
        match self.find(&self.main_device) {
            Some(i) => self.entities[i].external_id.clone(),
            None => {
                proof {
                    assert(false);
                }
                EntityExternalId::from("")
            },
        }
    }
}

} // verus!
