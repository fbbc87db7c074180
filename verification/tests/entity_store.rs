use thin_edge::entity_store::EntityExternalId;
use thin_edge::entity_store::EntityMetadata;
use thin_edge::entity_store::EntityRegistrationMessage;
use thin_edge::entity_store::EntityStore;
use thin_edge::entity_store::EntityType;
use thin_edge::entity_store::Error;
use thin_edge::entity_store::InvalidExternalIdError;
use thin_edge::json::JsonObject;
use thin_edge::json::JsonValue;
use thin_edge::mqtt_channel::Message;
use thin_edge::mqtt_channel::Topic;
use thin_edge::mqtt_topics::EntityTopicId;
use thin_edge::mqtt_topics::MqttSchema;

type Mapper = fn(&EntityTopicId, &EntityExternalId) -> EntityExternalId;
type Validator = fn(&str) -> Result<EntityExternalId, InvalidExternalIdError>;

fn dummy_external_id_mapper(
    entity_topic_id: &EntityTopicId,
    _main_device_xid: &EntityExternalId,
) -> EntityExternalId {
    EntityExternalId::from_string(
        entity_topic_id
            .to_text()
            .trim_end_matches('/')
            .replace('/', ":"),
    )
}

fn dummy_external_id_sanitizer(id: &str) -> Result<EntityExternalId, InvalidExternalIdError> {
    for c in id.chars() {
        if c == '/' || c == '+' || c == '#' {
            return Err(InvalidExternalIdError {
                external_id: id.into(),
                invalid_char: c,
            });
        }
    }
    Ok(EntityExternalId::from(id))
}

fn object(text: &str) -> JsonObject {
    JsonObject::parse(text.as_bytes()).unwrap()
}

fn value(text: &str) -> JsonValue {
    JsonValue::parse(text.as_bytes()).unwrap()
}

fn registration(topic: &str, payload: &str) -> EntityRegistrationMessage {
    EntityRegistrationMessage::new(&Message::new(&Topic::new(topic).unwrap(), payload)).unwrap()
}

fn texts(ids: &[EntityTopicId]) -> Vec<String> {
    ids.iter().map(|id| id.to_text()).collect()
}

fn ref_texts(ids: &[&EntityTopicId]) -> Vec<String> {
    ids.iter().map(|id| id.to_text()).collect()
}

fn new_entity_store() -> EntityStore<Mapper, Validator> {
    EntityStore::with_main_device(
        EntityRegistrationMessage {
            topic_id: EntityTopicId::default_main_device(),
            external_id: Some(EntityExternalId::from("test-device")),
            entity_type: EntityType::MainDevice,
            parent: None,
            other: JsonObject::new(),
        },
        dummy_external_id_mapper as Mapper,
        dummy_external_id_sanitizer as Validator,
    )
    .unwrap()
}

#[test]
fn parse_entity_registration_message() {
    let message = Message::new(
        &Topic::new("te/device/child1//").unwrap(),
        r#"{"@type":"child-device","name":"child1","type":"RPi","version":"5","complex":{"foo":"bar"}}"#,
    );
    let parsed = EntityRegistrationMessage::new(&message).unwrap();
    assert_eq!(parsed.entity_type, EntityType::ChildDevice);
    assert_eq!(parsed.other.get("name").unwrap().as_text(), Some("child1"));
    assert_eq!(parsed.other.get("type").unwrap().as_text(), Some("RPi"));
    assert_eq!(parsed.other.get("version").unwrap().as_text(), Some("5"));
    let complex: serde_json::Value =
        serde_json::from_str(&parsed.other.get("complex").unwrap().to_text()).unwrap();
    assert_eq!(complex.get("foo").unwrap(), "bar");
}

#[test]
fn registers_main_device() {
    let store = new_entity_store();

    assert!(store
        .main_device()
        .equals(&EntityTopicId::default_main_device()));
    assert!(store.get(&EntityTopicId::default_main_device()).is_some());
}

#[test]
fn lists_child_devices() {
    let mut store = new_entity_store();

    let updated_entities = store
        .update(registration(
            "te/device/child1//",
            r#"{"@type":"child-device"}"#,
        ))
        .unwrap();

    assert_eq!(texts(&updated_entities), ["device/main//"]);
    assert_eq!(
        ref_texts(&store.child_devices(&EntityTopicId::default_main_device())),
        ["device/child1//"]
    );

    let updated_entities = store
        .update(registration(
            "te/device/child2//",
            r#"{"@type":"child-device","@parent":"device/main//"}"#,
        ))
        .unwrap();
    assert_eq!(texts(&updated_entities), ["device/main//"]);
    let children = ref_texts(&store.child_devices(&EntityTopicId::default_main_device()));
    assert!(children.iter().any(|e| e == "device/child1//"));
    assert!(children.iter().any(|e| e == "device/child2//"));
}

#[test]
fn lists_services() {
    let mut store = new_entity_store();

    let updated_entities = store
        .update(EntityRegistrationMessage {
            entity_type: EntityType::Service,
            external_id: None,
            topic_id: EntityTopicId::default_main_service("service1").unwrap(),
            parent: None,
            other: JsonObject::new(),
        })
        .unwrap();

    assert_eq!(texts(&updated_entities), ["device/main//"]);
    assert_eq!(
        ref_texts(&store.services(&EntityTopicId::default_main_device())),
        ["device/main/service/service1"]
    );

    let updated_entities = store
        .update(EntityRegistrationMessage {
            entity_type: EntityType::Service,
            external_id: None,
            topic_id: EntityTopicId::default_main_service("service2").unwrap(),
            parent: None,
            other: JsonObject::new(),
        })
        .unwrap();

    assert_eq!(texts(&updated_entities), ["device/main//"]);
    let services = store.services(&EntityTopicId::default_main_device());
    assert!(services
        .iter()
        .any(|e| e.equals(&EntityTopicId::default_main_service("service1").unwrap())));
    assert!(services
        .iter()
        .any(|e| e.equals(&EntityTopicId::default_main_service("service2").unwrap())));
}

#[test]
fn forbids_nonexistent_parents() {
    let mut store = new_entity_store();

    let res = store.update(EntityRegistrationMessage {
        topic_id: EntityTopicId::default_main_device(),
        external_id: None,
        entity_type: EntityType::ChildDevice,
        parent: Some(EntityTopicId::default_child_device("myawesomeparent").unwrap()),
        other: JsonObject::new(),
    });

    assert!(matches!(res, Err(Error::NoParent(_))));
}

fn ancestors_of(store: &EntityStore<Mapper, Validator>, id: &EntityTopicId) -> Vec<String> {
    ref_texts(&store.ancestors(id).unwrap())
}

fn register_family(store: &mut EntityStore<Mapper, Validator>, upto: usize) {
    let steps = [
        ("te/device/main/service/collectd", r#"{"@type":"service"}"#),
        ("te/device/child1//", r#"{"@type":"child-device"}"#),
        ("te/device/child1/service/collectd", r#"{"@type":"service"}"#),
        (
            "te/device/child2//",
            r#"{"@type":"child-device","@parent":"device/child1//"}"#,
        ),
        ("te/device/child2/service/collectd", r#"{"@type":"service"}"#),
    ];
    let (topic, payload) = steps[upto];
    store.update(registration(topic, payload)).unwrap();
}

#[test]
fn list_ancestors() {
    let mut store = new_entity_store();

    assert!(store
        .ancestors(&EntityTopicId::default_main_device())
        .unwrap()
        .is_empty());

    register_family(&mut store, 0);
    assert_eq!(
        ancestors_of(
            &store,
            &EntityTopicId::default_main_service("collectd").unwrap()
        ),
        ["device/main//"]
    );

    register_family(&mut store, 1);
    assert_eq!(
        ancestors_of(
            &store,
            &EntityTopicId::default_child_device("child1").unwrap()
        ),
        ["device/main//"]
    );

    register_family(&mut store, 2);
    assert_eq!(
        ancestors_of(
            &store,
            &EntityTopicId::default_child_service("child1", "collectd").unwrap()
        ),
        ["device/child1//", "device/main//"]
    );

    register_family(&mut store, 3);
    assert_eq!(
        ancestors_of(
            &store,
            &EntityTopicId::default_child_device("child2").unwrap()
        ),
        ["device/child1//", "device/main//"]
    );

    register_family(&mut store, 4);
    assert_eq!(
        ancestors_of(
            &store,
            &EntityTopicId::default_child_service("child2", "collectd").unwrap()
        ),
        ["device/child2//", "device/child1//", "device/main//"]
    );
}

#[test]
fn list_ancestors_external_ids() {
    let mut store = new_entity_store();

    assert!(store
        .ancestors_external_ids(&EntityTopicId::default_main_device())
        .unwrap()
        .is_empty());

    register_family(&mut store, 0);
    assert_eq!(
        store
            .ancestors_external_ids(&EntityTopicId::default_main_service("collectd").unwrap())
            .unwrap(),
        ["test-device"]
    );

    register_family(&mut store, 1);
    assert_eq!(
        store
            .ancestors_external_ids(&EntityTopicId::default_child_device("child1").unwrap())
            .unwrap(),
        ["test-device"]
    );

    register_family(&mut store, 2);
    assert_eq!(
        store
            .ancestors_external_ids(
                &EntityTopicId::default_child_service("child1", "collectd").unwrap()
            )
            .unwrap(),
        ["device:child1", "test-device"]
    );

    register_family(&mut store, 3);
    assert_eq!(
        store
            .ancestors_external_ids(&EntityTopicId::default_child_device("child2").unwrap())
            .unwrap(),
        ["device:child1", "test-device"]
    );

    register_family(&mut store, 4);
    assert_eq!(
        store
            .ancestors_external_ids(
                &EntityTopicId::default_child_service("child2", "collectd").unwrap()
            )
            .unwrap(),
        ["device:child2", "device:child1", "test-device"]
    );
}

fn assert_registration(
    actual: &EntityRegistrationMessage,
    topic_id: &str,
    entity_type: EntityType,
    external_id: &str,
    parent: Option<&str>,
    other: &str,
) {
    assert_eq!(actual.topic_id.to_text(), topic_id);
    assert_eq!(actual.entity_type, entity_type);
    assert_eq!(actual.external_id.as_ref().unwrap().as_ref(), external_id);
    assert_eq!(actual.parent.as_ref().map(|p| p.to_text()), parent.map(String::from));
    assert!(actual.other.equals(&object(other)));
}

#[test]
fn auto_register_service() {
    let mut store = new_entity_store();

    let service_topic_id = EntityTopicId::default_child_service("child1", "service1").unwrap();
    let res = store.auto_register_entity(&service_topic_id).unwrap();
    assert_eq!(res.len(), 2);
    assert_registration(
        &res[0],
        "device/child1//",
        EntityType::ChildDevice,
        "device:child1",
        None,
        r#"{"name":"child1"}"#,
    );
    assert_registration(
        &res[1],
        "device/child1/service/service1",
        EntityType::Service,
        "device:child1:service:service1",
        Some("device/child1//"),
        r#"{"name":"service1","type":"service"}"#,
    );
}

#[test]
fn auto_register_child_device() {
    let mut store = new_entity_store();

    let child_topic_id = EntityTopicId::default_child_device("child2").unwrap();
    let res = store.auto_register_entity(&child_topic_id).unwrap();

    assert_eq!(res.len(), 1);
    assert_registration(
        &res[0],
        "device/child2//",
        EntityType::ChildDevice,
        "device:child2",
        None,
        r#"{"name":"child2"}"#,
    );
}

#[test]
fn auto_register_custom_topic_scheme_not_supported() {
    let mut store = new_entity_store();
    assert!(matches!(
        store.auto_register_entity(&EntityTopicId::from_str("custom/child2//").unwrap()),
        Err(Error::NonDefaultTopicScheme(_))
    ));
}

#[test]
fn register_main_device_custom_scheme() {
    let main_topic_id = EntityTopicId::from_str("custom/main//").unwrap();
    let mut store = EntityStore::with_main_device(
        EntityRegistrationMessage {
            topic_id: main_topic_id.clone(),
            external_id: Some(EntityExternalId::from("test-device")),
            entity_type: EntityType::MainDevice,
            parent: None,
            other: JsonObject::new(),
        },
        dummy_external_id_mapper as Mapper,
        dummy_external_id_sanitizer as Validator,
    )
    .unwrap();

    let affected = store
        .update(EntityRegistrationMessage {
            topic_id: main_topic_id.clone(),
            entity_type: EntityType::MainDevice,
            external_id: None,
            parent: None,
            other: object("{}"),
        })
        .unwrap();
    assert!(affected.is_empty());

    let expected_entity_metadata = EntityMetadata {
        topic_id: main_topic_id.clone(),
        parent: None,
        entity_type: EntityType::MainDevice,
        external_id: EntityExternalId::from("test-device"),
        other: object("{}"),
        twin_data: JsonObject::new(),
    };
    assert!(store
        .get(&main_topic_id)
        .unwrap()
        .equals(&expected_entity_metadata));
    assert!(store
        .get_by_external_id(&EntityExternalId::from("test-device"))
        .unwrap()
        .equals(&expected_entity_metadata));

    let service_topic_id = EntityTopicId::from_str("custom/main/service/collectd").unwrap();
    store
        .update(EntityRegistrationMessage {
            topic_id: service_topic_id.clone(),
            entity_type: EntityType::Service,
            external_id: None,
            parent: Some(main_topic_id.clone()),
            other: object("{}"),
        })
        .unwrap();

    let expected_entity_metadata = EntityMetadata {
        topic_id: service_topic_id.clone(),
        parent: Some(main_topic_id),
        entity_type: EntityType::Service,
        external_id: EntityExternalId::from("custom:main:service:collectd"),
        other: object(r#"{"type":"service"}"#),
        twin_data: JsonObject::new(),
    };
    assert!(store
        .get(&service_topic_id)
        .unwrap()
        .equals(&expected_entity_metadata));
    assert!(store
        .get_by_external_id(&EntityExternalId::from("custom:main:service:collectd"))
        .unwrap()
        .equals(&expected_entity_metadata));
}

#[test]
fn external_id_validation() {
    let mut store = new_entity_store();

    let entity_topic_id = EntityTopicId::default_child_device("child1").unwrap();
    let res = store.update(EntityRegistrationMessage {
        topic_id: entity_topic_id.clone(),
        entity_type: EntityType::ChildDevice,
        external_id: Some(EntityExternalId::from("bad+id")),
        parent: None,
        other: JsonObject::new(),
    });

    match res {
        Err(Error::InvalidExternalIdError(e)) => {
            assert_eq!(e.external_id, "bad+id");
            assert_eq!(e.invalid_char, '+');
        }
        other => panic!("unexpected result: {:?}", other),
    }
}

#[test]
fn update_twin_data_new_fragment() {
    let mut store = new_entity_store();

    let topic_id = EntityTopicId::default_main_device();
    let updated = store
        .update_twin_data(&topic_id, "hardware".into(), value(r#"{ "version": 5 }"#))
        .unwrap();
    assert!(
        updated,
        "Inserting new key should have resulted in an update"
    );

    let entity_metadata = store.get(&topic_id).unwrap();
    assert!(entity_metadata
        .twin_data
        .get("hardware")
        .unwrap()
        .equals(&value(r#"{ "version": 5 }"#)));
}

#[test]
fn update_twin_data_update_existing_fragment() {
    let mut store = new_entity_store();

    let topic_id = EntityTopicId::default_main_device();
    let _ = store
        .update_twin_data(&topic_id, "hardware".into(), value(r#"{ "version": 5 }"#))
        .unwrap();

    let updated = store
        .update_twin_data(&topic_id, "hardware".into(), value(r#"{ "version": 6 }"#))
        .unwrap();
    assert!(
        updated,
        "Updating an existing key should have resulted in an update"
    );

    let entity_metadata = store.get(&topic_id).unwrap();
    assert!(entity_metadata
        .twin_data
        .get("hardware")
        .unwrap()
        .equals(&value(r#"{ "version": 6 }"#)));
}

#[test]
fn update_twin_data_remove_fragment() {
    let mut store = new_entity_store();

    let topic_id = EntityTopicId::default_main_device();

    let _ = store
        .update_twin_data(&topic_id, "foo".into(), value(r#""bar""#))
        .unwrap();

    let updated = store
        .update_twin_data(&topic_id, "foo".into(), value("null"))
        .unwrap();
    assert!(
        updated,
        "Removing an existing key should have resulted in an update"
    );

    let entity_metadata = store.get(&topic_id).unwrap();
    assert!(entity_metadata.twin_data.get("foo").is_none());
}

#[test]
fn updated_registration_message_after_twin_updates() {
    let topic_id = EntityTopicId::default_main_device();
    let mut store = EntityStore::with_main_device(
        EntityRegistrationMessage {
            topic_id: topic_id.clone(),
            external_id: Some(EntityExternalId::from("test-device")),
            entity_type: EntityType::MainDevice,
            parent: None,
            other: object(r#"{ "name" : "test-name", "type": "test-type" }"#),
        },
        dummy_external_id_mapper as Mapper,
        dummy_external_id_sanitizer as Validator,
    )
    .unwrap();

    let _ = store
        .update_twin_data(&topic_id, "hardware".into(), value(r#"{ "version": 5 }"#))
        .unwrap();

    let new_reg = EntityRegistrationMessage {
        topic_id: EntityTopicId::default_main_device(),
        external_id: Some(EntityExternalId::from("test-device")),
        entity_type: EntityType::MainDevice,
        parent: None,
        other: object(r#"{ "name" : "new-test-device" }"#),
    };
    store.update(new_reg).unwrap();

    let entity_metadata = store.get(&topic_id).unwrap();
    assert!(
        entity_metadata
            .other
            .get("name")
            .unwrap()
            .equals(&value(r#""new-test-device""#)),
        "Expected new name in twin data"
    );
    assert!(
        entity_metadata
            .other
            .get("type")
            .unwrap()
            .equals(&value(r#""test-type""#)),
        "Expected old type in twin data"
    );
    assert!(
        entity_metadata
            .twin_data
            .get("hardware")
            .unwrap()
            .equals(&value(r#"{ "version": 5 }"#)),
        "Expected old hardware fragment in twin data"
    );
}

#[test]
fn twin_update_that_changes_nothing_says_so() {
    let mut store = new_entity_store();
    let topic_id = EntityTopicId::default_main_device();
    assert!(store
        .update_twin_data(&topic_id, "a".into(), value("1"))
        .unwrap());
    assert!(!store
        .update_twin_data(&topic_id, "a".into(), value("1"))
        .unwrap());
    assert!(!store
        .update_twin_data(&topic_id, "b".into(), value("null"))
        .unwrap());
    assert!(matches!(
        store.update_twin_data(
            &EntityTopicId::default_child_device("nobody").unwrap(),
            "a".into(),
            value("1")
        ),
        Err(Error::UnknownEntity(_))
    ));
}

#[test]
fn lookup_by_external_id_goes_through_the_index() {
    let mut store = new_entity_store();
    store
        .update(registration(
            "te/device/child1//",
            r#"{"@type":"child-device","@id":"abc"}"#,
        ))
        .unwrap();
    let by_xid = store
        .get_by_external_id(&EntityExternalId::from("abc"))
        .unwrap();
    let by_topic = store
        .get(&EntityTopicId::default_child_device("child1").unwrap())
        .unwrap();
    assert!(by_xid.equals(by_topic));
    assert!(store
        .get_by_external_id(&EntityExternalId::from("nobody"))
        .is_none());
    assert!(matches!(
        store.try_get_by_external_id(&EntityExternalId::from("nobody")),
        Err(Error::UnknownEntity(name)) if name == "nobody"
    ));
    assert!(matches!(
        store.try_get(&EntityTopicId::default_child_device("nobody").unwrap()),
        Err(Error::UnknownEntity(name)) if name == "device/nobody//"
    ));
}

#[test]
fn registration_that_changes_nothing_affects_nobody() {
    let mut store = new_entity_store();
    let first = store
        .update(registration(
            "te/device/child1//",
            r#"{"@type":"child-device"}"#,
        ))
        .unwrap();
    assert_eq!(texts(&first), ["device/main//"]);
    let again = store
        .update(registration(
            "te/device/child1//",
            r#"{"@type":"child-device"}"#,
        ))
        .unwrap();
    assert!(again.is_empty());
    let changed = store
        .update(registration(
            "te/device/child1//",
            r#"{"@type":"child-device","name":"x"}"#,
        ))
        .unwrap();
    assert_eq!(texts(&changed), ["device/main//", "device/child1//"]);
    assert_eq!(store.iter().len(), 2);
}

#[test]
fn store_needs_a_main_device_with_an_external_id() {
    let no_id = EntityStore::with_main_device(
        EntityRegistrationMessage {
            topic_id: EntityTopicId::default_main_device(),
            external_id: None,
            entity_type: EntityType::MainDevice,
            parent: None,
            other: JsonObject::new(),
        },
        dummy_external_id_mapper as Mapper,
        dummy_external_id_sanitizer as Validator,
    );
    assert!(no_id.is_none());
    let no_main = EntityStore::with_main_device(
        EntityRegistrationMessage {
            topic_id: EntityTopicId::default_main_device(),
            external_id: Some(EntityExternalId::from("x")),
            entity_type: EntityType::ChildDevice,
            parent: None,
            other: JsonObject::new(),
        },
        dummy_external_id_mapper as Mapper,
        dummy_external_id_sanitizer as Validator,
    );
    assert!(no_main.is_none());
}

#[test]
fn auto_registration_of_the_main_device_does_nothing() {
    let mut store = new_entity_store();
    let res = store
        .auto_register_entity(&EntityTopicId::default_main_device())
        .unwrap();
    assert!(res.is_empty());
    assert_eq!(store.iter().len(), 1);
}

#[test]
fn registration_message_is_announced_retained_on_the_entity_topic() {
    let message = EntityRegistrationMessage {
        topic_id: EntityTopicId::default_child_device("child1").unwrap(),
        external_id: Some(EntityExternalId::from("xid \"1\"")),
        entity_type: EntityType::ChildDevice,
        parent: Some(EntityTopicId::default_main_device()),
        other: object(r#"{"name":"c1"}"#),
    }
    .to_mqtt_message(&MqttSchema::new());
    assert_eq!(message.topic.name, "te/device/child1//");
    assert!(message.retain);
    assert_eq!(
        message.payload_str().unwrap(),
        r#"{"@type":"child-device","@id":"xid \"1\"","@parent":"device/main//","name":"c1"}"#
    );
    let back = EntityRegistrationMessage::new(&message).unwrap();
    assert_eq!(back.external_id.unwrap().as_ref(), "xid \"1\"");
}

#[test]
fn registration_is_refused_where_the_payload_is_none() {
    let topic = Topic::new("te/device/child1//").unwrap();
    assert!(EntityRegistrationMessage::new(&Message::new(&topic, "{}")).is_none());
    assert!(EntityRegistrationMessage::new(&Message::new(&topic, r#"{"@type":"robot"}"#)).is_none());
    assert!(EntityRegistrationMessage::new(&Message::new(&topic, r#"{"@type":7}"#)).is_none());
    assert!(EntityRegistrationMessage::new(&Message::new(&topic, r#"["@type"]"#)).is_none());
    assert!(EntityRegistrationMessage::new(&Message::new(
        &topic,
        r#"{"@type":"service","@parent":"a/b/c/d/e"}"#
    ))
    .is_none());
    let elsewhere = Topic::new("tedge/device/child1//").unwrap();
    assert!(
        EntityRegistrationMessage::new(&Message::new(&elsewhere, r#"{"@type":"device"}"#))
            .is_none()
    );
}

#[test]
fn there_is_one_main_device() {
    let mut store = new_entity_store();
    let other_main = EntityTopicId::from_str("custom/main//").unwrap();
    let res = store.update(EntityRegistrationMessage {
        topic_id: other_main.clone(),
        entity_type: EntityType::MainDevice,
        external_id: None,
        parent: None,
        other: JsonObject::new(),
    });
    assert!(matches!(
        res,
        Err(Error::MainDeviceAlreadyRegistered(name)) if name == "device/main//"
    ));
    assert!(store.get(&other_main).is_none());

    let res = store.update(EntityRegistrationMessage {
        topic_id: EntityTopicId::default_main_device(),
        entity_type: EntityType::ChildDevice,
        external_id: None,
        parent: None,
        other: JsonObject::new(),
    });
    assert!(matches!(
        res,
        Err(Error::MainDeviceAlreadyRegistered(name)) if name == "device/main//"
    ));
    let res = store.update(EntityRegistrationMessage {
        topic_id: EntityTopicId::default_main_device(),
        entity_type: EntityType::Service,
        external_id: Some(EntityExternalId::from("svc")),
        parent: Some(EntityTopicId::default_main_device()),
        other: JsonObject::new(),
    });
    assert!(matches!(res, Err(Error::MainDeviceAlreadyRegistered(_))));

    // the main device keeps its external identifier, whatever is handed in
    store
        .update_with_external_id(
            EntityRegistrationMessage {
                topic_id: EntityTopicId::default_main_device(),
                entity_type: EntityType::MainDevice,
                external_id: None,
                parent: None,
                other: JsonObject::new(),
            },
            EntityExternalId::from("another"),
        )
        .unwrap();
    assert!(store
        .get_by_external_id(&EntityExternalId::from("another"))
        .is_none());

    assert_eq!(store.iter().len(), 1);
    let main = store.get(&EntityTopicId::default_main_device()).unwrap();
    assert_eq!(main.entity_type, EntityType::MainDevice);
    assert!(main.parent.is_none());
    assert_eq!(store.main_device().to_text(), "device/main//");
    assert_eq!(store.main_device_external_id().as_ref(), "test-device");
    assert!(store
        .get_by_external_id(&EntityExternalId::from("test-device"))
        .unwrap()
        .equals(main));
}

#[test]
fn an_external_id_belongs_to_one_entity() {
    let mut store = new_entity_store();
    store
        .update(registration(
            "te/device/child1//",
            r#"{"@type":"child-device","@id":"abc"}"#,
        ))
        .unwrap();
    let res = store.update(registration(
        "te/device/child2//",
        r#"{"@type":"child-device","@id":"abc"}"#,
    ));
    assert!(matches!(res, Err(Error::ExternalIdInUse(name)) if name == "abc"));
    let res = store.update(registration(
        "te/device/child2//",
        r#"{"@type":"child-device","@id":"test-device"}"#,
    ));
    assert!(matches!(res, Err(Error::ExternalIdInUse(name)) if name == "test-device"));
    let res = store.update_with_external_id(
        registration("te/device/child2//", r#"{"@type":"child-device"}"#),
        EntityExternalId::from("abc"),
    );
    assert!(matches!(res, Err(Error::ExternalIdInUse(name)) if name == "abc"));
    assert!(store
        .get(&EntityTopicId::default_child_device("child2").unwrap())
        .is_none());
    assert_eq!(store.iter().len(), 2);
    assert_eq!(
        store
            .get_by_external_id(&EntityExternalId::from("abc"))
            .unwrap()
            .topic_id
            .to_text(),
        "device/child1//"
    );

    // a derived identifier that another entity brought is in use too
    store
        .update(registration(
            "te/device/child3//",
            r#"{"@type":"child-device","@id":"device:child4"}"#,
        ))
        .unwrap();
    let res = store.auto_register_entity(&EntityTopicId::default_child_device("child4").unwrap());
    assert!(matches!(res, Err(Error::ExternalIdInUse(name)) if name == "device:child4"));
    assert!(store
        .get(&EntityTopicId::default_child_device("child4").unwrap())
        .is_none());
}

#[test]
fn a_new_external_id_replaces_the_old_one_in_the_index() {
    let mut store = new_entity_store();
    let child = EntityTopicId::default_child_device("child1").unwrap();
    store
        .update(registration(
            "te/device/child1//",
            r#"{"@type":"child-device","@id":"abc"}"#,
        ))
        .unwrap();
    let affected = store
        .update(registration(
            "te/device/child1//",
            r#"{"@type":"child-device","@id":"xyz"}"#,
        ))
        .unwrap();
    assert_eq!(texts(&affected), ["device/main//", "device/child1//"]);
    assert!(store
        .get_by_external_id(&EntityExternalId::from("abc"))
        .is_none());
    let found = store
        .get_by_external_id(&EntityExternalId::from("xyz"))
        .unwrap();
    assert_eq!(found.topic_id.to_text(), "device/child1//");
    assert_eq!(found.external_id.as_ref(), "xyz");
    assert!(found.equals(store.get(&child).unwrap()));
    // the identifier that was given up is free again
    store
        .update(registration(
            "te/device/child2//",
            r#"{"@type":"child-device","@id":"abc"}"#,
        ))
        .unwrap();
    assert_eq!(store.iter().len(), 3);
}

#[test]
fn every_entity_is_found_under_its_own_identifiers() {
    let mut store = new_entity_store();
    for step in 0..5 {
        register_family(&mut store, step);
    }
    store
        .auto_register_entity(&EntityTopicId::default_child_service("kid", "svc").unwrap())
        .unwrap();
    let all: Vec<(String, String)> = store
        .iter()
        .iter()
        .map(|(id, entity)| (id.to_text(), entity.external_id.as_ref().to_string()))
        .collect();
    assert!(all.len() >= 3);
    for (topic, external_id) in all {
        let found = store
            .get_by_external_id(&EntityExternalId::from(external_id.as_str()))
            .unwrap();
        assert_eq!(found.topic_id.to_text(), topic);
        assert_eq!(found.external_id.as_ref(), external_id);
        let id = EntityTopicId::from_str(&topic).unwrap();
        let ancestors = store.ancestors(&id).unwrap();
        if topic == "device/main//" {
            assert!(ancestors.is_empty());
        } else {
            assert_eq!(ancestors.last().unwrap().to_text(), "device/main//");
            let mut seen = ref_texts(&ancestors);
            seen.sort();
            seen.dedup();
            assert_eq!(seen.len(), ancestors.len());
        }
    }
}

fn refuse_the_letter_s(id: &str) -> Result<EntityExternalId, InvalidExternalIdError> {
    match id.chars().find(|c| *c == 's') {
        Some(c) => Err(InvalidExternalIdError {
            external_id: id.into(),
            invalid_char: c,
        }),
        None => Ok(EntityExternalId::from(id)),
    }
}

#[test]
fn a_refused_service_leaves_its_device_registered() {
    let mut store = EntityStore::with_main_device(
        EntityRegistrationMessage {
            topic_id: EntityTopicId::default_main_device(),
            external_id: Some(EntityExternalId::from("test-device")),
            entity_type: EntityType::MainDevice,
            parent: None,
            other: JsonObject::new(),
        },
        dummy_external_id_mapper as Mapper,
        refuse_the_letter_s as Validator,
    )
    .unwrap();
    let service = EntityTopicId::default_child_service("child1", "x").unwrap();
    match store.auto_register_entity(&service) {
        Err(Error::InvalidExternalIdError(e)) => {
            assert_eq!(e.external_id, "device:child1:service:x");
            assert_eq!(e.invalid_char, 's');
        }
        other => panic!("unexpected result: {:?}", other),
    }
    assert!(store
        .get(&EntityTopicId::default_child_device("child1").unwrap())
        .is_some());
    assert!(store.get(&service).is_none());

    let device = EntityTopicId::default_child_device("sam").unwrap();
    match store.auto_register_entity(&device) {
        Err(Error::InvalidExternalIdError(e)) => {
            assert_eq!(e.external_id, "device:sam");
            assert_eq!(e.invalid_char, 's');
        }
        other => panic!("unexpected result: {:?}", other),
    }
    assert!(store.get(&device).is_none());
    assert_eq!(store.iter().len(), 2);
}

#[test]
fn a_registration_that_changes_nothing_affects_nobody_whatever_the_entity_holds() {
    let mut store = new_entity_store();
    let child = EntityTopicId::default_child_device("child1").unwrap();
    store
        .update(registration(
            "te/device/child1//",
            r#"{"@type":"child-device","name":"one","kind":"k"}"#,
        ))
        .unwrap();
    assert!(store
        .update_twin_data(&child, "hardware".into(), value(r#"{"version":5}"#))
        .unwrap());

    // the same registration again, and one that brings fewer properties
    for payload in [
        r#"{"@type":"child-device","name":"one","kind":"k"}"#,
        r#"{"@type":"child-device","name":"one"}"#,
        r#"{"@type":"child-device"}"#,
    ] {
        let affected = store
            .update(registration("te/device/child1//", payload))
            .unwrap();
        assert!(affected.is_empty(), "{payload}");
    }
    let kept = store.get(&child).unwrap();
    assert!(kept.other.get("kind").unwrap().equals(&value(r#""k""#)));
    assert!(kept
        .twin_data
        .get("hardware")
        .unwrap()
        .equals(&value(r#"{"version":5}"#)));

    // one that changes a property affects the parent and the entity
    let affected = store
        .update(registration(
            "te/device/child1//",
            r#"{"@type":"child-device","name":"two"}"#,
        ))
        .unwrap();
    assert_eq!(texts(&affected), ["device/main//", "device/child1//"]);
}
