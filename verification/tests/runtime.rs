use thin_edge::config::Config;
use thin_edge::direct_connection::bridge_host;
use thin_edge::direct_connection::device_create_payload;
use thin_edge::direct_connection::is_device_already_existing;
use thin_edge::entity_store::EntityMetadata;
use thin_edge::entity_store::EntityRegistrationMessage;
use thin_edge::entity_store::EntityType;
use thin_edge::health::HealthMonitorActor;
use thin_edge::health::HealthMonitorBuilder;
use thin_edge::json::JsonObject;
use thin_edge::json::JsonValue;
use thin_edge::mapper::child_creation_message;
use thin_edge::mapper::Mapper;
use thin_edge::mapper::RuntimeAction;
use thin_edge::mapper::RuntimeEvent;
use thin_edge::mapper::RuntimePhase;
use thin_edge::mqtt_channel::Message;
use thin_edge::mqtt_channel::QoS;
use thin_edge::mqtt_channel::Topic;
use thin_edge::mqtt_channel::TopicFilter;
use thin_edge::mqtt_cli::client_auth_config;
use thin_edge::mqtt_cli::MqttClientSettings;
use thin_edge::mqtt_cli::MqttCommand;
use thin_edge::mqtt_cli::TEdgeMqttCli;
use thin_edge::session::clear_session_step;
use thin_edge::session::init_session_step;
use thin_edge::session::SessionAction;
use thin_edge::session::SessionEvent;
use thin_edge::tedge_to_te_converter::ThinEdgeAlarmData;
use thin_edge::timestamp::rewrite_rfc3339;
use thin_edge::timestamp::Timestamp;

fn message(topic: &str) -> Message {
    Message::new(&Topic::new_unchecked(topic), "{}")
}

#[test]
fn a_mapper_goes_from_init_through_sync_to_steady_and_shutdown() {
    let mut mapper = Mapper::new("tedge-mapper-test".into());
    assert_eq!(mapper.phase, RuntimePhase::Init);

    // before it is connected nothing is translated
    assert!(matches!(
        mapper.process(RuntimeEvent::Message(message("tedge/measurements"))),
        RuntimeAction::Nothing
    ));
    assert!(matches!(
        mapper.process(RuntimeEvent::Connected),
        RuntimeAction::PublishInitMessages { sync_seconds: 3 }
    ));
    assert_eq!(mapper.phase, RuntimePhase::Sync);

    // during the sync window messages are taken in
    match mapper.process(RuntimeEvent::Message(message("tedge/measurements"))) {
        RuntimeAction::Convert(given) => assert_eq!(given.topic.name, "tedge/measurements"),
        other => panic!("unexpected action: {:?}", other),
    }
    assert!(matches!(
        mapper.process(RuntimeEvent::DirectoryCreated("child".into())),
        RuntimeAction::Nothing
    ));
    assert!(matches!(
        mapper.process(RuntimeEvent::SyncWindowElapsed),
        RuntimeAction::ConvertSyncMessages
    ));
    assert_eq!(mapper.phase, RuntimePhase::Steady);

    // in the steady state health checks are answered and the rest converted
    assert!(matches!(
        mapper.process(RuntimeEvent::Message(message("tedge/health-check"))),
        RuntimeAction::AnswerHealthCheck
    ));
    assert!(matches!(
        mapper.process(RuntimeEvent::Message(message(
            "tedge/health-check/tedge-mapper-test"
        ))),
        RuntimeAction::AnswerHealthCheck
    ));
    assert!(matches!(
        mapper.process(RuntimeEvent::Message(message("tedge/health-check/other"))),
        RuntimeAction::Convert(_)
    ));
    match mapper.process(RuntimeEvent::DirectoryCreated("child".into())) {
        RuntimeAction::Publish(created) => {
            assert_eq!(created.topic.name, "c8y/s/us");
            assert_eq!(
                created.payload_str().unwrap(),
                "101,child,child,thin-edge.io-child"
            );
        }
        other => panic!("unexpected action: {:?}", other),
    }
    assert!(matches!(
        mapper.process(RuntimeEvent::OperationsChanged),
        RuntimeAction::PublishOperations
    ));
    assert!(matches!(
        mapper.process(RuntimeEvent::SyncWindowElapsed),
        RuntimeAction::Nothing
    ));

    assert!(matches!(
        mapper.process(RuntimeEvent::Shutdown),
        RuntimeAction::PublishDown
    ));
    assert_eq!(mapper.phase, RuntimePhase::Shutdown);
    assert!(matches!(
        mapper.process(RuntimeEvent::Message(message("tedge/measurements"))),
        RuntimeAction::Nothing
    ));
    assert!(matches!(
        mapper.process(RuntimeEvent::Shutdown),
        RuntimeAction::Nothing
    ));
    assert_eq!(mapper.phase, RuntimePhase::Shutdown);
}

#[test]
fn a_mapper_subscribes_to_its_converter_and_its_health_checks() {
    let mapper = Mapper::new("m".into());
    let all = mapper.subscriptions(&TopicFilter::new("tedge/measurements").unwrap());
    assert_eq!(
        all.patterns,
        [
            "tedge/measurements",
            "tedge/health-check",
            "tedge/health-check/m"
        ]
    );
    assert_eq!(
        child_creation_message("c").payload_str().unwrap(),
        "101,c,c,thin-edge.io-child"
    );
}

#[test]
fn a_health_monitor_tells_up_on_start_and_on_request() {
    let now = Timestamp {
        unix_nanos: 0,
        offset_seconds: 3600,
    };
    let builder = HealthMonitorBuilder::new("svc");
    let config = builder.set_init_and_last_will(Config::default(), 9);
    let will = config.last_will_message.unwrap();
    assert_eq!(will.topic, "tedge/health/svc");
    assert_eq!(will.message, br#"{"pid":9,"status":"down"}"#);
    assert!(will.retain);
    let monitor = builder.build();
    assert_eq!(
        monitor.subscriptions.patterns,
        ["tedge/health-check", "tedge/health-check/svc"]
    );

    let started = monitor.on_start(None, 9, &now);
    assert_eq!(started.len(), 1);
    assert_eq!(started[0].topic.name, "tedge/health/svc");
    assert_eq!(
        started[0].payload_str().unwrap(),
        r#"{"pid":9,"status":"up","time":"1970-01-01T01:00:00+01:00"}"#
    );

    let registration = Message::new(&Topic::new_unchecked("te/device/main/service/svc"), "{}");
    let started = HealthMonitorActor::new("svc").on_start(Some(registration), 9, &now);
    assert_eq!(started.len(), 2);
    assert_eq!(started[0].topic.name, "te/device/main/service/svc");
    assert_eq!(started[1].topic.name, "tedge/health/svc");
    assert!(started[1].retain);

    assert_eq!(
        monitor.down_health_status(9).payload_str().unwrap(),
        r#"{"pid":9,"status":"down"}"#
    );
    assert_eq!(monitor.up_health_status(9, &now).qos, QoS::AtLeastOnce);
}

#[test]
fn a_device_is_created_through_a_direct_connection() {
    assert_eq!(device_create_payload("dev-1"), "100,dev-1,thin-edge.io");
    assert!(is_device_already_existing(
        b"41,100,Device already existing"
    ));
    assert!(!is_device_already_existing(
        b"41,100,Device already existing!"
    ));
    assert!(!is_device_already_existing(b"41,100,device already existing"));
    assert!(!is_device_already_existing(b""));
    assert_eq!(bridge_host("tenant.cumulocity.com:8883"), "tenant.cumulocity.com");
    assert_eq!(bridge_host("tenant.cumulocity.com"), "tenant.cumulocity.com");
    assert_eq!(bridge_host(""), "");
}

#[test]
fn command_line_clients() {
    assert!(client_auth_config(None, None).is_none());
    let cert_only = client_auth_config(Some("cert.pem".into()), None).unwrap();
    assert_eq!(cert_only.cert_file, "cert.pem");
    assert_eq!(cert_only.key_file, "");
    let both = client_auth_config(Some("c".into()), Some("k".into())).unwrap();
    assert_eq!((both.cert_file.as_str(), both.key_file.as_str()), ("c", "k"));
    let publish = TEdgeMqttCli::Pub {
        topic: "t".into(),
        message: "m".into(),
        qos: QoS::AtMostOnce,
        retain: false,
    };
    assert_eq!(publish.client_id(4711), "tedge-pub-4711");
    let subscribe = TEdgeMqttCli::Sub {
        topic: "t".into(),
        qos: QoS::AtMostOnce,
        hide_topic: true,
    };
    assert_eq!(subscribe.client_id(0), "tedge-sub-0");
}

#[test]
fn sessions_are_set_up_step_by_step() {
    let accepted = SessionEvent::ConnAck { accepted: true };
    let refused = SessionEvent::ConnAck { accepted: false };
    assert_eq!(init_session_step(true, accepted), SessionAction::Subscribe);
    assert_eq!(init_session_step(false, accepted), SessionAction::Disconnect);
    assert_eq!(init_session_step(true, refused), SessionAction::Fail);
    assert_eq!(
        init_session_step(true, SessionEvent::SubAck),
        SessionAction::Disconnect
    );
    assert_eq!(
        init_session_step(true, SessionEvent::ConnectionError),
        SessionAction::Disconnect
    );
    assert_eq!(
        init_session_step(true, SessionEvent::Other),
        SessionAction::Continue
    );
    assert_eq!(clear_session_step(accepted), SessionAction::Disconnect);
    assert_eq!(clear_session_step(refused), SessionAction::Fail);
    assert_eq!(
        clear_session_step(SessionEvent::ConnectionError),
        SessionAction::Disconnect
    );
    assert_eq!(
        clear_session_step(SessionEvent::SubAck),
        SessionAction::Continue
    );
}

#[test]
fn metadata_of_default_devices() {
    let main = EntityMetadata::main_device("dev".into());
    assert_eq!(main.topic_id.to_text(), "device/main//");
    assert_eq!(main.external_id.as_ref(), "dev");
    assert_eq!(main.entity_type, EntityType::MainDevice);
    assert!(main.parent.is_none());
    let child = EntityMetadata::child_device("kid".into()).unwrap();
    assert_eq!(child.topic_id.to_text(), "device/kid//");
    assert_eq!(child.external_id.as_ref(), "kid");
    assert_eq!(child.entity_type, EntityType::ChildDevice);
    assert_eq!(child.parent.unwrap().to_text(), "device/main//");
    assert!(EntityMetadata::child_device("a/b/c".into()).is_err());
    let registration = EntityRegistrationMessage::main_device("dev".into());
    assert_eq!(registration.entity_type, EntityType::MainDevice);
    assert_eq!(registration.external_id.unwrap().as_ref(), "dev");
    assert_eq!(EntityType::MainDevice.to_text(), "device");
    assert_eq!(EntityType::ChildDevice.to_text(), "child-device");
    assert_eq!(EntityType::Service.to_text(), "service");
}

#[test]
fn json_objects_are_maps_that_keep_their_order() {
    let mut object = JsonObject::parse(br#"{"b":1,"a":"x","c":null,"d":[1,{"e":2}],"f":true}"#).unwrap();
    assert_eq!(object.len(), 5);
    assert_eq!(
        object.to_text(),
        r#"{"a":"x","b":1,"c":null,"d":[1,{"e":2}],"f":true}"#
    );
    assert!(object.get("c").unwrap().is_null());
    assert_eq!(object.get("a").unwrap().as_text(), Some("x"));
    assert_eq!(object.get("b").unwrap().as_text(), None);
    assert!(object.contains_key("d"));
    assert!(!object.contains_key("e"));

    assert!(object
        .insert("a".into(), JsonValue::text("y"))
        .unwrap()
        .equals(&JsonValue::text("x")));
    assert!(object.insert("z".into(), JsonValue::Bool(false)).is_none());
    assert_eq!(
        object.to_text(),
        r#"{"a":"y","b":1,"c":null,"d":[1,{"e":2}],"f":true,"z":false}"#
    );
    assert!(object.remove("b").unwrap().equals(&JsonValue::Number("1".into())));
    assert!(object.remove("b").is_none());
    object.insert_if_absent("a".into(), JsonValue::Null);
    object.insert_if_absent("n".into(), JsonValue::Null);
    assert_eq!(
        object.to_text(),
        r#"{"a":"y","c":null,"d":[1,{"e":2}],"f":true,"z":false,"n":null}"#
    );

    let mut left = JsonObject::parse(br#"{"k":1,"l":2}"#).unwrap();
    left.extend(&JsonObject::parse(br#"{"l":3,"m":4}"#).unwrap());
    assert_eq!(left.to_text(), r#"{"k":1,"l":3,"m":4}"#);
    assert!(left.equals(&JsonObject::parse(br#"{"m":4,"l":3,"k":1}"#).unwrap()));
    assert!(!left.equals(&JsonObject::parse(br#"{"m":4,"l":3}"#).unwrap()));
    assert!(!left.equals(&JsonObject::parse(br#"{"m":4,"l":3,"k":2}"#).unwrap()));
    assert!(left.clone().equals(&left));
    assert_eq!(left.key_at(1), "l");
    assert!(left.value_at(1).equals(&JsonValue::Number("3".into())));
    assert_eq!(JsonObject::new().to_text(), "{}");
    assert!(JsonObject::parse(b"[]").is_err());
    assert!(JsonObject::parse(b"{").is_err());
    assert!(JsonValue::parse(b"").is_err());
    assert_eq!(JsonValue::parse(b" \"a\\nb\" ").unwrap().as_text(), Some("a\nb"));
    assert_eq!(JsonValue::text("a\nb").to_text(), r#""a\nb""#);
    assert_eq!(JsonValue::parse(b"1.50").unwrap().to_text(), "1.5");
    assert_eq!(JsonValue::parse(b"{ \"a\" : [ ] }").unwrap().to_text(), r#"{"a":[]}"#);
}

#[test]
fn times_are_read_and_written_as_rfc3339() {
    let at = Timestamp::parse_rfc3339("2021-04-23T19:00:00+05:00").unwrap();
    assert_eq!(at.offset_seconds, 5 * 3600);
    assert_eq!(at.unix_nanos, 1_619_186_400_000_000_000);
    assert_eq!(at.to_rfc3339().unwrap(), "2021-04-23T19:00:00+05:00");
    assert_eq!(
        rewrite_rfc3339("2013-06-22T17:03:14.000+02:00").unwrap(),
        "2013-06-22T17:03:14+02:00"
    );
    assert_eq!(
        rewrite_rfc3339("2013-06-22T17:03:14.250Z").unwrap(),
        "2013-06-22T17:03:14.25Z"
    );
    assert!(Timestamp::parse_rfc3339("2013-06-22").is_none());
    assert!(rewrite_rfc3339("").is_none());
    assert!(Timestamp {
        unix_nanos: i128::MIN,
        offset_seconds: 0
    }
    .to_rfc3339()
    .is_none());
    assert!(Timestamp {
        unix_nanos: 0,
        offset_seconds: i32::MAX
    }
    .to_rfc3339()
    .is_none());
}

#[test]
fn alarms_are_read_member_by_member() {
    let alarm = ThinEdgeAlarmData::parse(
        br#"{"text":"t","time":"2021-04-23T19:00:00.0+05:00","severity":"minor","x":1}"#,
    )
    .unwrap();
    assert_eq!(alarm.text, Some("t".to_string()));
    assert_eq!(alarm.time, Some("2021-04-23T19:00:00+05:00".to_string()));
    assert_eq!(alarm.severity, "minor");
    assert_eq!(alarm.alarm_data.to_text(), r#"{"x":1}"#);
    assert_eq!(
        alarm.to_text(),
        r#"{"text":"t","time":"2021-04-23T19:00:00+05:00","severity":"minor","x":1}"#
    );
    let bare = ThinEdgeAlarmData::parse(b"{}").unwrap();
    assert_eq!(bare.text, None);
    assert_eq!(bare.time, None);
    assert_eq!(bare.severity, "");
    assert_eq!(bare.to_text(), r#"{"text":null,"severity":""}"#);
    assert!(ThinEdgeAlarmData::parse(br#"{"text":1}"#).is_err());
}

#[test]
fn commands_of_the_command_line_are_built_from_the_settings() {
    let settings = || MqttClientSettings {
        host: "broker".into(),
        port: 8883,
        ca_file: Some("ca.pem".into()),
        ca_dir: None,
        cert_file: None,
        key_file: Some("key.pem".into()),
    };
    let publish = TEdgeMqttCli::Pub {
        topic: "t".into(),
        message: "m".into(),
        qos: QoS::ExactlyOnce,
        retain: true,
    }
    .build_command(settings(), 12);
    match publish {
        MqttCommand::Publish {
            connection,
            topic,
            message,
            qos,
            retain,
            disconnect_timeout_secs,
        } => {
            assert_eq!(connection.host, "broker");
            assert_eq!(connection.port, 8883);
            assert_eq!(connection.client_id, "tedge-pub-12");
            assert_eq!(connection.ca_file.as_deref(), Some("ca.pem"));
            assert_eq!(connection.ca_dir, None);
            let auth = connection.client_auth_config.unwrap();
            assert_eq!(auth.cert_file, "");
            assert_eq!(auth.key_file, "key.pem");
            assert_eq!((topic.as_str(), message.as_str()), ("t", "m"));
            assert_eq!(qos, QoS::ExactlyOnce);
            assert!(retain);
            assert_eq!(disconnect_timeout_secs, 2);
        }
        other => panic!("unexpected command: {:?}", other),
    }
    let subscribe = TEdgeMqttCli::Sub {
        topic: "t/#".into(),
        qos: QoS::AtMostOnce,
        hide_topic: true,
    }
    .build_command(settings(), 13);
    match subscribe {
        MqttCommand::Subscribe {
            connection,
            topic,
            qos,
            hide_topic,
        } => {
            assert_eq!(connection.client_id, "tedge-sub-13");
            assert_eq!(topic, "t/#");
            assert_eq!(qos, QoS::AtMostOnce);
            assert!(hide_topic);
        }
        other => panic!("unexpected command: {:?}", other),
    }
}
