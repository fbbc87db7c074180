use thin_edge::config::parse_qos;
use thin_edge::config::Config;
use thin_edge::host::Host;
use thin_edge::host::InvalidHostName;
use thin_edge::mapper::lookup_component;
use thin_edge::mapper::mqtt_config;
use thin_edge::mapper::AwsMapper;
use thin_edge::mapper::AzureMapper;
use thin_edge::mapper::Component;
use thin_edge::mapper::MapperName;
use thin_edge::mapper::MapperOpt;
use thin_edge::mapper::MapperTask;
use thin_edge::mqtt_channel::MqttError;
use thin_edge::mqtt_channel::QoS;
use thin_edge::mqtt_channel::Topic;
use thin_edge::mqtt_channel::TopicFilter;
use thin_edge::mqtt_topics::Channel;
use thin_edge::mqtt_topics::EntityTopicError;
use thin_edge::mqtt_topics::EntityTopicId;
use thin_edge::mqtt_topics::MqttSchema;
use thin_edge::mqtt_topics::TopicIdError;
use thin_edge::system_config::log_level;
use thin_edge::system_config::InitConfig;
use thin_edge::system_config::LogConfig;
use thin_edge::system_config::LogLevel;
use thin_edge::system_config::SystemConfig;
use thin_edge::system_config::SystemServiceError;
use thin_edge::text::decimal_text;
use thin_edge::text::has_substring;
use thin_edge::text::split_levels;
use thin_edge::text::split_pieces;

#[test]
fn test_parse_qos_at_most_once() {
    let input_qos = "0";
    let expected_qos = QoS::AtMostOnce;
    assert_eq!(parse_qos(input_qos).unwrap(), expected_qos);
}

#[test]
fn test_parse_qos_at_least_once() {
    let input_qos = "1";
    let expected_qos = QoS::AtLeastOnce;
    assert_eq!(parse_qos(input_qos).unwrap(), expected_qos);
}

#[test]
fn test_parse_qos_exactly_once() {
    let input_qos = "2";
    let expected_qos = QoS::ExactlyOnce;
    assert_eq!(parse_qos(input_qos).unwrap(), expected_qos);
}

#[test]
fn other_qualities_of_service_are_invalid() {
    for input in [
        "3", "", "+", "one", "-1", "-0", "1a", "a1", "1 ", " 1", "12", "256", "300", "++1", "1+",
        "0x1", "١",
    ] {
        assert!(
            matches!(parse_qos(input), Err(MqttError::InvalidQoS)),
            "{input:?}"
        );
    }
}

#[test]
fn a_quality_of_service_is_read_as_a_number() {
    for (input, expected) in [
        ("01", QoS::AtLeastOnce),
        ("+1", QoS::AtLeastOnce),
        ("+0", QoS::AtMostOnce),
        ("000", QoS::AtMostOnce),
        ("002", QoS::ExactlyOnce),
        ("+0002", QoS::ExactlyOnce),
    ] {
        assert_eq!(parse_qos(input).unwrap(), expected, "{input:?}");
        let number: u8 = input.parse().unwrap();
        assert!(number <= 2);
    }
}

#[test]
fn errors_of_the_channel_in_words() {
    assert_eq!(
        MqttError::InvalidTopic { name: "a/+".into() }.to_text(),
        "Invalid topic name: a/+"
    );
    assert_eq!(
        MqttError::InvalidFilter { pattern: "a/#/b".into() }.to_text(),
        "Invalid topic filter: a/#/b"
    );
    assert_eq!(MqttError::InvalidUtf8Payload.to_text(), "Invalid UTF8 payload");
    assert_eq!(
        MqttError::InvalidSessionConfig.to_text(),
        "Invalid session: a session name must be provided"
    );
    assert_eq!(MqttError::InvalidQoS.to_text(), "Invalid quality of service");
}

#[test]
fn default_connection_is_to_the_local_broker() {
    let config = Config::default();
    assert_eq!(config.host, "localhost");
    assert_eq!(config.port, 1883);
    assert_eq!(config.session_name, None);
    assert!(config.subscriptions.patterns.is_empty());
    assert!(!config.clean_session);
    assert_eq!(config.queue_capacity, 1024);
    assert_eq!(config.max_packet_size, 1024 * 1024);
    assert!(config.last_will_message.is_none());
}

#[test]
fn connection_without_session_name_is_clean_and_randomly_named() {
    let config = Config::new("broker", 8883).with_clean_session(false);
    let options = config.mqtt_options();
    assert!(options.clean_session);
    assert_eq!(options.client_id.len(), 10);
    assert!(options.client_id.chars().all(|c| c.is_ascii_lowercase()));
    assert_eq!(options.host, "broker");
    assert_eq!(options.port, 8883);
    assert!(matches!(
        config.check_session_to_init(),
        Err(MqttError::InvalidSessionConfig)
    ));
    assert!(matches!(
        config.check_session_to_clear(),
        Err(MqttError::InvalidSessionConfig)
    ));

    let named = Config::default()
        .with_session_name("mapper")
        .with_queue_capacity(7)
        .with_max_packet_size(99)
        .with_subscriptions(TopicFilter::new("a/+").unwrap())
        .with_subscriptions(TopicFilter::new("b/#").unwrap())
        .with_last_will_message("bye", b"gone".to_vec());
    let options = named.mqtt_options();
    assert_eq!(options.client_id, "mapper");
    assert!(!options.clean_session);
    assert_eq!(options.max_packet_size, 99);
    assert_eq!(named.queue_capacity, 7);
    assert_eq!(named.subscriptions.patterns, ["a/+", "b/#"]);
    let will = options.last_will.unwrap();
    assert_eq!(will.topic, "bye");
    assert_eq!(will.message, b"gone");
    assert_eq!(will.qos, QoS::AtLeastOnce);
    assert!(!will.retain);
    assert!(named.check_session_to_init().is_ok());
    assert!(named.check_session_to_clear().is_ok());
    assert!(named
        .with_clean_session(true)
        .check_session_to_init()
        .is_err());
}

#[test]
fn connection_of_a_mapper() {
    let config = mqtt_config(
        "tedge-mapper-az",
        "localhost",
        1883,
        TopicFilter::new("tedge/measurements").unwrap(),
        42,
    );
    assert_eq!(config.session_name, Some("tedge-mapper-az".to_string()));
    assert_eq!(config.max_packet_size, 10 * 1024 * 1024);
    assert_eq!(config.subscriptions.patterns, ["tedge/measurements"]);
    let will = config.last_will_message.unwrap();
    assert_eq!(will.topic, "tedge/health/tedge-mapper-az");
    assert_eq!(will.message, br#"{"pid":42,"status":"down"}"#);
    assert_eq!(will.qos, QoS::AtLeastOnce);
    assert!(will.retain);
}

#[test]
fn mappers_and_their_sessions() {
    assert_eq!(AzureMapper::new().session_name(), "tedge-mapper-az");
    assert_eq!(AwsMapper.session_name(), "tedge-mapper-aws");
    assert_eq!(MapperName::Az.to_text(), "tedge-mapper-az");
    assert_eq!(MapperName::Aws.to_text(), "tedge-mapper-aws");
    assert_eq!(MapperName::C8y.to_text(), "tedge-mapper-c8y");
    assert_eq!(MapperName::Collectd.to_text(), "tedge-mapper-collectd");
    assert!(matches!(lookup_component(&MapperName::Az), Component::Az(_)));
    assert!(matches!(lookup_component(&MapperName::Aws), Component::Aws(_)));
    assert!(matches!(lookup_component(&MapperName::C8y), Component::C8y));
    assert!(matches!(
        lookup_component(&MapperName::Collectd),
        Component::Collectd
    ));
    assert_eq!(
        AzureMapper::operations_dir("/etc/tedge"),
        "/etc/tedge/operations/az"
    );
    let mut opt = MapperOpt {
        name: MapperName::Az,
        debug: false,
        init: true,
        clear: true,
        config_dir: "/etc/tedge".into(),
    };
    assert_eq!(opt.task(), MapperTask::InitSession);
    opt.init = false;
    assert_eq!(opt.task(), MapperTask::ClearSession);
    opt.clear = false;
    assert_eq!(opt.task(), MapperTask::Run);
}

#[test]
fn topics_and_filters() {
    assert!(Topic::new("a/b").is_ok());
    assert!(matches!(
        Topic::new("a/+"),
        Err(MqttError::InvalidTopic { name }) if name == "a/+"
    ));
    assert!(Topic::new("a/#").is_err());
    for valid in ["a", "a/b", "+", "#", "a/+/b", "a/#", "+/+", "/"] {
        assert!(TopicFilter::new(valid).is_ok(), "{}", valid);
    }
    for invalid in ["", "a+", "a/b#", "a/#/b", "a/++", "#/a", "a+/b"] {
        assert!(
            matches!(
                TopicFilter::new(invalid),
                Err(MqttError::InvalidFilter { pattern }) if pattern == invalid
            ),
            "{}",
            invalid
        );
    }
    let filter = TopicFilter::new("a/+/c").unwrap();
    assert!(filter.accept_topic(&Topic::new_unchecked("a/b/c")));
    assert!(!filter.accept_topic(&Topic::new_unchecked("a/b/d")));
    assert!(!filter.accept_topic(&Topic::new_unchecked("\u{e9}/b/c")));
    assert!(!TopicFilter::empty().accept_topic(&Topic::new_unchecked("a")));
    let mut both = TopicFilter::new("x/#").unwrap();
    both.add_all(&filter);
    assert!(both.accept_topic(&Topic::new_unchecked("x/y/z")));
    assert!(both.accept_topic(&Topic::new_unchecked("a/b/c")));
}

#[test]
fn entity_topic_identifiers() {
    let id = EntityTopicId::from_str("device/child1").unwrap();
    assert_eq!(id.to_text(), "device/child1//");
    assert!(id.matches_default_topic_scheme());
    assert_eq!(id.default_device_name(), Some("child1"));
    assert_eq!(id.default_service_name(), None);
    assert_eq!(
        id.default_parent_identifier().unwrap().to_text(),
        "device/child1//"
    );
    let service = EntityTopicId::default_child_service("c", "s").unwrap();
    assert_eq!(service.to_text(), "device/c/service/s");
    assert_eq!(service.default_service_name(), Some("s"));
    assert_eq!(
        service.default_parent_identifier().unwrap().to_text(),
        "device/c//"
    );
    assert!(EntityTopicId::default_main_device().is_default_main_device());
    assert!(!service.is_default_main_device());
    assert_eq!(EntityTopicId::from_str("").unwrap().to_text(), "///");
    assert_eq!(
        EntityTopicId::from_str("a/b/c/d/e").unwrap_err(),
        TopicIdError::TooLong
    );
    assert_eq!(
        EntityTopicId::from_str("a/+").unwrap_err(),
        TopicIdError::InvalidMqttTopic
    );
    assert_eq!(
        EntityTopicId::default_child_device("a/b/c").unwrap_err(),
        TopicIdError::TooLong
    );
    let custom = EntityTopicId::from_str("custom/x/y/z").unwrap();
    assert!(!custom.matches_default_topic_scheme());
    assert!(custom.default_parent_identifier().is_none());
    assert!(EntityTopicId::from_str("device/x/y/z")
        .unwrap()
        .default_device_name()
        .is_none());
}

#[test]
fn channels_of_an_entity() {
    let schema = MqttSchema::new();
    let id = EntityTopicId::default_child_device("c1").unwrap();
    let topic = |channel: Channel| schema.topic_for(&id, &channel).name;
    assert_eq!(topic(Channel::EntityMetadata), "te/device/c1//");
    assert_eq!(
        topic(Channel::Measurement {
            measurement_type: "".into()
        }),
        "te/device/c1///m/"
    );
    assert_eq!(
        topic(Channel::Event {
            event_type: "door".into()
        }),
        "te/device/c1///e/door"
    );
    assert_eq!(
        topic(Channel::Alarm {
            alarm_type: "fire".into()
        }),
        "te/device/c1///a/fire"
    );
    assert_eq!(topic(Channel::Health), "te/device/c1///status/health");
    assert_eq!(
        topic(Channel::Command {
            operation: "restart".into(),
            cmd_id: "7".into()
        }),
        "te/device/c1///cmd/restart/7"
    );
    assert_eq!(
        MqttSchema::with_root("root".into())
            .topic_for(&id, &Channel::Health)
            .name,
        "root/device/c1///status/health"
    );
}

#[test]
fn texts_are_split_searched_and_written() {
    assert_eq!(split_levels(""), [""]);
    assert_eq!(split_levels("a"), ["a"]);
    assert_eq!(split_levels("a//b/"), ["a", "", "b", ""]);
    assert_eq!(split_levels("/"), ["", ""]);
    assert_eq!(split_pieces("mosquitto-c8y-bridge", '-'), ["mosquitto", "c8y", "bridge"]);
    assert_eq!(split_pieces("\u{e9}/\u{fc}", '/'), ["\u{e9}", "\u{fc}"]);
    assert!(has_substring("a-bridge-b", "bridge"));
    assert!(has_substring("bridge", "bridge"));
    assert!(has_substring("x", ""));
    assert!(!has_substring("bridg", "bridge"));
    assert_eq!(decimal_text(0), "0");
    assert_eq!(decimal_text(10), "10");
    assert_eq!(decimal_text(u64::MAX), "18446744073709551615");
}

#[test]
fn system_configuration_defaults() {
    let init = InitConfig::default();
    assert_eq!(init.name, "systemd");
    assert_eq!(init.is_available, vec!["/bin/systemctl", "--version"]);
    assert_eq!(init.restart, vec!["/bin/systemctl", "restart", "{}"]);
    assert_eq!(init.stop, vec!["/bin/systemctl", "stop", "{}"]);
    assert_eq!(init.enable, vec!["/bin/systemctl", "enable", "{}"]);
    assert_eq!(init.disable, vec!["/bin/systemctl", "disable", "{}"]);
    assert_eq!(init.is_active, vec!["/bin/systemctl", "is-active", "{}"]);
    assert!(LogConfig::default().is_debug);
    let config = SystemConfig::default();
    assert!(config.init.is_none() && config.log.is_none());
    assert_eq!(log_level(false, None), LogLevel::Trace);
    assert_eq!(
        log_level(false, Some(LogConfig { is_debug: false })),
        LogLevel::Info
    );
    assert_eq!(
        log_level(true, Some(LogConfig { is_debug: false })),
        LogLevel::Trace
    );
    assert!(matches!(
        SystemServiceError::invalid_toml("p", "r"),
        SystemServiceError::SystemConfigInvalidToml { path, reason } if path == "p" && reason == "r"
    ));
}

#[test]
fn hosts() {
    let host = Host::try_from("example.com".to_string()).unwrap();
    assert!(host.equals(&Host("example.com".into())));
    assert_eq!(host.clone().into(), "example.com");
    assert_eq!(
        InvalidHostName { input: "x y".into() }.to_text(),
        "Invalid Host name: 'x y'."
    );
}

#[test]
fn topics_are_read_as_entity_and_channel() {
    let schema = MqttSchema::new();
    let (entity, channel) = schema.entity_channel_of("te/device/c1///m/temp").unwrap();
    assert_eq!(entity.to_text(), "device/c1//");
    assert!(matches!(channel, Channel::Measurement { measurement_type } if measurement_type == "temp"));
    let (entity, channel) = schema.entity_channel_of("te/device/main///m/").unwrap();
    assert!(entity.is_default_main_device());
    assert!(matches!(channel, Channel::Measurement { measurement_type } if measurement_type.is_empty()));
    let (entity, channel) = schema
        .entity_channel_of("te/device/main/service/s1/status/health")
        .unwrap();
    assert_eq!(entity.to_text(), "device/main/service/s1");
    assert!(matches!(channel, Channel::Health));
    assert!(matches!(
        schema.entity_channel_of("te/device/c1//").unwrap().1,
        Channel::EntityMetadata
    ));
    assert!(matches!(
        schema.entity_channel_of("te/device/c1///e/door").unwrap().1,
        Channel::Event { event_type } if event_type == "door"
    ));
    assert!(matches!(
        schema.entity_channel_of("te/device/c1///a/fire").unwrap().1,
        Channel::Alarm { alarm_type } if alarm_type == "fire"
    ));
    assert!(matches!(
        schema.entity_channel_of("te/device/c1///cmd/restart/7").unwrap().1,
        Channel::Command { operation, cmd_id } if operation == "restart" && cmd_id == "7"
    ));
    for topic in ["tedge/device/c1//", "te", "te/device/c1/", "te/device/+//", "te/device/c1///m/#"] {
        assert_eq!(
            schema.entity_channel_of(topic).unwrap_err(),
            EntityTopicError::OutsideSchema,
            "{}",
            topic
        );
    }
    for topic in [
        "te/device/c1///m",
        "te/device/c1///x/y",
        "te/device/c1///status/other",
        "te/device/c1///cmd/restart",
        "te/device/c1///m/a/b",
    ] {
        assert_eq!(
            schema.entity_channel_of(topic).unwrap_err(),
            EntityTopicError::UnknownChannel,
            "{}",
            topic
        );
    }
    for channel in [
        Channel::EntityMetadata,
        Channel::Health,
        Channel::Command {
            operation: "o".into(),
            cmd_id: "i".into(),
        },
    ] {
        let id = EntityTopicId::default_child_service("c", "s").unwrap();
        let topic = schema.topic_for(&id, &channel);
        let (entity, back) = schema.entity_channel_of(&topic.name).unwrap();
        assert!(entity.equals(&id));
        assert_eq!(back.to_text(), channel.to_text());
    }
}
