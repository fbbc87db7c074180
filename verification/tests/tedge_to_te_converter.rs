use thin_edge::mqtt_channel::Message;
use thin_edge::mqtt_channel::QoS;
use thin_edge::mqtt_channel::Topic;
use thin_edge::tedge_to_te_converter::get_child_id_and_alarm_type_and_severity;
use thin_edge::tedge_to_te_converter::get_child_id_and_event_type;
use thin_edge::tedge_to_te_converter::get_child_id_and_service_name;
use thin_edge::tedge_to_te_converter::get_child_id_from_measurement_topic;
use thin_edge::tedge_to_te_converter::process_mqtt_message;
use thin_edge::tedge_to_te_converter::TedgetoTeConverterBuilder;
use thin_edge::tedge_to_te_converter::TedgetoTeConverterError;

fn assert_converted(topic: &str, payload: &str, expected_topic: &str, expected_payload: &str) {
    let input = Message::new(&Topic::new_unchecked(topic), payload);
    let output = process_mqtt_message(&input).unwrap();
    assert_eq!(output.len(), 1);
    assert_eq!(output[0].topic.name, expected_topic);
    assert_eq!(output[0].payload_str().unwrap(), expected_payload);
    assert_eq!(output[0].qos, input.qos);
    assert!(!output[0].retain);
}

#[test]
fn convert_incoming_main_device_measurement_topic() {
    assert_converted(
        "tedge/measurements",
        r#"{"temperature": 2500 }"#,
        "te/device/main///m/",
        r#"{"temperature": 2500 }"#,
    );
}

#[test]
fn convert_incoming_child_device_measurement_topic() {
    assert_converted(
        "tedge/measurements/child1",
        r#"{"temperature": 2500 }"#,
        "te/device/child1///m/",
        r#"{"temperature": 2500 }"#,
    );
}

#[test]
fn convert_incoming_main_device_alarm_topic() {
    assert_converted(
        "tedge/alarms/critical/MyCustomAlarm",
        r#"{
            "text": "I raised it",
            "time": "2021-04-23T19:00:00+05:00"
        }"#,
        "te/device/main///a/MyCustomAlarm",
        r#"{"text":"I raised it","time":"2021-04-23T19:00:00+05:00","severity":"critical"}"#,
    );
}

#[test]
fn convert_incoming_custom_main_device_alarm_topic() {
    assert_converted(
        "tedge/alarms/critical/MyCustomAlarm",
        r#"{
            "text": "I raised it",
            "time": "2021-04-23T19:00:00+05:00",
            "someOtherCustomFragment": {"nested":{"value": "extra info"}}
        }"#,
        "te/device/main///a/MyCustomAlarm",
        r#"{"text":"I raised it","time":"2021-04-23T19:00:00+05:00","severity":"critical","someOtherCustomFragment":{"nested":{"value":"extra info"}}}"#,
    );
}

#[test]
fn convert_incoming_child_device_alarm_topic() {
    assert_converted(
        "tedge/alarms/critical/child/MyCustomAlarm",
        r#"{
           "text": "I raised it",
           "time": "2021-04-23T19:00:00+05:00"
       }"#,
        "te/device/child///a/MyCustomAlarm",
        r#"{"text":"I raised it","time":"2021-04-23T19:00:00+05:00","severity":"critical"}"#,
    );
}

#[test]
fn convert_incoming_main_device_event_topic() {
    assert_converted(
        "tedge/events/MyEvent",
        r#"{"text":"Some test event","time":"2021-04-23T19:00:00+05:00"}"#,
        "te/device/main///e/MyEvent",
        r#"{"text":"Some test event","time":"2021-04-23T19:00:00+05:00"}"#,
    );
}

#[test]
fn convert_custom_incoming_main_device_event_topic() {
    assert_converted(
        "tedge/events/MyEvent",
        r#"{"text":"Some test event","time":"2021-04-23T19:00:00+05:00","someOtherCustomFragment":{"nested":{"value":"extra info"}}}"#,
        "te/device/main///e/MyEvent",
        r#"{"text":"Some test event","time":"2021-04-23T19:00:00+05:00","someOtherCustomFragment":{"nested":{"value":"extra info"}}}"#,
    );
}

#[test]
fn convert_incoming_child_device_event_topic() {
    assert_converted(
        "tedge/events/child/MyEvent",
        r#"{"text":"Some test event","time":"2021-04-23T19:00:00+05:00"}"#,
        "te/device/child///e/MyEvent",
        r#"{"text":"Some test event","time":"2021-04-23T19:00:00+05:00"}"#,
    );
}

#[test]
fn main_device_measurement_keeps_its_bytes() {
    assert_converted(
        "tedge/measurements",
        r#"{"temperature":2500}"#,
        "te/device/main///m/",
        r#"{"temperature":2500}"#,
    );
}

#[test]
fn child_alarm_gets_the_severity_of_its_topic() {
    assert_converted(
        "tedge/alarms/critical/child1/DoorOpen",
        r#"{"text":"open","time":"2021-04-23T19:00:00+05:00"}"#,
        "te/device/child1///a/DoorOpen",
        r#"{"text":"open","time":"2021-04-23T19:00:00+05:00","severity":"critical"}"#,
    );
}

#[test]
fn severity_of_the_topic_overwrites_that_of_the_payload() {
    assert_converted(
        "tedge/alarms/minor/Door",
        r#"{"severity":"major","text":"open"}"#,
        "te/device/main///a/Door",
        r#"{"text":"open","severity":"minor"}"#,
    );
    assert_converted(
        "tedge/alarms/minor/Door",
        r#"{"time":"2021-04-23T19:00:00.000+05:00","zone":3,"area":[1]}"#,
        "te/device/main///a/Door",
        r#"{"text":null,"time":"2021-04-23T19:00:00+05:00","severity":"minor","area":[1],"zone":3}"#,
    );
}

#[test]
fn health_status_goes_to_the_service_of_the_device() {
    assert_converted(
        "tedge/health/tedge-agent",
        r#"{"status":"up"}"#,
        "te/device/main/service/tedge-agent/status/health",
        r#"{"status":"up"}"#,
    );
    assert_converted(
        "tedge/health/child/tedge-agent",
        r#"{"status":"up"}"#,
        "te/device/child/service/tedge-agent/status/health",
        r#"{"status":"up"}"#,
    );
}

#[test]
fn translation_keeps_the_quality_of_service_and_is_repeatable() {
    for qos in [QoS::AtMostOnce, QoS::AtLeastOnce, QoS::ExactlyOnce] {
        let input = Message::new(
            &Topic::new_unchecked("tedge/alarms/major/c/T"),
            r#"{"b":1,"a":2,"text":"t"}"#,
        )
        .with_qos(qos);
        let first = process_mqtt_message(&input).unwrap();
        let second = process_mqtt_message(&input).unwrap();
        assert_eq!(first[0].qos, qos);
        assert_eq!(first[0].payload, second[0].payload);
        assert_eq!(first[0].topic.name, second[0].topic.name);
    }
}

#[test]
fn topics_of_another_shape_are_unsupported() {
    for topic in [
        "tedge/measurements/",
        "tedge/measurements/a/b",
        "tedge/events",
        "tedge/events/",
        "tedge/events//x",
        "tedge/events/a/b/c",
        "tedge/alarms/critical",
        "tedge/alarms//x",
        "tedge/alarms/critical/c/",
        "tedge/alarms/a/b/c/d",
        "tedge/health",
        "tedge/health/",
        "tedge/health/c/",
    ] {
        let input = Message::new(&Topic::new_unchecked(topic), "{}");
        match process_mqtt_message(&input) {
            Err(TedgetoTeConverterError::UnsupportedTopic(name)) => assert_eq!(name, topic),
            other => panic!("{}: {:?}", topic, other),
        }
    }
    let other = Message::new(&Topic::new_unchecked("other/topic"), "{}");
    assert!(process_mqtt_message(&other).unwrap().is_empty());
}

#[test]
fn malformed_alarms_and_payloads_are_refused() {
    let alarm = Topic::new_unchecked("tedge/alarms/critical/A");
    for payload in [
        "not json",
        "[1]",
        r#"{"text":5}"#,
        r#"{"time":"yesterday"}"#,
        r#"{"time":5}"#,
        r#"{"severity":null}"#,
    ] {
        assert!(matches!(
            process_mqtt_message(&Message::new(&alarm, payload)),
            Err(TedgetoTeConverterError::SerdeJsonError(_))
        ));
    }
    let binary = Message::from_bytes(&alarm, vec![0xff, 0xfe]);
    assert!(matches!(
        process_mqtt_message(&binary),
        Err(TedgetoTeConverterError::SerdeJsonError(_))
    ));
}

#[test]
fn payloads_that_are_no_text_pass_through_unchanged() {
    for (topic, expected) in [
        ("tedge/measurements", "te/device/main///m/"),
        ("tedge/measurements/c", "te/device/c///m/"),
        ("tedge/events/door", "te/device/main///e/door"),
        ("tedge/health/c/svc", "te/device/c/service/svc/status/health"),
    ] {
        let binary = Message::from_bytes(&Topic::new_unchecked(topic), vec![0xff, 0xfe, 0x00]);
        let out = process_mqtt_message(&binary).unwrap();
        assert_eq!(out.len(), 1);
        assert_eq!(out[0].topic.name, expected);
        assert_eq!(out[0].payload, vec![0xff, 0xfe, 0x00]);
    }
}

#[test]
fn health_topics_with_an_empty_level_are_unsupported() {
    for topic in ["tedge/health//svc", "tedge/health/child/"] {
        assert!(get_child_id_and_service_name(topic).is_err());
        let input = Message::new(&Topic::new_unchecked(topic), "{}");
        match process_mqtt_message(&input) {
            Err(TedgetoTeConverterError::UnsupportedTopic(name)) => assert_eq!(name, topic),
            other => panic!("{}: {:?}", topic, other),
        }
    }
}

#[test]
fn topic_parts_are_read_by_position() {
    assert_eq!(
        get_child_id_and_event_type("tedge/events/c/t").unwrap(),
        (Some("c"), "t")
    );
    assert_eq!(
        get_child_id_and_event_type("tedge/events/t").unwrap(),
        (None, "t")
    );
    assert_eq!(
        get_child_id_and_alarm_type_and_severity("tedge/alarms/s/c/t").unwrap(),
        (Some("c"), "t", "s")
    );
    assert_eq!(
        get_child_id_and_alarm_type_and_severity("tedge/alarms/s/t").unwrap(),
        (None, "t", "s")
    );
    assert_eq!(
        get_child_id_from_measurement_topic("tedge/measurements/c").unwrap(),
        Some("c")
    );
    assert_eq!(
        get_child_id_from_measurement_topic("tedge/measurements").unwrap(),
        None
    );
    assert_eq!(
        get_child_id_and_service_name("tedge/health/c/s").unwrap(),
        (Some("c"), "s")
    );
    assert_eq!(
        get_child_id_and_service_name("tedge/health/s").unwrap(),
        (None, "s")
    );
    assert!(get_child_id_and_service_name("tedge/health//s").is_err());
}

#[test]
fn the_converter_listens_on_the_legacy_topics() {
    let builder = TedgetoTeConverterBuilder::new("tedge-agent");
    assert_eq!(builder.subscriptions.patterns.len(), 8);
    for topic in [
        "tedge/measurements",
        "tedge/measurements/child",
        "tedge/events/door",
        "tedge/events/child/door",
        "tedge/alarms/major/fire",
        "tedge/alarms/major/child/fire",
        "tedge/health/svc",
        "tedge/health/child/svc",
    ] {
        assert!(
            builder
                .subscriptions
                .accept_topic(&Topic::new_unchecked(topic)),
            "{}",
            topic
        );
    }
    assert!(!builder
        .subscriptions
        .accept_topic(&Topic::new_unchecked("tedge/commands/req/software/list")));
    let mut converter = builder.build();
    assert_eq!(converter.name(), "TedgetoTeConverterActor");
    let out = converter
        .process_mqtt_message(&Message::new(
            &Topic::new_unchecked("tedge/measurements"),
            "{}",
        ))
        .unwrap();
    assert_eq!(out[0].topic.name, "te/device/main///m/");
}
