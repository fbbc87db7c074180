use thin_edge::converter::publish_or_report;
use thin_edge::converter::AwsConverter;
use thin_edge::converter::AzureConverter;
use thin_edge::converter::ConversionError;
use thin_edge::converter::MapperError;
use thin_edge::converter::SizeThreshold;
use thin_edge::mqtt_channel::Message;
use thin_edge::mqtt_channel::MqttError;
use thin_edge::mqtt_channel::Topic;
use thin_edge::timestamp::Timestamp;

fn test_clock() -> Timestamp {
    // 2021-04-08 00:00:00 +05:00
    Timestamp {
        unix_nanos: 1_617_822_000_000_000_000,
        offset_seconds: 5 * 3600,
    }
}

fn new_tedge_message(input: &str) -> Message {
    Message::new(&Topic::new_unchecked("tedge/measurements"), input)
}

fn extract_first_message_payload(mut messages: Vec<Message>) -> String {
    messages.pop().unwrap().payload_str().unwrap().to_string()
}

fn json(text: &str) -> serde_json::Value {
    serde_json::from_str(text).unwrap()
}

fn azure(add_timestamp: bool, input: &str) -> Result<Vec<Message>, ConversionError> {
    AzureConverter::new(add_timestamp, test_clock).convert(&new_tedge_message(input))
}

fn aws(add_timestamp: bool, input: &str) -> Result<Vec<Message>, ConversionError> {
    AwsConverter::new(add_timestamp, test_clock).convert(&new_tedge_message(input))
}

#[test]
fn converter_converting_invalid_json_is_invalid() {
    let input = "This is not Thin Edge JSON";
    assert!(matches!(
        azure(false, input),
        Err(ConversionError::FromThinEdgeJsonParser(_))
    ));
    assert!(matches!(
        aws(false, input),
        Err(ConversionError::FromThinEdgeJsonParser(_))
    ));
}

#[test]
fn converter_converting_input_without_timestamp_produces_output_without_timestamp_given_add_timestamp_is_false(
) {
    let input = r#"{
            "temperature": 23.0
         }"#;
    let expected_output = json(r#"{"temperature": 23.0}"#);

    let output = azure(false, input).unwrap();
    assert_eq!(json(&extract_first_message_payload(output)), expected_output);
    let output = aws(false, input).unwrap();
    assert_eq!(json(&extract_first_message_payload(output)), expected_output);
}

#[test]
fn converter_converting_input_with_timestamp_produces_output_with_timestamp_given_add_timestamp_is_false(
) {
    let input = r#"{
            "time" : "2013-06-22T17:03:14.000+02:00",
            "temperature": 23.0
        }"#;
    let expected_output = json(r#"{"time":"2013-06-22T17:03:14+02:00","temperature":23.0}"#);

    let output = azure(false, input).unwrap();
    assert_eq!(json(&extract_first_message_payload(output)), expected_output);
    let output = aws(false, input).unwrap();
    assert_eq!(json(&extract_first_message_payload(output)), expected_output);
}

#[test]
fn converter_converting_input_with_timestamp_produces_output_with_timestamp_given_add_timestamp_is_true(
) {
    let input = r#"{
            "time" : "2013-06-22T17:03:14.000+02:00",
            "temperature": 23.0
        }"#;
    let expected_output = json(r#"{"time":"2013-06-22T17:03:14+02:00","temperature":23.0}"#);

    let output = azure(true, input).unwrap();
    assert_eq!(json(&extract_first_message_payload(output)), expected_output);
    let output = aws(true, input).unwrap();
    assert_eq!(json(&extract_first_message_payload(output)), expected_output);
}

#[test]
fn converter_converting_input_without_timestamp_produces_output_with_timestamp_given_add_timestamp_is_true(
) {
    let input = r#"{
            "temperature": 23.0
        }"#;
    let expected_output = json(r#"{"temperature":23.0,"time":"2021-04-08T00:00:00+05:00"}"#);

    let output = azure(true, input).unwrap();
    assert_eq!(json(&extract_first_message_payload(output)), expected_output);
    let output = aws(true, input).unwrap();
    assert_eq!(json(&extract_first_message_payload(output)), expected_output);
}

#[test]
fn converter_exceeding_threshold_returns_error() {
    let mut converter = AzureConverter::new(false, test_clock).with_threshold(SizeThreshold(1));
    match converter.convert(&new_tedge_message("ABC")) {
        Err(ConversionError::SizeThresholdExceeded {
            topic,
            actual_size,
            threshold,
        }) => {
            assert_eq!(topic, "tedge/measurements");
            assert_eq!(actual_size, 3);
            assert_eq!(threshold, 1);
        }
        other => panic!("unexpected result: {:?}", other),
    }

    let mut converter = AwsConverter::new(false, test_clock).with_threshold(SizeThreshold(1));
    let input = r#"{"temperature": 21.3}"#;
    match converter.convert(&new_tedge_message(input)) {
        Err(ConversionError::SizeThresholdExceeded {
            topic,
            actual_size,
            threshold,
        }) => {
            assert_eq!(topic, "tedge/measurements");
            assert_eq!(actual_size, input.len());
            assert_eq!(threshold, 1);
        }
        other => panic!("unexpected result: {:?}", other),
    }
}

#[test]
fn azure_emits_on_its_events_topic_with_exact_payload() {
    let output = azure(
        true,
        r#"{"temperature": 23.0, "coord": {"x": 1, "y": 2.5}}"#,
    )
    .unwrap();
    assert_eq!(output.len(), 1);
    assert_eq!(output[0].topic.name, "az/messages/events/");
    assert_eq!(
        output[0].payload_str().unwrap(),
        r#"{"coord":{"x":1,"y":2.5},"temperature":23.0,"time":"2021-04-08T00:00:00+05:00"}"#
    );
}

#[test]
fn what_is_no_measurement_is_no_thin_edge_json() {
    for input in [
        r#"{"temperature": "hot"}"#,
        r#"{"temperature": [1, 2]}"#,
        r#"{"group": {"x": "a"}}"#,
        r#"{"group": {"x": {"y": 1}}}"#,
        r#"{"time": 17}"#,
        r#"{"time": "noon"}"#,
        r#"{"flag": true}"#,
        r#"[1]"#,
    ] {
        assert!(
            matches!(
                azure(false, input),
                Err(ConversionError::FromThinEdgeJsonParser(_))
            ),
            "{}",
            input
        );
    }
}

#[test]
fn the_translation_has_to_fit_too() {
    let input = r#"{"t":1}"#;
    let mut fits_without_time =
        AzureConverter::new(true, test_clock).with_threshold(SizeThreshold(input.len()));
    match fits_without_time.convert(&new_tedge_message(input)) {
        Err(ConversionError::SizeThresholdExceeded {
            topic,
            actual_size,
            threshold,
        }) => {
            assert_eq!(topic, "az/messages/events/");
            assert_eq!(
                actual_size,
                r#"{"t":1,"time":"2021-04-08T00:00:00+05:00"}"#.len()
            );
            assert_eq!(threshold, input.len());
        }
        other => panic!("unexpected result: {:?}", other),
    }
    let mut fits = AzureConverter::new(false, test_clock).with_threshold(SizeThreshold(input.len()));
    let out = fits.convert(&new_tedge_message(input)).unwrap();
    assert!(out[0].payload.len() <= input.len());
}

#[test]
fn aws_mirrors_the_topic_and_adds_the_time_to_events() {
    let mut converter = AwsConverter::new(true, test_clock);
    let event = Message::new(
        &Topic::new_unchecked("tedge/events/child/door"),
        r#"{"text":"open"}"#,
    );
    let output = converter.convert(&event).unwrap();
    assert_eq!(output.len(), 1);
    assert_eq!(output[0].topic.name, "aws/td/events/child/door");
    assert_eq!(
        output[0].payload_str().unwrap(),
        r#"{"text":"open","time":"2021-04-08T00:00:00+05:00"}"#
    );

    let timed = Message::new(
        &Topic::new_unchecked("tedge/alarms/major/door"),
        r#"{"time":"whenever"}"#,
    );
    let output = converter.convert(&timed).unwrap();
    assert_eq!(output[0].topic.name, "aws/td/alarms/major/door");
    assert_eq!(output[0].payload_str().unwrap(), r#"{"time":"whenever"}"#);

    let measurement = converter
        .convert(&Message::new(
            &Topic::new_unchecked("tedge/measurements/child"),
            r#"{"t":1}"#,
        ))
        .unwrap();
    assert_eq!(measurement[0].topic.name, "aws/td/measurements/child");

    let other = Message::new(&Topic::new_unchecked("tedge/other"), "{}");
    assert!(converter.convert(&other).unwrap().is_empty());

    let no_json = Message::new(&Topic::new_unchecked("tedge/events/x"), "nothing");
    assert!(matches!(
        converter.convert(&no_json),
        Err(ConversionError::FromSerdeJson(_))
    ));
}

#[test]
fn thresholds_of_the_clouds() {
    assert_eq!(
        AzureConverter::new(false, test_clock).size_threshold,
        SizeThreshold(128 * 1024)
    );
    assert_eq!(
        AwsConverter::new(false, test_clock).size_threshold,
        SizeThreshold(255 * 1024)
    );
    assert_eq!(
        AzureConverter::<fn() -> Timestamp>::in_topic_filter().patterns,
        ["tedge/measurements", "tedge/measurements/+"]
    );
    assert_eq!(
        AwsConverter::<fn() -> Timestamp>::in_topic_filter()
            .patterns
            .len(),
        8
    );
}

#[test]
fn a_default_time_that_cannot_be_written_is_an_error() {
    let mut converter = AzureConverter::new(true, || Timestamp {
        unix_nanos: i128::MAX,
        offset_seconds: 0,
    });
    assert!(matches!(
        converter.convert(&new_tedge_message("{}")),
        Err(ConversionError::FromTimeFormatError)
    ));
}

#[test]
fn what_cannot_be_converted_is_told_on_the_errors_topic() {
    let errors_topic = Topic::new_unchecked("tedge/errors");
    let mut converter = AzureConverter::new(false, test_clock).with_threshold(SizeThreshold(1));
    let reported = publish_or_report(converter.convert(&new_tedge_message("ABC")), &errors_topic);
    assert_eq!(reported.len(), 1);
    assert_eq!(reported[0].topic.name, "tedge/errors");
    assert_eq!(
        reported[0].payload_str().unwrap(),
        "The size of the message received on tedge/measurements is 3 which is greater than the threshold size of 1."
    );
    let mut converter = AzureConverter::new(false, test_clock);
    let published = publish_or_report(
        converter.convert(&new_tedge_message(r#"{"t":1}"#)),
        &errors_topic,
    );
    assert_eq!(published.len(), 1);
    assert_eq!(published[0].topic.name, "az/messages/events/");
    assert_eq!(
        ConversionError::UnsupportedTopic("x/y".into()).to_text(),
        "Unsupported topic: x/y"
    );
}

#[test]
fn every_conversion_error_is_told_in_its_own_words() {
    let errors_topic = Topic::new_unchecked("tedge/errors");
    let cases = [
        (
            ConversionError::FromMapper(MapperError::HomeDirNotFound),
            "Home directory is not found.",
        ),
        (
            ConversionError::FromMapper(MapperError::FromStdIo("disk".into())),
            "disk",
        ),
        (ConversionError::FromStdIo("gone".into()), "gone"),
        (
            ConversionError::FromMqttClient(MqttError::InvalidUtf8Payload),
            "Invalid UTF8 payload",
        ),
        (
            ConversionError::FromMqttClient(MqttError::InvalidTopic { name: "a/#".into() }),
            "Invalid topic name: a/#",
        ),
        (
            ConversionError::FromTimeFormatError,
            "The time cannot be written in the RFC 3339 format",
        ),
        (
            ConversionError::UnsupportedTopic("x/y".into()),
            "Unsupported topic: x/y",
        ),
        (
            ConversionError::SizeThresholdExceeded {
                topic: "t".into(),
                actual_size: 12,
                threshold: 10,
            },
            "The size of the message received on t is 12 which is greater than the threshold size of 10.",
        ),
    ];
    for (error, words) in cases {
        assert_eq!(error.to_text(), words);
        let reported = publish_or_report(Err(error), &errors_topic);
        assert_eq!(reported.len(), 1);
        assert_eq!(reported[0].topic.name, "tedge/errors");
        assert_eq!(reported[0].payload_str().unwrap(), words);
        assert!(!reported[0].retain);
    }
}
