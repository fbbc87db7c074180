use thin_edge::c8y_http_proxy::create_event_request;
use thin_edge::c8y_http_proxy::event_id_of_response;
use thin_edge::c8y_http_proxy::internal_id_of_response;
use thin_edge::c8y_http_proxy::upload_result;
use thin_edge::c8y_http_proxy::HttpMethod;
use thin_edge::c8y_http_proxy::update_event_with_new_internal_id;
use thin_edge::c8y_http_proxy::update_url_with_new_internal_id;
use thin_edge::c8y_http_proxy::Action;
use thin_edge::c8y_http_proxy::C8YHttpProxy;
use thin_edge::c8y_http_proxy::C8YRestError;
use thin_edge::c8y_http_proxy::C8YRestRequest;
use thin_edge::c8y_http_proxy::C8YRestRequestWithClientId;
use thin_edge::c8y_http_proxy::C8YRestResponse;
use thin_edge::c8y_http_proxy::Event;
use thin_edge::c8y_http_proxy::Phase;
use thin_edge::timestamp::Timestamp;

const C8Y_HOST: &str = "c8y.tenant.io";
const DEVICE_ID: &str = "device-001";

fn response(status: u16) -> Event {
    Event::Response {
        status,
        internal_id: None,
    }
}

fn id_response(status: u16, internal_id: &str) -> Event {
    Event::Response {
        status,
        internal_id: Some(internal_id.to_string()),
    }
}

fn token(token: &str) -> Event {
    Event::Token(Some(token.to_string()))
}

fn assert_id_request(action: Action, device: &str, bearer: &str) {
    match action {
        Action::GetInternalId { url, token } => {
            assert_eq!(
                url,
                format!("https://{C8Y_HOST}/identity/externalIds/c8y_Serial/{device}")
            );
            assert_eq!(token, bearer);
        }
        other => panic!("unexpected action: {:?}", other),
    }
}

fn assert_send(action: Action, id: &str, bearer: &str) {
    match action {
        Action::Send { internal_id, token } => {
            assert_eq!(internal_id, id);
            assert_eq!(token, bearer);
        }
        other => panic!("unexpected action: {:?}", other),
    }
}

fn started_proxy(jwt: &str, internal_id: &str) -> C8YHttpProxy {
    let mut proxy = C8YHttpProxy::new(C8Y_HOST, DEVICE_ID);
    assert!(matches!(proxy.init(), Action::FetchToken));
    assert_id_request(proxy.handle(token(jwt)), DEVICE_ID, jwt);
    assert!(matches!(
        proxy.handle(id_response(200, internal_id)),
        Action::Success
    ));
    proxy
}

#[test]
fn c8y_http_proxy_requests_the_device_internal_id_on_start() {
    let mut proxy = C8YHttpProxy::new(C8Y_HOST, DEVICE_ID);
    assert!(proxy.needs_init());

    // Even before any request is sent to the proxy, it asks for the internal device id,
    // which needs a token first.
    assert!(matches!(proxy.init(), Action::FetchToken));
    assert_id_request(
        proxy.handle(token("some JWT token")),
        DEVICE_ID,
        "some JWT token",
    );

    // Cumulocity returns the internal device id
    assert!(matches!(
        proxy.handle(id_response(200, "external-device-001")),
        Action::Success
    ));
    assert!(!proxy.needs_init());
    assert_eq!(proxy.get_c8y_internal_id(), "external-device-001");

    // This internal id is then used by the proxy for subsequent requests.
    assert_send(proxy.execute(None), "external-device-001", "some JWT token");
    assert_eq!(
        proxy.get_url_for_create_event(),
        format!("https://{C8Y_HOST}/event/events/")
    );
}

#[test]
fn retry_internal_id_on_expired_jwt() {
    let mut proxy = C8YHttpProxy::new(C8Y_HOST, DEVICE_ID);
    assert!(matches!(proxy.init(), Action::FetchToken));
    assert_id_request(proxy.handle(token("JWT token")), DEVICE_ID, "JWT token");

    // Cumulocity returns unauthorized error (401), because the jwt token has expired:
    // the proxy asks for a fresh token between the two attempts
    assert!(matches!(proxy.handle(response(401)), Action::FetchToken));
    assert_id_request(proxy.handle(token("fresh token")), DEVICE_ID, "fresh token");

    // and gets the internal device id
    assert!(matches!(
        proxy.handle(id_response(200, "external-device-001")),
        Action::Success
    ));
    assert_eq!(proxy.get_c8y_internal_id(), "external-device-001");

    // a subsequent upload succeeds in one call
    assert_send(proxy.execute(None), "external-device-001", "fresh token");
    assert!(matches!(proxy.handle(response(200)), Action::Success));
    assert_eq!(proxy.phase, Phase::Idle);
}

#[test]
fn retry_software_list_once_with_fresh_internal_id() {
    let mut proxy = started_proxy("JWT token", DEVICE_ID);
    assert_eq!(
        proxy.get_url_for_sw_list(),
        format!("https://{C8Y_HOST}/inventory/managedObjects/{DEVICE_ID}")
    );

    assert_send(proxy.execute(None), DEVICE_ID, "JWT token");

    // The software list upload fails because the device identified with internal id not found:
    // the proxy gets a new internal id for the device
    assert_id_request(proxy.handle(response(404)), DEVICE_ID, "JWT token");
    assert!(proxy.needs_init());

    // then the upload is sent again with the internal id that came
    assert_send(
        proxy.handle(id_response(200, "fresh-id")),
        "fresh-id",
        "JWT token",
    );
    assert!(matches!(proxy.handle(response(201)), Action::Success));
    assert_eq!(proxy.get_c8y_internal_id(), "fresh-id");
}

#[test]
fn auto_retry_upload_log_binary_when_internal_id_expires() {
    let mut proxy = started_proxy("JWT token", "old-id");

    // the event is created for a child device whose internal id is not known yet:
    // the proxy asks for it before it sends anything
    assert_id_request(proxy.execute(Some("child".into())), "child", "JWT token");
    assert_send(
        proxy.handle(id_response(200, "stale-id")),
        "stale-id",
        "JWT token",
    );
    // the cloud does not know that id any more: the proxy asks once again
    assert_id_request(proxy.handle(response(404)), "child", "JWT token");
    assert_send(
        proxy.handle(id_response(200, "child-id")),
        "child-id",
        "JWT token",
    );
    assert!(matches!(proxy.handle(response(200)), Action::Success));

    // the next call for that child uses the internal id that the proxy holds
    assert_send(proxy.execute(Some("child".into())), "child-id", "JWT token");
    assert!(matches!(proxy.handle(response(200)), Action::Success));
    // and that of the main device is untouched
    assert_eq!(proxy.get_c8y_internal_id(), "old-id");

    // a second 404 is surfaced
    assert_send(proxy.execute(Some("child".into())), "child-id", "JWT token");
    assert_id_request(proxy.handle(response(404)), "child", "JWT token");
    assert_send(
        proxy.handle(id_response(200, "child-id-2")),
        "child-id-2",
        "JWT token",
    );
    assert!(matches!(
        proxy.handle(response(404)),
        Action::Failure(C8YRestError::HttpStatusError(404))
    ));
    assert_eq!(proxy.phase, Phase::Idle);
}

#[test]
fn expired_token_is_refreshed_once_per_call() {
    for refused in [401, 403] {
        let mut proxy = started_proxy("old", "id");
        assert_send(proxy.execute(None), "id", "old");
        assert!(matches!(proxy.handle(response(refused)), Action::FetchToken));
        assert_eq!(proxy.get_jwt_token(), None);
        assert_send(proxy.handle(token("new")), "id", "new");
        assert!(matches!(proxy.handle(response(204)), Action::Success));
        assert_eq!(proxy.get_jwt_token(), Some("new"));

        assert_send(proxy.execute(None), "id", "new");
        assert!(matches!(proxy.handle(response(refused)), Action::FetchToken));
        assert_send(proxy.handle(token("newer")), "id", "newer");
        assert!(matches!(
            proxy.handle(response(refused)),
            Action::Failure(C8YRestError::HttpStatusError(code)) if code == refused
        ));
    }
}

#[test]
fn other_failures_are_surfaced_at_once() {
    let mut proxy = started_proxy("t", "id");
    assert_send(proxy.execute(None), "id", "t");
    assert!(matches!(
        proxy.handle(response(500)),
        Action::Failure(C8YRestError::HttpStatusError(500))
    ));
    assert_send(proxy.execute(None), "id", "t");
    assert!(matches!(
        proxy.handle(Event::NetworkError),
        Action::Failure(C8YRestError::HttpError)
    ));
    assert_send(proxy.execute(None), "id", "t");
    assert!(matches!(proxy.handle(response(401)), Action::FetchToken));
    assert!(matches!(
        proxy.handle(Event::Token(None)),
        Action::Failure(C8YRestError::JwtUnavailable)
    ));
    assert!(matches!(
        proxy.handle(response(200)),
        Action::Failure(C8YRestError::OutOfOrder)
    ));
    assert_send(proxy.execute(None), "id", "");
    assert!(matches!(
        proxy.handle(token("x")),
        Action::Failure(C8YRestError::OutOfOrder)
    ));
}

#[test]
fn start_is_tried_again_every_twenty_seconds_until_told_to_stop() {
    let mut proxy = C8YHttpProxy::new(C8Y_HOST, DEVICE_ID);
    assert!(matches!(proxy.init(), Action::FetchToken));
    assert!(matches!(
        proxy.handle(Event::Token(None)),
        Action::Wait { seconds: 20 }
    ));
    assert_eq!(proxy.phase, Phase::InitBackoff);
    assert!(matches!(proxy.handle(Event::TimerElapsed), Action::FetchToken));
    assert_id_request(proxy.handle(token("t")), DEVICE_ID, "t");
    assert!(matches!(
        proxy.handle(response(500)),
        Action::Wait { seconds: 20 }
    ));
    assert_id_request(proxy.handle(Event::TimerElapsed), DEVICE_ID, "t");
    assert!(matches!(
        proxy.handle(Event::NetworkError),
        Action::Wait { seconds: 20 }
    ));
    assert_id_request(proxy.handle(Event::TimerElapsed), DEVICE_ID, "t");
    assert!(matches!(
        proxy.handle(response(200)),
        Action::Wait { seconds: 20 }
    ));
    assert!(matches!(
        proxy.handle(Event::Shutdown),
        Action::Failure(C8YRestError::Interrupted)
    ));
    assert!(proxy.needs_init());
}

#[test]
fn addresses_of_the_cloud() {
    let proxy = started_proxy("t", "123");
    assert_eq!(
        proxy.get_url_for_get_id(None),
        "https://c8y.tenant.io/identity/externalIds/c8y_Serial/device-001"
    );
    assert_eq!(
        proxy.get_url_for_get_id(Some("child")),
        "https://c8y.tenant.io/identity/externalIds/c8y_Serial/child"
    );
    assert_eq!(
        proxy.get_url_for_sw_list(),
        "https://c8y.tenant.io/inventory/managedObjects/123"
    );
    assert_eq!(
        proxy.get_url_for_event_binary_upload("77"),
        "https://c8y.tenant.io/event/events/77/binaries"
    );
    assert!(proxy.url_is_in_my_tenant_domain("https://other.tenant.io/inventory/binaries/1"));
    assert!(proxy.url_is_in_my_tenant_domain("http://c8y.tenant.io:8080/x"));
    assert!(!proxy.url_is_in_my_tenant_domain("https://c8y.elsewhere.io/x"));
    assert!(!proxy.url_is_in_my_tenant_domain("not an address"));
    assert!(!proxy.url_is_in_my_tenant_domain("https://localhost/x"));
}

#[test]
fn internal_id_is_joined_to_the_address() {
    assert_eq!(
        update_url_with_new_internal_id(
            "456".into(),
            "https://c8y.tenant.io/inventory/managedObjects/123"
        )
        .unwrap(),
        "https://c8y.tenant.io/inventory/managedObjects/456"
    );
    assert_eq!(
        update_url_with_new_internal_id(
            "../../secret".into(),
            "https://c8y.tenant.io/inventory/managedObjects/123"
        )
        .unwrap(),
        "https://c8y.tenant.io/secret"
    );
    match update_url_with_new_internal_id("456".into(), "no address") {
        Err(C8YRestError::CustomError(reason)) => {
            assert!(reason.starts_with("failed to parse string to url due to: "))
        }
        other => panic!("unexpected result: {:?}", other),
    }
}

#[test]
fn events_and_answers() {
    let now = Timestamp {
        unix_nanos: 5,
        offset_seconds: 0,
    };
    let then = Timestamp {
        unix_nanos: 3,
        offset_seconds: 0,
    };
    let event = create_event_request("log".into(), None, None, "id-1".into(), now);
    assert_eq!(event.source.as_ref().unwrap().id, "id-1");
    assert_eq!(event.event_type, "log");
    assert_eq!(event.text, "log");
    assert_eq!(event.time, now);
    let event = create_event_request("log".into(), Some("text".into()), Some(then), "id-1".into(), now);
    assert_eq!(event.text, "text");
    assert_eq!(event.time, then);
    let moved = update_event_with_new_internal_id("id-2".into(), &event);
    assert_eq!(moved.source.unwrap().id, "id-2");
    assert_eq!(moved.event_type, "log");
    assert_eq!(moved.text, "text");
    assert_eq!(moved.time, then);

    let request = C8YRestRequestWithClientId(7, C8YRestRequest::GetJwtToken);
    let answer = request.respond(Ok(C8YRestResponse::Unit));
    assert_eq!(answer.0, 7);
    assert!(matches!(answer.1, Ok(C8YRestResponse::Unit)));

    let mut proxy = C8YHttpProxy::new(C8Y_HOST, DEVICE_ID);
    assert!(matches!(
        proxy.set_jwt_token(None),
        Err(C8YRestError::JwtUnavailable)
    ));
    assert_eq!(proxy.set_jwt_token(Some("t".into())).unwrap(), "t");
    assert_eq!(proxy.get_jwt_token(), Some("t"));
}

#[test]
fn answers_of_the_cloud_are_read() {
    assert_eq!(
        internal_id_of_response(
            br#"{"externalId":"device-001","managedObject":{"id":"12345","self":"x"},"type":"c8y_Serial"}"#
        ),
        Some("12345".to_string())
    );
    assert_eq!(internal_id_of_response(br#"{"managedObject":{"id":7}}"#), None);
    assert_eq!(internal_id_of_response(br#"{"managedObject":"12345"}"#), None);
    assert_eq!(internal_id_of_response(br#"{"id":"12345"}"#), None);
    assert_eq!(internal_id_of_response(b""), None);
    assert_eq!(
        event_id_of_response(br#"{"id":"456","type":"log"}"#),
        Some("456".to_string())
    );
    assert_eq!(event_id_of_response(br#"{"id":456}"#), None);
    assert_eq!(upload_result(201, "u".into()).unwrap(), "u");
    assert!(matches!(
        upload_result(500, "u".into()),
        Err(C8YRestError::CustomError(reason)) if reason == "Upload failed"
    ));
}

#[test]
fn requests_to_the_cloud() {
    let proxy = started_proxy("t", "123");
    let put = proxy
        .software_list_request("456".into(), "t", r#"{"c8y_SoftwareList":[]}"#)
        .unwrap();
    assert_eq!(put.method, HttpMethod::Put);
    assert_eq!(put.url, "https://c8y.tenant.io/inventory/managedObjects/456");
    assert_eq!(put.bearer, "t");
    assert_eq!(put.accept.as_deref(), Some("application/json"));
    assert_eq!(put.content_type.as_deref(), Some("application/json"));
    assert_eq!(put.body, br#"{"c8y_SoftwareList":[]}"#);

    let at = Timestamp {
        unix_nanos: 1_617_822_000_000_000_000,
        offset_seconds: 5 * 3600,
    };
    let event = create_event_request("c8y_Logfile".into(), None, Some(at), "old".into(), at);
    let post = proxy
        .create_event_http_request("123".into(), "t", &event)
        .unwrap();
    assert_eq!(post.method, HttpMethod::Post);
    assert_eq!(post.url, "https://c8y.tenant.io/event/events/");
    assert_eq!(
        String::from_utf8(post.body).unwrap(),
        r#"{"source":{"id":"123"},"type":"c8y_Logfile","time":"2021-04-08T00:00:00+05:00","text":"c8y_Logfile"}"#
    );
    let beyond = create_event_request(
        "x".into(),
        None,
        Some(Timestamp {
            unix_nanos: i128::MAX,
            offset_seconds: 0,
        }),
        "123".into(),
        at,
    );
    assert!(proxy
        .create_event_http_request("123".into(), "t", &beyond)
        .is_none());

    let upload = proxy.upload_binary_request("t", "77", "some log content");
    assert_eq!(upload.method, HttpMethod::Post);
    assert_eq!(upload.url, "https://c8y.tenant.io/event/events/77/binaries");
    assert_eq!(upload.content_type.as_deref(), Some("text/plain"));
    assert_eq!(upload.body, b"some log content");

    let get = C8YHttpProxy::get_id_request("https://c8y.tenant.io/x".into(), "t");
    assert_eq!(get.method, HttpMethod::Get);
    assert!(get.body.is_empty());
}

#[test]
fn a_first_fetch_of_the_internal_id_is_no_refresh() {
    for child in [None, Some("child".to_string())] {
        let name = child.clone().unwrap_or(DEVICE_ID.to_string());
        let mut proxy = C8YHttpProxy::new(C8Y_HOST, DEVICE_ID);
        proxy.token = Some("t".into());

        // nothing is held for the device: the identifier is asked for first
        assert_id_request(proxy.execute(child.clone()), &name, "t");
        assert_send(proxy.handle(id_response(200, "first")), "first", "t");
        // the first 404 leads to one more fetch and one more attempt
        assert_id_request(proxy.handle(response(404)), &name, "t");
        assert_send(proxy.handle(id_response(200, "second")), "second", "t");
        // the second 404 ends the call
        assert!(matches!(
            proxy.handle(response(404)),
            Action::Failure(C8YRestError::HttpStatusError(404))
        ));
        assert_eq!(proxy.phase, Phase::Idle);

        // a refused token after a first fetch is refreshed once as well
        assert_send(proxy.execute(child.clone()), "second", "t");
        assert!(matches!(proxy.handle(response(401)), Action::FetchToken));
        assert_send(proxy.handle(token("fresh")), "second", "fresh");
        assert!(matches!(
            proxy.handle(response(403)),
            Action::Failure(C8YRestError::HttpStatusError(403))
        ));
    }
}

#[test]
fn only_the_internal_id_of_the_target_is_replaced() {
    let mut proxy = started_proxy("JWT token", "main-id");
    assert_id_request(proxy.execute(Some("a".into())), "a", "JWT token");
    assert_send(proxy.handle(id_response(200, "a-1")), "a-1", "JWT token");
    assert!(matches!(proxy.handle(response(200)), Action::Success));
    assert_id_request(proxy.execute(Some("b".into())), "b", "JWT token");
    assert_send(proxy.handle(id_response(200, "b-1")), "b-1", "JWT token");
    assert_id_request(proxy.handle(response(404)), "b", "JWT token");
    assert_send(proxy.handle(id_response(200, "b-2")), "b-2", "JWT token");
    assert!(matches!(proxy.handle(response(204)), Action::Success));

    assert_eq!(proxy.get_c8y_internal_id(), "main-id");
    assert_send(proxy.execute(Some("a".into())), "a-1", "JWT token");
    assert!(matches!(proxy.handle(response(200)), Action::Success));
    assert_send(proxy.execute(Some("b".into())), "b-2", "JWT token");
    assert!(matches!(proxy.handle(response(200)), Action::Success));
}
