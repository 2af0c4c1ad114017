use koharu_server::error::ApiError;
use koharu_server::handlers::StatusResponse;
use koharu_server::health::{health, DeviceResource, HealthResponse, ResourceSnapshot};
use koharu_server::json::{object_text, quote, Member};
use koharu_server::reply::{Reply, ReplyBody};
use koharu_server::text::decimal_text;
use koharu_server::{router, Endpoint, Method};
use serde_json::Value;

fn json_of(reply: &Reply) -> &str {
    match &reply.body {
        ReplyBody::Json(text) => text,
        _ => panic!("no JSON body"),
    }
}

#[test]
fn maps_variants_to_status_codes() {
    assert_eq!(ApiError::BadRequest("x".into()).status(), 400);
    assert_eq!(ApiError::Unprocessable("x".into()).status(), 422);
    assert_eq!(ApiError::QueueFull.status(), 503);
    assert_eq!(ApiError::internal("boom".into()).status(), 500);
}

#[test]
fn response_body_carries_short_message() {
    let response = ApiError::QueueFull.into_response();
    assert_eq!(response.status, 503);
    assert_eq!(json_of(&response).as_bytes(), br#"{"error":"queue full"}"#);
    assert_eq!(response.content_type(), Some("application/json"));
}

#[test]
fn internal_detail_goes_to_the_log_only() {
    let response = ApiError::internal("disk on fire".into()).into_response();
    assert_eq!(response.status, 500);
    assert_eq!(json_of(&response), r#"{"error":"internal error"}"#);
    assert_eq!(response.log.as_deref(), Some("disk on fire"));
    let other = ApiError::internal("out of memory".into()).into_response();
    assert_eq!(json_of(&other), json_of(&response));
}

#[test]
fn other_errors_are_not_logged() {
    for error in [
        ApiError::BadRequest("a".into()),
        ApiError::Unprocessable("b".into()),
        ApiError::QueueFull,
    ] {
        assert!(error.into_response().log.is_none());
    }
}

#[test]
fn messages_carry_the_reason() {
    assert_eq!(ApiError::BadRequest("no image".into()).message(), "bad request: no image");
    assert_eq!(ApiError::Unprocessable("x: y".into()).message(), "unprocessable: x: y");
    let response = ApiError::BadRequest("\"quoted\"\n".into()).into_response();
    assert_eq!(json_of(&response), "{\"error\":\"bad request: \\\"quoted\\\"\\n\"}");
}

#[test]
fn health_response_serializes_null_device_fields_on_cpu() {
    let text = HealthResponse {
        status: "ok",
        device: None,
        vram_used_bytes: None,
        vram_total_bytes: None,
    }
    .to_json();
    let value: Value = serde_json::from_str(&text).unwrap();
    let mut expected = serde_json::Map::new();
    expected.insert("status".to_string(), Value::from("ok"));
    expected.insert("device".to_string(), Value::Null);
    expected.insert("vram_used_bytes".to_string(), Value::Null);
    expected.insert("vram_total_bytes".to_string(), Value::Null);
    assert_eq!(value, Value::Object(expected));
}

fn device(name: &str, selected: bool, used: Option<u64>) -> DeviceResource {
    DeviceResource {
        name: name.to_string(),
        selected,
        memory_used_bytes: used,
        memory_budget_bytes: Some(u64::MAX),
    }
}

#[test]
fn health_reports_the_first_selected_device() {
    let report = health(&ResourceSnapshot {
        devices: vec![
            device("integrated", false, Some(1)),
            device("first \"gpu\"", true, Some(20)),
            device("second", true, Some(300)),
        ],
    });
    assert_eq!(
        report.to_json(),
        "{\"status\":\"ok\",\"device\":\"first \\\"gpu\\\"\",\"vram_used_bytes\":20,\
         \"vram_total_bytes\":18446744073709551615}"
    );
}

#[test]
fn health_without_selection_reports_nulls() {
    let report = health(&ResourceSnapshot { devices: vec![device("idle", false, None)] });
    assert!(report.device.is_none());
    let reply = health(&ResourceSnapshot { devices: vec![] }).into_response();
    assert_eq!(reply.status, 200);
    assert_eq!(reply.content_type(), Some("application/json"));
    assert_eq!(
        json_of(&reply),
        r#"{"status":"ok","device":null,"vram_used_bytes":null,"vram_total_bytes":null}"#
    );
}

#[test]
fn status_is_reported_as_json() {
    assert_eq!(StatusResponse { status: "ok" }.to_json(), r#"{"status":"ok"}"#);
}

#[test]
fn literals_are_escaped() {
    assert_eq!(quote(""), "\"\"");
    assert_eq!(quote("plain text"), "\"plain text\"");
    assert_eq!(quote("a\"b\\c/d"), "\"a\\\"b\\\\c/d\"");
    assert_eq!(quote("\u{8}\t\n\u{c}\r"), "\"\\b\\t\\n\\f\\r\"");
    assert_eq!(quote("\u{0}\u{1f}\u{7f}"), "\"\\u0000\\u001f\u{7f}\"");
    assert_eq!(quote("漫画 \u{1f5fe}"), "\"漫画 \u{1f5fe}\"");
}

#[test]
fn every_control_character_reads_back() {
    for code in 0u32..0x100 {
        let text = char::from_u32(code).unwrap().to_string();
        let value: Value = serde_json::from_str(&quote(&text)).unwrap();
        assert_eq!(value, Value::from(text.as_str()));
    }
}

#[test]
fn objects_keep_the_order_of_their_members() {
    assert_eq!(object_text(&vec![]), "{}");
    let list = vec![
        Member { key: "b", value: "1".to_string() },
        Member { key: "a", value: "null".to_string() },
        Member { key: "c", value: quote("x") },
    ];
    assert_eq!(object_text(&list), r#"{"b":1,"a":null,"c":"x"}"#);
}

#[test]
fn numerals_have_no_leading_zeros() {
    assert_eq!(decimal_text(0), "0");
    assert_eq!(decimal_text(10), "10");
    assert_eq!(decimal_text(9876543210), "9876543210");
    assert_eq!(decimal_text(u64::MAX), "18446744073709551615");
}

#[test]
fn empty_answers_have_no_media_type() {
    let gone = Reply::no_content();
    assert_eq!(gone.status, 204);
    assert!(matches!(gone.body, ReplyBody::Empty));
    assert_eq!(gone.content_type(), None);
    assert_eq!(Reply::ok(ReplyBody::Png(vec![1])).content_type(), Some("image/png"));
}

#[test]
fn every_endpoint_has_its_route() {
    let routes = router();
    let found: Vec<(&str, Method)> =
        routes.iter().map(|route| (route.path, route.method)).collect();
    let expected = [
        ("/translate", Method::Post),
        ("/translate-path", Method::Post),
        ("/health", Method::Get),
    ];
    assert!(found == expected);
    assert!(routes[0].endpoint == Endpoint::Translate);
    assert!(routes[1].endpoint == Endpoint::TranslatePath);
    assert!(routes[2].endpoint == Endpoint::Health);
}
