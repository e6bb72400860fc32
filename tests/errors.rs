use mochow_rust_sdk::error::SdkError;
use mochow_rust_sdk::mochow::api::common::{int_text, CommonResponse, ServiceError};
use mochow_rust_sdk::mochow::api::enums::ServerErrorCode;
use mochow_rust_sdk::mochow::client::{is_error_status, service_error};
use mochow_rust_sdk::mochow::json::JsonValue;

fn obj(es: Vec<(&str, JsonValue)>) -> JsonValue {
    JsonValue::Object(es.into_iter().map(|(k, v)| (k.to_string(), v)).collect())
}

#[test]
fn test_service_err() {
    let err = ServiceError {
        status_code: -1,
        request_id: "12234".to_string(),
        resp: CommonResponse {
            code: 123,
            msg: "test".to_string(),
        },
        server_code: ServerErrorCode::UNKNOWN,
    };
    println!("{}", err.to_string());
    assert_eq!(
        err.to_string(),
        "status_code: -1, request_id: 12234, msg: CommonResponse { code: 123, msg: \"test\" }, server_code: UNKNOWN"
    );
}

#[test]
fn service_error_already_exists() {
    let body = obj(vec![
        ("code", JsonValue::Int(51)),
        ("msg", JsonValue::Str("Database Already Exists".to_string())),
    ]);
    assert!(is_error_status(400));
    let e = service_error(400, Some("req-1".to_string()), Ok(body));
    assert_eq!(e.status_code, 400);
    assert_eq!(e.request_id, "req-1");
    assert_eq!(e.resp.code, 51);
    assert_eq!(e.resp.msg, "Database Already Exists");
    assert_eq!(e.server_code, ServerErrorCode::DB_ALREADY_EXIST);
}

#[test]
fn service_error_without_request_id() {
    let body = obj(vec![
        ("code", JsonValue::Int(69)),
        ("msg", JsonValue::Str("Table Not Exist".to_string())),
    ]);
    let e = service_error(404, None, Ok(body));
    assert_eq!(e.request_id, "");
    assert_eq!(e.server_code, ServerErrorCode::TABLE_NOT_EXIST);
}

#[test]
fn service_error_with_undecodable_body() {
    let e = service_error(500, None, Err("expected value at line 1".to_string()));
    assert_eq!(e.status_code, 500);
    assert_eq!(e.resp.code, -1);
    assert_eq!(
        e.resp.msg,
        "Service json error message decode failed: expected value at line 1"
    );
    assert_eq!(e.server_code, ServerErrorCode::UNKNOWN);
    let e = service_error(502, None, Ok(obj(vec![("code", JsonValue::Str("x".to_string()))])));
    assert_eq!(e.resp.code, -1);
    assert!(e.resp.msg.starts_with("Service json error message decode failed: "));
}

#[test]
fn error_statuses_are_4xx_and_5xx() {
    assert!(!is_error_status(200));
    assert!(!is_error_status(399));
    assert!(is_error_status(404));
    assert!(is_error_status(599));
    assert!(!is_error_status(600));
}

#[test]
fn server_codes_map_both_ways() {
    assert_eq!(ServerErrorCode::from(51), ServerErrorCode::DB_ALREADY_EXIST);
    assert_eq!(ServerErrorCode::from(101), ServerErrorCode::ROW_KEY_NOT_FOUND);
    assert_eq!(ServerErrorCode::from(1), ServerErrorCode::INTERNAL_ERROR);
    assert_eq!(ServerErrorCode::from(0), ServerErrorCode::UNKNOWN);
    assert_eq!(ServerErrorCode::from(999), ServerErrorCode::UNKNOWN);
    assert_eq!(ServerErrorCode::from(-1), ServerErrorCode::UNKNOWN);
    assert_eq!(ServerErrorCode::DB_ALREADY_EXIST.code(), Some(51));
    assert_eq!(ServerErrorCode::UNKNOWN.code(), None);
    assert_eq!(ServerErrorCode::DB_ALREADY_EXIST.name(), "DB_ALREADY_EXIST");
}

#[test]
fn common_response_decodes_and_prints() {
    let body = obj(vec![
        ("code", JsonValue::Int(0)),
        ("msg", JsonValue::Str("Success".to_string())),
        ("extra", JsonValue::Null),
    ]);
    let c = CommonResponse::from_json(&body).unwrap();
    assert_eq!(c.code, 0);
    assert_eq!(c.msg, "Success");
    assert_eq!(c.to_string(), "code: 0,  msg: Success");
    let too_big = obj(vec![
        ("code", JsonValue::Int(1 << 40)),
        ("msg", JsonValue::Str("x".to_string())),
    ]);
    assert!(CommonResponse::from_json(&too_big).is_none());
    assert!(CommonResponse::from_json(&JsonValue::Null).is_none());
}

#[test]
fn sdk_error_describes_itself() {
    let e = SdkError::ParamsError("bad".to_string());
    assert_eq!(e.to_string(), "params error: bad");
    let e = SdkError::OtherError("odd".to_string());
    assert_eq!(e.to_string(), "other error: odd. \ndetail odd");
    let e = SdkError::ServiceError(ServiceError {
        status_code: 400,
        request_id: String::new(),
        resp: CommonResponse { code: 51, msg: "Database Already Exists".to_string() },
        server_code: ServerErrorCode::DB_ALREADY_EXIST,
    });
    assert_eq!(
        e.to_string(),
        "service Error: status_code: 400, request_id: , msg: CommonResponse { code: 51, msg: \"Database Already Exists\" }, server_code: DB_ALREADY_EXIST"
    );
}

#[test]
fn debug_form_escapes_like_rust() {
    for msg in ["plain", "say \"hi\"", "back\\slash", "line\nbreak\ttab\r", "nul\0", "esc\u{1b}del\u{7f}", "unicode 三国"] {
        let c = CommonResponse { code: -7, msg: msg.to_string() };
        assert_eq!(c.debug_text(), format!("{:?}", c));
    }
}

#[test]
fn decimal_text_of_extremes() {
    for n in [0, 7, 10, 99, -1, -10, 123456, i32::MAX, i32::MIN] {
        assert_eq!(int_text(n), n.to_string());
    }
}
