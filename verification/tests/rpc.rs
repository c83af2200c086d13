use modbus_client::json::JsonValue;
use modbus_client::rpc::code::{INVALID_PARAMS, INVALID_REQUEST, METHOD_NOT_FOUND, PARSE_ERROR};
use modbus_client::rpc::{error, is_known_method, parse, success, validate_method, ErrorObject, VERSION};

/// The JSON document that `raw` holds, or `None` where it is not JSON.
fn doc(raw: &str) -> Option<JsonValue> {
    serde_json::from_str::<serde_json::Value>(raw).ok().map(to_json)
}

fn to_json(v: serde_json::Value) -> JsonValue {
    match v {
        serde_json::Value::Null => JsonValue::Null,
        serde_json::Value::Bool(b) => JsonValue::Bool(b),
        serde_json::Value::Number(n) => {
            if let Some(i) = n.as_i64() {
                JsonValue::Int(i as i128)
            } else if let Some(u) = n.as_u64() {
                JsonValue::Int(u as i128)
            } else {
                JsonValue::Float(n.to_string())
            }
        }
        serde_json::Value::String(s) => JsonValue::Str(s),
        serde_json::Value::Array(a) => JsonValue::Array(a.into_iter().map(to_json).collect()),
        serde_json::Value::Object(m) => {
            JsonValue::Object(m.into_iter().map(|(k, v)| (k, to_json(v))).collect())
        }
    }
}

fn text(s: &str) -> JsonValue {
    JsonValue::Str(s.to_string())
}

#[test]
fn parses_a_valid_request() {
    let raw = r#"{"jsonrpc":"2.0","id":1,"method":"connection.create","params":{"name":"x"}}"#;
    let r = parse(doc(raw)).unwrap();
    assert_eq!(r.method, "connection.create");
    assert_eq!(r.id, Some(JsonValue::Int(1)));
    assert_eq!(r.params.member("name"), Some(&text("x")));
}

#[test]
fn treats_absent_id_as_notification() {
    let raw = r#"{"jsonrpc":"2.0","method":"connection.list"}"#;
    let r = parse(doc(raw)).unwrap();
    assert!(r.id.is_none());
}

#[test]
fn success_response_envelope_correlates_id_and_omits_error() {
    let result = JsonValue::Object(vec![("id".to_string(), text("c1"))]);
    let resp = success(Some(JsonValue::Int(7)), result);
    assert_eq!(resp.member("jsonrpc"), Some(&text("2.0")));
    assert_eq!(resp.member("id"), Some(&JsonValue::Int(7)));
    assert_eq!(resp.member("result").unwrap().member("id"), Some(&text("c1")));
    assert!(resp.member("error").is_none());
}

#[test]
fn error_response_carries_code_message_and_optional_data() {
    let resp = error(
        Some(JsonValue::Int(1)),
        INVALID_PARAMS,
        "bad params".to_string(),
        Some(JsonValue::Int(42)),
    );
    assert_eq!(resp.member("jsonrpc"), Some(&text("2.0")));
    assert_eq!(resp.member("id"), Some(&JsonValue::Int(1)));
    let err = resp.member("error").unwrap();
    assert_eq!(err.member("code"), Some(&JsonValue::Int(-32602)));
    assert_eq!(err.member("message"), Some(&text("bad params")));
    assert_eq!(err.member("data"), Some(&JsonValue::Int(42)));
}

#[test]
fn known_methods_are_dispatchable() {
    for m in [
        "connection.create",
        "connection.list",
        "connection.close",
        "read.holdingRegisters",
    ] {
        assert!(is_known_method(m), "{m:?} should be known");
        assert!(validate_method(m).is_ok());
    }
}

#[test]
fn unknown_method_maps_to_method_not_found() {
    assert_eq!(validate_method("bogus.method"), Err(METHOD_NOT_FOUND));
}

#[test]
fn bad_json_is_a_parse_error() {
    let (_, c, _) = parse(doc("{not json")).unwrap_err();
    assert_eq!(c, PARSE_ERROR);
}

#[test]
fn missing_method_is_an_invalid_request() {
    let (_, c, _) = parse(doc(r#"{"jsonrpc":"2.0","id":1}"#)).unwrap_err();
    assert_eq!(c, INVALID_REQUEST);
}

#[test]
fn wrong_version_is_an_invalid_request() {
    let raw = r#"{"jsonrpc":"1.0","id":1,"method":"x"}"#;
    let (_, c, _) = parse(doc(raw)).unwrap_err();
    assert_eq!(c, INVALID_REQUEST);
}

#[test]
fn parse_errors_have_exact_ids_and_messages() {
    let (id, c, m) = parse(doc("[1, 2]")).unwrap_err();
    assert_eq!((id, c, m.as_str()), (None, INVALID_REQUEST, "Invalid Request"));
    let (id, _, m) = parse(doc("{not json")).unwrap_err();
    assert_eq!((id, m.as_str()), (None, "Parse error"));
    // A method that is not a string keeps the id of the request.
    let (id, c, _) = parse(doc(r#"{"jsonrpc":"2.0","id":"a","method":3}"#)).unwrap_err();
    assert_eq!((id, c), (Some(text("a")), INVALID_REQUEST));
    // The version must be the string "2.0", not the number.
    let (id, c, _) = parse(doc(r#"{"jsonrpc":2.0,"id":5,"method":"x"}"#)).unwrap_err();
    assert_eq!((id, c), (None, INVALID_REQUEST));
}

#[test]
fn absent_params_read_as_null_and_id_may_be_null() {
    let r = parse(doc(r#"{"jsonrpc":"2.0","id":null,"method":"connection.list"}"#)).unwrap();
    assert_eq!(r.id, Some(JsonValue::Null));
    assert_eq!(r.params, JsonValue::Null);
    assert_eq!(VERSION, "2.0");
}

#[test]
fn error_without_data_has_no_data_member() {
    let resp = error(None, INVALID_REQUEST, "Invalid Request".to_string(), None);
    assert_eq!(resp.member("id"), Some(&JsonValue::Null));
    let err = resp.member("error").unwrap();
    assert!(err.member("data").is_none());
    assert_eq!(err.member("code"), Some(&JsonValue::Int(-32600)));
    let obj = ErrorObject { code: 7, message: "m".to_string(), data: None }.to_json();
    assert_eq!(obj, JsonValue::Object(vec![("code".to_string(), JsonValue::Int(7)), ("message".to_string(), text("m"))]));
}

#[test]
fn success_without_id_carries_null_id() {
    let resp = success(None, JsonValue::Bool(true));
    assert_eq!(resp.member("id"), Some(&JsonValue::Null));
    assert_eq!(resp.member("result"), Some(&JsonValue::Bool(true)));
}

#[test]
fn later_member_shadows_earlier_one() {
    let v = JsonValue::Object(vec![
        ("k".to_string(), JsonValue::Int(1)),
        ("k".to_string(), JsonValue::Int(2)),
    ]);
    assert_eq!(v.member("k"), Some(&JsonValue::Int(2)));
    assert_eq!(v.member("other"), None);
    assert_eq!(JsonValue::Int(3).member("k"), None);
    assert_eq!(v.copy(), v);
}
