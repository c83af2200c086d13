use modbus_client::engine::EngineError;
use modbus_client::json::JsonValue;
use modbus_client::rpc::code::{INTERNAL_ERROR, INVALID_PARAMS, METHOD_NOT_FOUND, PARSE_ERROR};
use modbus_client::types::{ConnectionId, TransportError};
use modbus_client::ws::{
    close_result, create_result, dispatch, engine_err_to_rpc, invalid_params, read_result, respond, Call,
    Step,
};

fn document(raw: &str) -> Option<JsonValue> {
    serde_json::from_str::<serde_json::Value>(raw).ok().map(convert)
}

fn convert(v: serde_json::Value) -> JsonValue {
    match v {
        serde_json::Value::Null => JsonValue::Null,
        serde_json::Value::Bool(b) => JsonValue::Bool(b),
        serde_json::Value::Number(n) => match n.as_i64() {
            Some(i) => JsonValue::Int(i as i128),
            None => JsonValue::Float(n.to_string()),
        },
        serde_json::Value::String(s) => JsonValue::Str(s),
        serde_json::Value::Array(a) => JsonValue::Array(a.into_iter().map(convert).collect()),
        serde_json::Value::Object(m) => {
            JsonValue::Object(m.into_iter().map(|(k, v)| (k, convert(v))).collect())
        }
    }
}

fn s(t: &str) -> JsonValue {
    JsonValue::Str(t.to_string())
}

fn reply_code(step: &Step) -> Option<&JsonValue> {
    match step {
        Step::Reply(v) => v.member("error").and_then(|e| e.member("code")),
        _ => None,
    }
}

#[test]
fn unknown_method_with_id_is_answered_method_not_found() {
    let step = dispatch(document(r#"{"jsonrpc":"2.0","id":1,"method":"bogus.method","params":{}}"#));
    match &step {
        Step::Reply(v) => {
            assert_eq!(v.member("id"), Some(&JsonValue::Int(1)));
            assert_eq!(reply_code(&step), Some(&JsonValue::Int(-32601)));
            assert_eq!(
                v.member("error").unwrap().member("message"),
                Some(&s("method not found"))
            );
        }
        other => panic!("unexpected {other:?}"),
    }
}

#[test]
fn notifications_get_no_answer() {
    let step = dispatch(document(r#"{"jsonrpc":"2.0","method":"connection.list"}"#));
    assert!(matches!(step, Step::Silent));
    let step = dispatch(document(r#"{"jsonrpc":"2.0","method":"bogus.method"}"#));
    assert!(matches!(step, Step::Silent));
}

#[test]
fn malformed_messages_are_answered_at_once() {
    let step = dispatch(document("{not json"));
    assert_eq!(reply_code(&step), Some(&JsonValue::Int(PARSE_ERROR as i128)));
    match step {
        Step::Reply(v) => assert_eq!(v.member("id"), Some(&JsonValue::Null)),
        other => panic!("unexpected {other:?}"),
    }
}

#[test]
fn known_methods_become_calls_with_their_params() {
    let step = dispatch(document(
        r#"{"jsonrpc":"2.0","id":1,"method":"connection.create","params":{"name":"demo"}}"#,
    ));
    match step {
        Step::Perform(id, Call::Create(p)) => {
            assert_eq!(id, JsonValue::Int(1));
            assert_eq!(p.member("name"), Some(&s("demo")));
        }
        other => panic!("unexpected {other:?}"),
    }
    let step = dispatch(document(r#"{"jsonrpc":"2.0","id":2,"method":"connection.list","params":{}}"#));
    assert!(matches!(step, Step::Perform(JsonValue::Int(2), Call::List)));
    let step = dispatch(document(r#"{"jsonrpc":"2.0","id":3,"method":"connection.close","params":{"connection":"c1"}}"#));
    match step {
        Step::Perform(_, Call::Close(p)) => assert_eq!(p.member("connection"), Some(&s("c1"))),
        other => panic!("unexpected {other:?}"),
    }
    let step = dispatch(document(r#"{"jsonrpc":"2.0","id":"r","method":"read.holdingRegisters","params":{"slave":247}}"#));
    match step {
        Step::Perform(id, Call::ReadHoldingRegisters(p)) => {
            assert_eq!(id, s("r"));
            assert_eq!(p.member("slave"), Some(&JsonValue::Int(247)));
        }
        other => panic!("unexpected {other:?}"),
    }
}

#[test]
fn outcomes_are_answered_under_the_request_id() {
    let ok = respond(JsonValue::Int(4), Ok(JsonValue::Null));
    assert_eq!(ok.member("id"), Some(&JsonValue::Int(4)));
    assert_eq!(ok.member("result"), Some(&JsonValue::Null));
    assert!(ok.member("error").is_none());
    let err = respond(JsonValue::Int(5), Err((INVALID_PARAMS, "nope".to_string())));
    assert_eq!(err.member("id"), Some(&JsonValue::Int(5)));
    assert!(err.member("result").is_none());
    let e = err.member("error").unwrap();
    assert_eq!(e.member("code"), Some(&JsonValue::Int(-32602)));
    assert_eq!(e.member("message"), Some(&s("nope")));
    assert!(e.member("data").is_none());
}

#[test]
fn engine_errors_map_to_rpc_codes() {
    let (c, m) = engine_err_to_rpc(EngineError::NotFound("c9".to_string()));
    assert_eq!(c, INVALID_PARAMS);
    assert_eq!(m, "connection not found: c9");
    let (c, m) = engine_err_to_rpc(EngineError::Transport(TransportError::Protocol("x".to_string())));
    assert_eq!(c, INTERNAL_ERROR);
    assert_eq!(m, "transport error: protocol error: x");
    assert_eq!(invalid_params("missing field `name`".to_string()), (INVALID_PARAMS, "missing field `name`".to_string()));
    assert_eq!(METHOD_NOT_FOUND, -32601);
}

#[test]
fn call_outcomes_become_results() {
    assert_eq!(create_result(Ok(ConnectionId::new("c1".to_string()))), Ok(s("c1")));
    assert_eq!(close_result(Ok(())), Ok(JsonValue::Null));
    assert_eq!(
        read_result(Ok(vec![0x1111, 0x2222])),
        Ok(JsonValue::Array(vec![JsonValue::Int(0x1111), JsonValue::Int(0x2222)]))
    );
    assert_eq!(
        read_result(Err(EngineError::NotFound("c1".to_string()))),
        Err((INVALID_PARAMS, "connection not found: c1".to_string()))
    );
    assert_eq!(
        close_result(Err(EngineError::NotFound("c2".to_string()))),
        Err((INVALID_PARAMS, "connection not found: c2".to_string()))
    );
    assert_eq!(
        create_result(Err(EngineError::Transport(TransportError::Io("refused".to_string())))),
        Err((INTERNAL_ERROR, "transport error: I/O error: refused".to_string()))
    );
}
