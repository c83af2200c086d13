//! The JSON-RPC method dispatcher: what each incoming message asks for, and
//! the response that each outcome is answered with.
//!
//! One message is handled in steps: `dispatch` reads it and decides whether to
//! answer at once, stay silent (a notification), or perform a call on the
//! connection registry; `respond` turns the call's outcome into the response.
use vstd::prelude::*;
use crate::engine::{engine_message, EngineError};
use crate::json::{json_string, opt_model, Json, JsonValue};
use crate::types::ConnectionId;
use crate::rpc::code::{INTERNAL_ERROR, INVALID_PARAMS, METHOD_NOT_FOUND};
use crate::rpc::{
    error, error_envelope, error_object, framing, known_method, law_error_envelope, law_success_envelope, parse,
    success, success_envelope, Framing, VERSION,
};
use crate::text::same_text;

verus! {

/// The error of parameters that do not fit the method, with the reason given.
pub fn invalid_params(message: String) -> (r: (i32, String))
    ensures
        r.0 == INVALID_PARAMS,
        r.1@ == message@,
{
    (INVALID_PARAMS, message)
}

/// The code of the error that answers an engine error.
pub open spec fn engine_error_code(e: EngineError) -> i32 {
    match e {
        EngineError::NotFound(_) => INVALID_PARAMS,
        EngineError::Transport(_) => INTERNAL_ERROR,
    }
}

/// The `(code, message)` of the error that answers an engine error: an
/// unknown connection is the caller's mistake, a transport failure the server's.
pub fn engine_err_to_rpc(e: EngineError) -> (r: (i32, String))
    ensures
        r.0 == engine_error_code(e),
        r.1@ == engine_message(e),
{
    let message = e.message();
    match e {
        EngineError::NotFound(_) => (INVALID_PARAMS, message),
        EngineError::Transport(_) => (INTERNAL_ERROR, message),
    }
}

/// A call on the connection registry, with its parameters.
#[derive(Debug)]
pub enum Call {
    Create(JsonValue),
    List,
    Close(JsonValue),
    ReadHoldingRegisters(JsonValue),
}

/// What to do with one message.
#[derive(Debug)]
pub enum Step {
    /// Send this response.
    Reply(JsonValue),
    /// Send nothing: the message is a notification.
    Silent,
    /// Perform the call, then answer the request with this id.
    Perform(JsonValue, Call),
}

/// The model of a call.
pub enum CallModel {
    Create(Json),
    List,
    Close(Json),
    ReadHoldingRegisters(Json),
}

/// The model of a step.
pub enum StepModel {
    Reply(Json),
    Silent,
    Perform(Json, CallModel),
}

pub open spec fn call_model(c: Call) -> CallModel {
    match c {
        Call::Create(p) => CallModel::Create(p@),
        Call::List => CallModel::List,
        Call::Close(p) => CallModel::Close(p@),
        Call::ReadHoldingRegisters(p) => CallModel::ReadHoldingRegisters(p@),
    }
}

pub open spec fn step_model(s: Step) -> StepModel {
    match s {
        Step::Reply(v) => StepModel::Reply(v@),
        Step::Silent => StepModel::Silent,
        Step::Perform(id, c) => StepModel::Perform(id@, call_model(c)),
    }
}

/// The call that `method` names, if it is one this server dispatches.
pub open spec fn routed_call(method: Seq<char>, params: Json) -> Option<CallModel> {
    if method == "connection.create"@ {
        Some(CallModel::Create(params))
    } else if method == "connection.list"@ {
        Some(CallModel::List)
    } else if method == "connection.close"@ {
        Some(CallModel::Close(params))
    } else if method == "read.holdingRegisters"@ {
        Some(CallModel::ReadHoldingRegisters(params))
    } else {
        None
    }
}

/// What a message with JSON document `doc` (`None` where it is not JSON) asks for.
pub open spec fn dispatch_step(doc: Option<Json>) -> StepModel {
    match framing(doc) {
        Framing::Rejected { id, code, message } => StepModel::Reply(
            error_envelope(id, code, message, None),
        ),
        Framing::Request { id, method, params } => match id {
            None => StepModel::Silent,
            Some(i) => match routed_call(method, params) {
                Some(c) => StepModel::Perform(i, c),
                None => StepModel::Reply(
                    error_envelope(Some(i), METHOD_NOT_FOUND, "method not found"@, None),
                ),
            },
        },
    }
}

/// Reads one message and decides what to do with it. `doc` is the JSON
/// document that the message holds, or `None` where it is not JSON.
pub fn dispatch(doc: Option<JsonValue>) -> (r: Step)
    ensures
        step_model(r) == dispatch_step(opt_model(doc)),
{
    let parsed = match parse(doc) {
        Ok(p) => p,
        Err((id, code, msg)) => {
            return Step::Reply(error(id, code, msg, None));
        },
    };
    let id = match parsed.id {
        Some(id) => id,
        None => {
            return Step::Silent;
        },
    };
    let method = parsed.method.as_str();
    if same_text(method, "connection.create") {
        Step::Perform(id, Call::Create(parsed.params))
    } else if same_text(method, "connection.list") {
        Step::Perform(id, Call::List)
    } else if same_text(method, "connection.close") {
        Step::Perform(id, Call::Close(parsed.params))
    } else if same_text(method, "read.holdingRegisters") {
        Step::Perform(id, Call::ReadHoldingRegisters(parsed.params))
    } else {
        Step::Reply(error(Some(id), METHOD_NOT_FOUND, String::from_str("method not found"), None))
    }
}

/// The response envelope for the outcome of a performed call.
pub open spec fn response_for(id: Json, result: Result<Json, (i32, Seq<char>)>) -> Json {
    match result {
        Ok(v) => success_envelope(Some(id), v),
        Err((code, message)) => error_envelope(Some(id), code, message, None),
    }
}

/// The model of a call's outcome.
pub open spec fn outcome_model(result: Result<JsonValue, (i32, String)>) -> Result<
    Json,
    (i32, Seq<char>),
> {
    match result {
        Ok(v) => Ok(v@),
        Err((code, message)) => Err((code, message@)),
    }
}

/// Answers the request `id` with the outcome of its call.
pub fn respond(id: JsonValue, result: Result<JsonValue, (i32, String)>) -> (r: JsonValue)
    ensures
        r@ == response_for(id@, outcome_model(result)),
{
    match result {
        Ok(value) => success(Some(id), value),
        Err((code, msg)) => error(Some(id), code, msg, None),
    }
}

/// A notification (a request without an id) is never answered, whatever its method.
pub proof fn law_notification_is_silent(doc: Option<Json>)
    requires
        framing(doc) matches Framing::Request { id: None, .. },
    ensures
        dispatch_step(doc) == StepModel::Silent,
{
}

/// A request with an id is performed exactly when its method is one that
/// the server dispatches, and the call keeps the request's id; any other
/// method is answered with a method-not-found error that carries the id.
pub proof fn law_dispatch_known_methods(doc: Option<Json>, i: Json, method: Seq<char>, params: Json)
    requires
        framing(doc) == (Framing::Request { id: Some(i), method, params }),
    ensures
        (dispatch_step(doc) is Perform) <==> known_method(method),
        dispatch_step(doc) matches StepModel::Perform(j, _) ==> j == i,
        !known_method(method) ==> dispatch_step(doc) == StepModel::Reply(
            error_envelope(Some(i), METHOD_NOT_FOUND, "method not found"@, None),
        ),
{
}

/// The response to a performed call carries the request's id and the
/// protocol version; a success holds the call's value itself as its result
/// and no error, a failure holds the error object with the call's code and
/// message, no data, and no result.
pub proof fn law_response_correlates(id: Json, result: Result<Json, (i32, Seq<char>)>)
    ensures
        response_for(id, result).get("id"@) == Some(id),
        response_for(id, result).get("jsonrpc"@) == Some(Json::Str(VERSION@)),
        (response_for(id, result).get("result"@) is Some) <==> (result is Ok),
        (response_for(id, result).get("error"@) is Some) <==> (result is Err),
        result matches Ok(v) ==> response_for(id, result).get("result"@) == Some(v),
        result matches Err((c, m)) ==> response_for(id, result).get("error"@) == Some(
            error_object(c, m, None),
        ),
        result matches Err((c, m)) ==> error_object(c, m, None).get("code"@) == Some(
            Json::Int(c as int),
        ) && error_object(c, m, None).get("message"@) == Some(Json::Str(m)) && error_object(
            c,
            m,
            None,
        ).get("data"@) is None,
{
    match result {
        Ok(v) => law_success_envelope(Some(id), v),
        Err((code, message)) => law_error_envelope(Some(id), code, message, None),
    }
}

/// Whether `f` is a request, with an id, for a method that the server does not dispatch.
pub open spec fn asks_unknown_method(f: Framing) -> bool {
    match f {
        Framing::Request { id: Some(_), method, .. } => !known_method(method),
        _ => false,
    }
}

/// Every message that cannot be read as a request is answered at once, with
/// the error that reading it gave; the server stays silent only on
/// notifications, and answers with an error only a rejected message or a
/// request for an unknown method.
pub proof fn law_malformed_messages_are_answered(doc: Option<Json>)
    ensures
        framing(doc) matches Framing::Rejected { id, code, message } ==> dispatch_step(doc)
            == StepModel::Reply(error_envelope(id, code, message, None)),
        dispatch_step(doc) is Silent ==> framing(doc) matches Framing::Request { id: None, .. },
        dispatch_step(doc) is Reply ==> (framing(doc) is Rejected || asks_unknown_method(
            framing(doc),
        )),
{
}

proof fn lemma_method_names_distinct()
    ensures
        "connection.create"@ != "connection.list"@,
        "connection.create"@ != "connection.close"@,
        "connection.create"@ != "read.holdingRegisters"@,
        "connection.list"@ != "connection.close"@,
        "connection.list"@ != "read.holdingRegisters"@,
        "connection.close"@ != "read.holdingRegisters"@,
{
    reveal_strlit("connection.create");
    reveal_strlit("connection.list");
    reveal_strlit("connection.close");
    reveal_strlit("read.holdingRegisters");
    assert("connection.create"@.len() == 17);
    assert("connection.list"@.len() == 15);
    assert("connection.close"@.len() == 16);
    assert("read.holdingRegisters"@.len() == 21);
}

/// Each known method is performed as its own call, under the request's id and
/// with the request's parameters: `connection.create` creates,
/// `connection.list` lists, `connection.close` closes and
/// `read.holdingRegisters` reads.
pub proof fn law_dispatch_routes_methods(doc: Option<Json>, i: Json, method: Seq<char>, params: Json)
    requires
        framing(doc) == (Framing::Request { id: Some(i), method, params }),
    ensures
        method == "connection.create"@ ==> dispatch_step(doc) == StepModel::Perform(
            i,
            CallModel::Create(params),
        ),
        method == "connection.list"@ ==> dispatch_step(doc) == StepModel::Perform(i, CallModel::List),
        method == "connection.close"@ ==> dispatch_step(doc) == StepModel::Perform(
            i,
            CallModel::Close(params),
        ),
        method == "read.holdingRegisters"@ ==> dispatch_step(doc) == StepModel::Perform(
            i,
            CallModel::ReadHoldingRegisters(params),
        ),
{
    lemma_method_names_distinct();
}

/// Whether a call's outcome is one the registry calls give: a value, or the
/// error of invalid parameters or of a failure inside the server.
pub open spec fn handler_outcome(result: Result<Json, (i32, Seq<char>)>) -> bool {
    match result {
        Ok(_) => true,
        Err((code, _)) => code == INVALID_PARAMS || code == INTERNAL_ERROR,
    }
}

/// The outcome that answers a registry error.
pub open spec fn engine_failure(e: EngineError) -> Result<Json, (i32, Seq<char>)> {
    Err((engine_error_code(e), engine_message(e)))
}

/// The outcome of `connection.create`: the new connection's id, as a string.
pub fn create_result(r: Result<ConnectionId, EngineError>) -> (o: Result<JsonValue, (i32, String)>)
    ensures
        outcome_model(o) == (match r {
            Ok(id) => Ok(Json::Str(id.0@)),
            Err(e) => engine_failure(e),
        }),
        handler_outcome(outcome_model(o)),
{
    match r {
        Ok(id) => Ok(json_string(id.0)),
        Err(e) => Err(engine_err_to_rpc(e)),
    }
}

/// The outcome of `connection.close`: `null`.
pub fn close_result(r: Result<(), EngineError>) -> (o: Result<JsonValue, (i32, String)>)
    ensures
        outcome_model(o) == (match r {
            Ok(_) => Ok(Json::Null),
            Err(e) => engine_failure(e),
        }),
        handler_outcome(outcome_model(o)),
{
    match r {
        Ok(()) => Ok(JsonValue::Null),
        Err(e) => Err(engine_err_to_rpc(e)),
    }
}

/// The JSON array of register values.
pub open spec fn registers_json(values: Seq<u16>) -> Json {
    Json::Array(Seq::new(values.len(), |i: int| Json::Int(values[i] as int)))
}

/// The outcome of `read.holdingRegisters`: the values read, as an array of numbers.
pub fn read_result(r: Result<Vec<u16>, EngineError>) -> (o: Result<JsonValue, (i32, String)>)
    ensures
        outcome_model(o) == (match r {
            Ok(values) => Ok(registers_json(values@)),
            Err(e) => engine_failure(e),
        }),
        handler_outcome(outcome_model(o)),
{
    match r {
        Ok(values) => {
            let mut items: Vec<JsonValue> = Vec::new();
            let mut i: usize = 0;
            while i < values.len()
                invariant
                    i <= values@.len(),
                    items@.len() == i,
                    forall|j: int| 0 <= j < i ==> (#[trigger] items@[j])@ == Json::Int(values@[j] as int),
                decreases values@.len() - i,
            {
                items.push(JsonValue::Int(values[i] as i128));
                i = i + 1;
            }
            let v = JsonValue::Array(items);
            proof {
                assert(v@->Array_0 =~= registers_json(values@)->Array_0);
            }
            Ok(v)
        },
        Err(e) => Err(engine_err_to_rpc(e)),
    }
}

/// The calls performed for known methods are never answered with
/// method-not-found: their errors are invalid parameters or internal errors,
/// and the response carries that code. With `law_dispatch_known_methods`,
/// -32601 answers exactly the requests whose method is unknown.
pub proof fn law_handled_calls_never_method_not_found(id: Json, result: Result<Json, (i32, Seq<char>)>)
    requires
        handler_outcome(result),
    ensures
        match response_for(id, result).get("error"@) {
            Some(e) => e.get("code"@) != Some(Json::Int(METHOD_NOT_FOUND as int)),
            None => true,
        },
{
    match result {
        Ok(v) => law_success_envelope(Some(id), v),
        Err((code, message)) => law_error_envelope(Some(id), code, message, None),
    }
}

/// The values read are answered in full: an array with one number per
/// register, in order, each the register's whole unsigned 16-bit value.
pub proof fn law_registers_answered_in_full(values: Seq<u16>)
    ensures
        registers_json(values) is Array,
        registers_json(values)->Array_0.len() == values.len(),
        forall|i: int|
            0 <= i < values.len() ==> registers_json(values)->Array_0[i] == Json::Int(
                values[i] as int,
            ),
{
}

/// An unknown connection is the caller's mistake, answered with invalid
/// parameters (-32602); every transport failure, whatever its kind, is a
/// failure inside the server, answered with an internal error (-32603). The
/// message is the error's own text.
pub proof fn law_engine_error_codes(e: EngineError)
    ensures
        (engine_error_code(e) == INVALID_PARAMS) <==> (e is NotFound),
        (engine_error_code(e) == INTERNAL_ERROR) <==> (e is Transport),
        INVALID_PARAMS == -32602,
        INTERNAL_ERROR == -32603,
        engine_failure(e) == Err::<Json, (i32, Seq<char>)>((engine_error_code(e), engine_message(e))),
{
}

/// A call's model keeps the call and its parameters.
pub proof fn law_call_models(c: Call)
    ensures
        c matches Call::Create(p) ==> call_model(c) == CallModel::Create(p@),
        c matches Call::List ==> call_model(c) == CallModel::List,
        c matches Call::Close(p) ==> call_model(c) == CallModel::Close(p@),
        c matches Call::ReadHoldingRegisters(p) ==> call_model(c) == CallModel::ReadHoldingRegisters(p@),
{
}

/// A method is routed to a call exactly when it is one the server dispatches.
pub proof fn law_routing_matches_known_methods(method: Seq<char>, params: Json)
    ensures
        (routed_call(method, params) is Some) <==> known_method(method),
{
}

/// The models of steps and outcomes keep what they hold: a reply's response,
/// a performed call's id and call, a value, or an error's code and message.
pub proof fn law_step_and_outcome_models(s: Step, o: Result<JsonValue, (i32, String)>)
    ensures
        s matches Step::Reply(v) ==> step_model(s) == StepModel::Reply(v@),
        s matches Step::Silent ==> step_model(s) == StepModel::Silent,
        s matches Step::Perform(id, c) ==> step_model(s) == StepModel::Perform(id@, call_model(c)),
        o matches Ok(v) ==> outcome_model(o) == Ok::<Json, (i32, Seq<char>)>(v@),
        o matches Err((c, m)) ==> outcome_model(o) == Err::<Json, (i32, Seq<char>)>((c, m@)),
{
}

} // verus!
