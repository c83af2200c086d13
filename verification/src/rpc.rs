//! JSON-RPC 2.0 framing: reading a request, building response and error
//! envelopes, and the set of methods this server dispatches.
pub mod code;

use vstd::prelude::*;
use crate::json::{
    json_object, json_string, lookup, opt_model, or_null, value_or_null, Json, JsonValue,
};
use crate::text::same_text;
use self::code::{INVALID_REQUEST, METHOD_NOT_FOUND, PARSE_ERROR};

verus! {

/// The JSON-RPC protocol version this server speaks.
pub const VERSION: &'static str = "2.0";

/// A request read from a JSON-RPC message; a notification when `id` is `None`.
#[derive(Debug)]
pub struct ParsedRequest {
    pub id: Option<JsonValue>,
    pub method: String,
    pub params: JsonValue,
}

/// A JSON-RPC error object.
#[derive(Debug)]
pub struct ErrorObject {
    pub code: i32,
    pub message: String,
    pub data: Option<JsonValue>,
}

/// What reading a message gives: a request, or the id, code and message of
/// the error to answer with.
pub enum Framing {
    Request { id: Option<Json>, method: Seq<char>, params: Json },
    Rejected { id: Option<Json>, code: i32, message: Seq<char> },
}

/// The text under `key` in `v`, when there is a string there.
pub open spec fn text_member(v: Json, key: Seq<char>) -> Option<Seq<char>> {
    match v.get(key) {
        Some(j) => j.as_str(),
        None => None,
    }
}

/// How a message is read. `doc` is the JSON document that the message holds,
/// or `None` where the message is not JSON.
pub open spec fn framing(doc: Option<Json>) -> Framing {
    match doc {
        None => Framing::Rejected { id: None, code: PARSE_ERROR, message: "Parse error"@ },
        Some(v) => if !(v is Object) {
            Framing::Rejected { id: None, code: INVALID_REQUEST, message: "Invalid Request"@ }
        } else if text_member(v, "jsonrpc"@) != Some(VERSION@) {
            Framing::Rejected { id: None, code: INVALID_REQUEST, message: "Invalid Request"@ }
        } else {
            match text_member(v, "method"@) {
                None => Framing::Rejected {
                    id: v.get("id"@),
                    code: INVALID_REQUEST,
                    message: "Invalid Request"@,
                },
                Some(m) => Framing::Request {
                    id: v.get("id"@),
                    method: m,
                    params: or_null(v.get("params"@)),
                },
            }
        },
    }
}

/// The model of what `parse` returns.
pub open spec fn framing_of(r: Result<ParsedRequest, (Option<JsonValue>, i32, String)>) -> Framing {
    match r {
        Ok(p) => Framing::Request { id: opt_model(p.id), method: p.method@, params: p.params@ },
        Err((id, code, message)) => Framing::Rejected { id: opt_model(id), code, message: message@ },
    }
}

fn invalid_request(id: Option<JsonValue>) -> (r: (Option<JsonValue>, i32, String))
    ensures
        opt_model(r.0) == opt_model(id),
        r.1 == INVALID_REQUEST,
        r.2@ == "Invalid Request"@,
{
    (id, INVALID_REQUEST, String::from_str("Invalid Request"))
}

/// Reads a JSON-RPC request out of `doc`, the JSON document of a message
/// (`None` where the message is not JSON), or gives the `(id, code, message)`
/// of the error response.
pub fn parse(doc: Option<JsonValue>) -> (r: Result<ParsedRequest, (Option<JsonValue>, i32, String)>)
    ensures
        framing_of(r) == framing(opt_model(doc)),
{
    let v = match doc {
        None => {
            return Err((None, PARSE_ERROR, String::from_str("Parse error")));
        },
        Some(v) => v,
    };
    if !v.is_object() {
        return Err(invalid_request(None));
    }
    let version_ok = match v.member("jsonrpc") {
        Some(j) => match j.text() {
            Some(t) => same_text(t.as_str(), VERSION),
            None => false,
        },
        None => false,
    };
    if !version_ok {
        return Err(invalid_request(None));
    }
    let id = match v.member("id") {
        Some(j) => Some(j.copy()),
        None => None,
    };
    let method = match v.member("method") {
        Some(j) => match j.text() {
            Some(t) => t.clone(),
            None => {
                return Err(invalid_request(id));
            },
        },
        None => {
            return Err(invalid_request(id));
        },
    };
    let params = match v.member("params") {
        Some(j) => j.copy(),
        None => JsonValue::Null,
    };
    Ok(ParsedRequest { id, method, params })
}

/// The success envelope `{"jsonrpc": "2.0", "id": id, "result": result}`.
pub open spec fn success_envelope(id: Option<Json>, result: Json) -> Json {
    Json::Object(
        seq![("jsonrpc"@, Json::Str(VERSION@)), ("id"@, or_null(id)), ("result"@, result)],
    )
}

/// The error object `{"code": code, "message": message}`, with `"data"` only where there is data.
pub open spec fn error_object(code: i32, message: Seq<char>, data: Option<Json>) -> Json {
    match data {
        Some(d) => Json::Object(
            seq![("code"@, Json::Int(code as int)), ("message"@, Json::Str(message)), ("data"@, d)],
        ),
        None => Json::Object(seq![("code"@, Json::Int(code as int)), ("message"@, Json::Str(message))]),
    }
}

/// The error envelope `{"jsonrpc": "2.0", "id": id, "error": {...}}`.
pub open spec fn error_envelope(id: Option<Json>, code: i32, message: Seq<char>, data: Option<Json>) -> Json {
    Json::Object(
        seq![
            ("jsonrpc"@, Json::Str(VERSION@)),
            ("id"@, or_null(id)),
            ("error"@, error_object(code, message, data)),
        ],
    )
}

fn key(k: &str) -> (r: String)
    ensures
        r@ == k@,
{
    String::from_str(k)
}

fn version_member() -> (r: (String, JsonValue))
    ensures
        r.0@ == "jsonrpc"@,
        r.1@ == Json::Str(VERSION@),
{
    (key("jsonrpc"), json_string(String::from_str(VERSION)))
}

/// Builds a success response envelope.
pub fn success(id: Option<JsonValue>, result: JsonValue) -> (r: JsonValue)
    ensures
        r@ == success_envelope(opt_model(id), result@),
{
    let members = vec![version_member(), (key("id"), value_or_null(id)), (key("result"), result)];
    let r = json_object(members);
    proof {
        assert(r@->Object_0 =~= success_envelope(opt_model(id), result@)->Object_0);
    }
    r
}

impl ErrorObject {
    /// The JSON form of the error object; `"data"` is left out where there is none.
    pub fn to_json(self) -> (r: JsonValue)
        ensures
            r@ == error_object(self.code, self.message@, opt_model(self.data)),
    {
        let ghost code = self.code;
        let ghost message = self.message@;
        let ghost data = opt_model(self.data);
        let mut members = vec![
            (key("code"), JsonValue::Int(self.code as i128)),
            (key("message"), json_string(self.message)),
        ];
        match self.data {
            Some(d) => {
                members.push((key("data"), d));
            },
            None => {},
        }
        let r = json_object(members);
        proof {
            assert(r@->Object_0 =~= error_object(code, message, data)->Object_0);
        }
        r
    }
}

/// Builds an error response envelope.
pub fn error(id: Option<JsonValue>, code: i32, message: String, data: Option<JsonValue>) -> (r:
    JsonValue)
    ensures
        r@ == error_envelope(opt_model(id), code, message@, opt_model(data)),
{
    let err = ErrorObject { code, message, data };
    let members = vec![version_member(), (key("id"), value_or_null(id)), (key("error"), err.to_json())];
    let r = json_object(members);
    proof {
        assert(r@->Object_0 =~= error_envelope(opt_model(id), code, message@, opt_model(data))->Object_0);
    }
    r
}

/// The methods this server dispatches.
pub open spec fn known_method(method: Seq<char>) -> bool {
    ||| method == "connection.create"@
    ||| method == "connection.list"@
    ||| method == "connection.close"@
    ||| method == "read.holdingRegisters"@
}

/// Is `method` one this server dispatches?
pub fn is_known_method(method: &str) -> (r: bool)
    ensures
        r == known_method(method@),
{
    same_text(method, "connection.create") || same_text(method, "connection.list") || same_text(
        method,
        "connection.close",
    ) || same_text(method, "read.holdingRegisters")
}

/// Validates that `method` is dispatchable, else gives the standard error code.
pub fn validate_method(method: &str) -> (r: Result<(), i32>)
    ensures
        r == (if known_method(method@) {
            Ok::<(), i32>(())
        } else {
            Err::<(), i32>(METHOD_NOT_FOUND)
        }),
{
    if is_known_method(method) {
        Ok(())
    } else {
        Err(METHOD_NOT_FOUND)
    }
}

proof fn lemma_lookup2(a: (Seq<char>, Json), b: (Seq<char>, Json), k: Seq<char>)
    ensures
        lookup(seq![a, b], k) == (if b.0 == k {
            Some(b.1)
        } else if a.0 == k {
            Some(a.1)
        } else {
            None
        }),
{
    reveal_with_fuel(lookup, 3);
    assert(seq![a, b].drop_last() =~= seq![a]);
    assert(seq![a].drop_last() =~= Seq::<(Seq<char>, Json)>::empty());
}

proof fn lemma_lookup3(a: (Seq<char>, Json), b: (Seq<char>, Json), c: (Seq<char>, Json), k: Seq<char>)
    ensures
        lookup(seq![a, b, c], k) == (if c.0 == k {
            Some(c.1)
        } else if b.0 == k {
            Some(b.1)
        } else if a.0 == k {
            Some(a.1)
        } else {
            None
        }),
{
    assert(seq![a, b, c].drop_last() =~= seq![a, b]);
    lemma_lookup2(a, b, k);
}

proof fn lemma_member_names_distinct()
    ensures
        "jsonrpc"@ != "id"@,
        "jsonrpc"@ != "result"@,
        "jsonrpc"@ != "error"@,
        "id"@ != "result"@,
        "id"@ != "error"@,
        "result"@ != "error"@,
        "code"@ != "message"@,
        "code"@ != "data"@,
        "message"@ != "data"@,
{
    reveal_strlit("jsonrpc");
    reveal_strlit("id");
    reveal_strlit("result");
    reveal_strlit("error");
    reveal_strlit("code");
    reveal_strlit("message");
    reveal_strlit("data");
    assert("jsonrpc"@.len() != "id"@.len());
    assert("jsonrpc"@.len() != "result"@.len());
    assert("jsonrpc"@.len() != "error"@.len());
    assert("id"@.len() != "result"@.len());
    assert("id"@.len() != "error"@.len());
    assert("result"@[0] != "error"@[0]);
    assert("code"@.len() != "message"@.len());
    assert("code"@[0] != "data"@[0]);
    assert("message"@.len() != "data"@.len());
}

/// A success response names the protocol version, carries the request's id
/// (`null` for none) and the result, and has no error member.
pub proof fn law_success_envelope(id: Option<Json>, result: Json)
    ensures
        success_envelope(id, result).get("jsonrpc"@) == Some(Json::Str(VERSION@)),
        success_envelope(id, result).get("id"@) == Some(or_null(id)),
        success_envelope(id, result).get("result"@) == Some(result),
        success_envelope(id, result).get("error"@) is None,
{
    lemma_member_names_distinct();
    let a = ("jsonrpc"@, Json::Str(VERSION@));
    let b = ("id"@, or_null(id));
    let c = ("result"@, result);
    lemma_lookup3(a, b, c, "jsonrpc"@);
    lemma_lookup3(a, b, c, "id"@);
    lemma_lookup3(a, b, c, "result"@);
    lemma_lookup3(a, b, c, "error"@);
}

/// An error response names the protocol version, carries the request's id
/// (`null` for none) and an error object with the code and message, and has
/// no result member; the error object has a `data` member exactly when data is given.
pub proof fn law_error_envelope(id: Option<Json>, code: i32, message: Seq<char>, data: Option<Json>)
    ensures
        error_envelope(id, code, message, data).get("jsonrpc"@) == Some(Json::Str(VERSION@)),
        error_envelope(id, code, message, data).get("id"@) == Some(or_null(id)),
        error_envelope(id, code, message, data).get("result"@) is None,
        error_envelope(id, code, message, data).get("error"@) == Some(
            error_object(code, message, data),
        ),
        error_object(code, message, data).get("code"@) == Some(Json::Int(code as int)),
        error_object(code, message, data).get("message"@) == Some(Json::Str(message)),
        error_object(code, message, data).get("data"@) == data,
{
    lemma_member_names_distinct();
    let a = ("jsonrpc"@, Json::Str(VERSION@));
    let b = ("id"@, or_null(id));
    let c = ("error"@, error_object(code, message, data));
    lemma_lookup3(a, b, c, "jsonrpc"@);
    lemma_lookup3(a, b, c, "id"@);
    lemma_lookup3(a, b, c, "result"@);
    lemma_lookup3(a, b, c, "error"@);
    let x = ("code"@, Json::Int(code as int));
    let y = ("message"@, Json::Str(message));
    match data {
        Some(d) => {
            let z = ("data"@, d);
            lemma_lookup3(x, y, z, "code"@);
            lemma_lookup3(x, y, z, "message"@);
            lemma_lookup3(x, y, z, "data"@);
        },
        None => {
            lemma_lookup2(x, y, "code"@);
            lemma_lookup2(x, y, "message"@);
            lemma_lookup2(x, y, "data"@);
        },
    }
}

/// A message that is not JSON is answered with a parse error and a `null` id.
pub proof fn law_not_json_is_parse_error()
    ensures
        framing(None) == (Framing::Rejected { id: None, code: PARSE_ERROR, message: "Parse error"@ }),
{
}

/// A request that lacks the version member, or names another version, is an
/// invalid request answered with a `null` id, whatever else it holds.
pub proof fn law_wrong_version_is_invalid(v: Json)
    requires
        v is Object,
        text_member(v, "jsonrpc"@) != Some(VERSION@),
    ensures
        framing(Some(v)) == (Framing::Rejected {
            id: None,
            code: INVALID_REQUEST,
            message: "Invalid Request"@,
        }),
{
}

/// How a JSON document is read as a request: anything but an object is an
/// invalid request with no id; an object naming version "2.0" whose method
/// is a string is a request with the object's id, that method, and its
/// params (`null` where absent); an object naming that version without a
/// string method is an invalid request that keeps the object's id.
pub proof fn law_framing_of_documents(v: Json)
    ensures
        !(v is Object) ==> framing(Some(v)) == (Framing::Rejected {
            id: None,
            code: INVALID_REQUEST,
            message: "Invalid Request"@,
        }),
        v is Object && v.get("jsonrpc"@) == Some(Json::Str(VERSION@)) ==> (v.get("method"@) matches Some(
            Json::Str(m),
        ) ==> framing(Some(v)) == (Framing::Request {
            id: v.get("id"@),
            method: m,
            params: match v.get("params"@) {
                Some(p) => p,
                None => Json::Null,
            },
        })),
        (v is Object && v.get("jsonrpc"@) == Some(Json::Str(VERSION@)) && !(v.get("method"@) matches Some(
            Json::Str(_),
        ))) ==> framing(Some(v)) == (Framing::Rejected {
            id: v.get("id"@),
            code: INVALID_REQUEST,
            message: "Invalid Request"@,
        }),
        text_member(v, "jsonrpc"@) == Some(VERSION@) <==> v.get("jsonrpc"@) == Some(Json::Str(VERSION@)),
        VERSION@ == "2.0"@,
        PARSE_ERROR == -32700,
        INVALID_REQUEST == -32600,
        METHOD_NOT_FOUND == -32601,
{
}

/// The dispatched methods are exactly `connection.create`,
/// `connection.list`, `connection.close` and `read.holdingRegisters`.
pub proof fn law_known_methods(m: Seq<char>)
    ensures
        known_method(m) <==> (m == "connection.create"@ || m == "connection.list"@ || m
            == "connection.close"@ || m == "read.holdingRegisters"@),
{
}

/// The model of what `parse` returns keeps the request's id, method and
/// params, or the error's id, code and message.
pub proof fn law_parse_result_model(r: Result<ParsedRequest, (Option<JsonValue>, i32, String)>)
    ensures
        r matches Ok(p) ==> framing_of(r) == (Framing::Request {
            id: opt_model(p.id),
            method: p.method@,
            params: p.params@,
        }),
        r matches Err((id, c, m)) ==> framing_of(r) == (Framing::Rejected {
            id: opt_model(id),
            code: c,
            message: m@,
        }),
        forall|v: Option<JsonValue>|
            (#[trigger] opt_model(v)) is Some <==> v is Some,
        forall|v: Option<JsonValue>|
            #[trigger] opt_model(v) matches Some(j) ==> v matches Some(x) && x@ == j,
{
}

} // verus!
