//! The standard JSON-RPC 2.0 error codes.
use vstd::prelude::*;

verus! {

/// The text is not JSON.
pub const PARSE_ERROR: i32 = -32700;

/// The JSON is not a valid request object.
pub const INVALID_REQUEST: i32 = -32600;

/// No method of that name is dispatched.
pub const METHOD_NOT_FOUND: i32 = -32601;

/// The parameters do not fit the method.
pub const INVALID_PARAMS: i32 = -32602;

/// The method failed inside the server.
pub const INTERNAL_ERROR: i32 = -32603;

} // verus!
