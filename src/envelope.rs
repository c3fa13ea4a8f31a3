//! The fixed two-shape response envelope: either a result or an error, never
//! both and never neither.
use vstd::prelude::*;

verus! {

/// Error code for a missing or invalid request parameter.
pub const INVALID_PARAMS: i32 = -32602;

/// Error code for any route other than the proof lookup.
pub const METHOD_NOT_FOUND: i32 = -32601;

/// Error code for a lookup that found no row or whose query failed.
pub const LOOKUP_FAILED: i32 = -32000;

/// The `id` every response carries; it is not taken from the request.
pub const RESPONSE_ID: u32 = 1;

/// The error object of an envelope.
pub struct RpcError {
    pub code: i32,
    pub message: String,
}

/// A response envelope carrying either `result` or `error`.
pub struct RpcResponse<T> {
    pub jsonrpc: String,
    pub result: Option<T>,
    pub error: Option<RpcError>,
    pub id: u32,
}

/// The protocol version string every envelope carries.
pub open spec fn protocol_version() -> Seq<char> {
    "2.0"@
}

impl<T> RpcResponse<T> {
    /// An envelope is well formed when it names the protocol version and holds
    /// exactly one of `result` and `error`.
    pub open spec fn wf(&self) -> bool {
        &&& self.jsonrpc@ == protocol_version()
        &&& self.result.is_some() != self.error.is_some()
    }

    /// Whether this envelope is an error with the given code and message.
    pub open spec fn is_error_with(&self, code: i32, message: Seq<char>) -> bool {
        &&& self.wf()
        &&& self.result.is_none()
        &&& self.error.is_some()
        &&& self.error.unwrap().code == code
        &&& self.error.unwrap().message@ == message
    }

    /// Wraps a successful outcome.
    pub fn success(result: T, id: u32) -> (r: Self)
        ensures
            r.wf(),
            r.result == Some(result),
            r.error.is_none(),
            r.id == id,
    {
        RpcResponse { jsonrpc: String::from_str("2.0"), result: Some(result), error: None, id }
    }

    /// Wraps a failure with its code and message.
    pub fn error(code: i32, message: String, id: u32) -> (r: Self)
        ensures
            r.is_error_with(code, message@),
            r.id == id,
    {
        RpcResponse {
            jsonrpc: String::from_str("2.0"),
            result: None,
            error: Some(RpcError { code, message }),
            id,
        }
    }
}

} // verus!
