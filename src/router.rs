//! Routing of an inbound request: the proof lookup route, with its parameter
//! check, and the catch-all for everything else.
use vstd::prelude::*;

use crate::envelope::{RpcResponse, INVALID_PARAMS, METHOD_NOT_FOUND, RESPONSE_ID};
use crate::lookup::BridgeTxProof;

verus! {

/// What to do with a request.
pub enum Dispatch {
    /// Answer at once with this envelope.
    Reply(RpcResponse<BridgeTxProof>),
    /// Run the lookup query for this signature, then answer with what
    /// `lookup_reply` makes of its outcome.
    Lookup(String),
}

/// The one recognised route: `GET /proof`.
pub open spec fn is_proof_route(method: Seq<char>, path: Seq<char>) -> bool {
    method == "GET"@ && path == "/proof"@
}

/// The name of the query parameter that carries the signature.
pub open spec fn signature_key() -> Seq<char> {
    "signature"@
}

/// The message for a proof request without a signature.
pub open spec fn missing_signature_message() -> Seq<char> {
    "Missing 'signature' parameter"@
}

/// The message for any request other than the proof route.
pub open spec fn method_not_found_message() -> Seq<char> {
    "Method not found. Only 'proof' route is supported."@
}

/// The value of the first query parameter named `key`, if there is one.
pub open spec fn param_value(params: Seq<(String, String)>, key: Seq<char>) -> Option<Seq<char>>
    decreases params.len(),
{
    if params.len() == 0 {
        None
    } else if params[0].0@ == key {
        Some(params[0].1@)
    } else {
        param_value(params.drop_first(), key)
    }
}

/// How a request is dispatched. `params` is `None` where the query string
/// could not be decoded; the proof route then does not match.
pub open spec fn dispatch_spec(
    method: Seq<char>,
    path: Seq<char>,
    params: Option<Seq<(String, String)>>,
    d: Dispatch,
) -> bool {
    if is_proof_route(method, path) && params.is_some() {
        match param_value(params.unwrap(), signature_key()) {
            Some(s) => match d {
                Dispatch::Lookup(t) => t@ == s,
                Dispatch::Reply(_) => false,
            },
            None => match d {
                Dispatch::Reply(r) => r.is_error_with(INVALID_PARAMS, missing_signature_message())
                    && r.id == RESPONSE_ID,
                Dispatch::Lookup(_) => false,
            },
        }
    } else {
        match d {
            Dispatch::Reply(r) => r.is_error_with(METHOD_NOT_FOUND, method_not_found_message())
                && r.id == RESPONSE_ID,
            Dispatch::Lookup(_) => false,
        }
    }
}

/// Whether two strings hold the same characters.
fn same_text(a: &str, b: &str) -> (r: bool)
    ensures
        r == (a@ == b@),
{
    let x = String::from_str(a);
    let y = String::from_str(b);
    x == y
}

/// Finds the value of the first query parameter named `key`.
pub fn find_param(params: &Vec<(String, String)>, key: &str) -> (r: Option<String>)
    ensures
        match r {
            Some(v) => param_value(params@, key@) == Some(v@),
            None => param_value(params@, key@).is_none(),
        },
{
    let n = params.len();
    let mut i: usize = 0;
    proof {
        assert(params@.subrange(0, n as int) =~= params@);
    }
    while i < n
        invariant
            n == params@.len(),
            i <= n,
            param_value(params@.subrange(i as int, n as int), key@) == param_value(params@, key@),
        decreases n - i,
    {
        let pair = &params[i];
        proof {
            let rest = params@.subrange(i as int, n as int);
            assert(rest[0] == params@[i as int]);
            assert(rest.drop_first() =~= params@.subrange(i + 1, n as int));
        }
        if same_text(pair.0.as_str(), key) {
            return Some(pair.1.clone());
        }
        i += 1;
    }
    proof {
        assert(params@.subrange(i as int, n as int) =~= Seq::<(String, String)>::empty());
    }
    None
}

/// Decides what to do with a request from its method, its path and its
/// decoded query parameters (`None` where the query string did not decode).
pub fn dispatch(method: &str, path: &str, params: Option<&Vec<(String, String)>>) -> (d: Dispatch)
    ensures
        dispatch_spec(
            method@,
            path@,
            match params {
                Some(v) => Some(v@),
                None => None,
            },
            d,
        ),
{
    let on_route = same_text(method, "GET") && same_text(path, "/proof");
    match params {
        Some(v) if on_route => match find_param(v, "signature") {
            Some(s) => Dispatch::Lookup(s),
            None => Dispatch::Reply(
                RpcResponse::error(
                    INVALID_PARAMS,
                    String::from_str("Missing 'signature' parameter"),
                    RESPONSE_ID,
                ),
            ),
        },
        _ => Dispatch::Reply(
            RpcResponse::error(
                METHOD_NOT_FOUND,
                String::from_str("Method not found. Only 'proof' route is supported."),
                RESPONSE_ID,
            ),
        ),
    }
}

} // verus!
