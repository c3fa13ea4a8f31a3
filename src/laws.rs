//! The service's behaviour over a model of storage, and the laws that hold
//! of it for every request.
use vstd::prelude::*;

use crate::envelope::{RpcResponse, INVALID_PARAMS, LOOKUP_FAILED, METHOD_NOT_FOUND};
use crate::lookup::{lookup_reply_spec, BridgeTxProof};
use crate::router::{dispatch_spec, is_proof_route, param_value, signature_key, Dispatch};

verus! {

/// Storage, keyed by signature: each row is filed under its own signature,
/// so a signature names at most one row.
pub open spec fn storage_wf(storage: Map<Seq<char>, BridgeTxProof>) -> bool {
    forall|s: Seq<char>| #[trigger] storage.contains_key(s) ==> storage[s].signature@ == s
}

/// The row that the lookup query returns for a signature when it succeeds.
pub open spec fn stored_row(storage: Map<Seq<char>, BridgeTxProof>, s: Seq<char>) -> Option<
    BridgeTxProof,
> {
    if storage.contains_key(s) {
        Some(storage[s])
    } else {
        None
    }
}

/// Whether `r` is the answer to a request that was dispatched as `d`, with
/// the lookup, if any, answered from `storage`.
pub open spec fn served(d: Dispatch, storage: Map<Seq<char>, BridgeTxProof>, r: RpcResponse<
    BridgeTxProof,
>) -> bool {
    match d {
        Dispatch::Reply(x) => r == x,
        Dispatch::Lookup(t) => lookup_reply_spec(stored_row(storage, t@), r),
    }
}

/// A GET of the proof route whose signature is stored is answered with a
/// result that carries that signature, and with no error.
pub proof fn lemma_stored_signature_is_found(
    storage: Map<Seq<char>, BridgeTxProof>,
    params: Seq<(String, String)>,
    s: Seq<char>,
    d: Dispatch,
    r: RpcResponse<BridgeTxProof>,
)
    requires
        storage_wf(storage),
        param_value(params, signature_key()) == Some(s),
        storage.contains_key(s),
        dispatch_spec("GET"@, "/proof"@, Some(params), d),
        served(d, storage, r),
    ensures
        r.wf(),
        r.result.is_some(),
        r.result.unwrap().signature@ == s,
        r.error.is_none(),
{
}

/// A GET of the proof route whose signature is not stored is answered with no
/// result and the lookup-failed error.
pub proof fn lemma_absent_signature_fails(
    storage: Map<Seq<char>, BridgeTxProof>,
    params: Seq<(String, String)>,
    s: Seq<char>,
    d: Dispatch,
    r: RpcResponse<BridgeTxProof>,
)
    requires
        param_value(params, signature_key()) == Some(s),
        !storage.contains_key(s),
        dispatch_spec("GET"@, "/proof"@, Some(params), d),
        served(d, storage, r),
    ensures
        r.wf(),
        r.result.is_none(),
        r.error.is_some(),
        r.error.unwrap().code == LOOKUP_FAILED,
{
}

/// A GET of the proof route without a signature parameter is answered with
/// the invalid-parameters error, whatever storage holds.
pub proof fn lemma_missing_signature_is_invalid(
    storage: Map<Seq<char>, BridgeTxProof>,
    params: Seq<(String, String)>,
    d: Dispatch,
    r: RpcResponse<BridgeTxProof>,
)
    requires
        param_value(params, signature_key()).is_none(),
        dispatch_spec("GET"@, "/proof"@, Some(params), d),
        served(d, storage, r),
    ensures
        r.wf(),
        r.result.is_none(),
        r.error.is_some(),
        r.error.unwrap().code == INVALID_PARAMS,
{
}

/// Any request whose method is not GET or whose path is not `/proof` is
/// answered with the method-not-found error, whatever its parameters and
/// whatever storage holds.
pub proof fn lemma_other_routes_not_found(
    storage: Map<Seq<char>, BridgeTxProof>,
    method: Seq<char>,
    path: Seq<char>,
    params: Option<Seq<(String, String)>>,
    d: Dispatch,
    r: RpcResponse<BridgeTxProof>,
)
    requires
        !is_proof_route(method, path),
        dispatch_spec(method, path, params, d),
        served(d, storage, r),
    ensures
        r.wf(),
        r.result.is_none(),
        r.error.is_some(),
        r.error.unwrap().code == METHOD_NOT_FOUND,
{
}

/// Asking the same thing twice of unchanged storage gives the same result
/// payload and the same error code: the lookup only reads.
pub proof fn lemma_repeated_request_same_answer(
    storage: Map<Seq<char>, BridgeTxProof>,
    method: Seq<char>,
    path: Seq<char>,
    params: Option<Seq<(String, String)>>,
    d1: Dispatch,
    r1: RpcResponse<BridgeTxProof>,
    d2: Dispatch,
    r2: RpcResponse<BridgeTxProof>,
)
    requires
        dispatch_spec(method, path, params, d1),
        served(d1, storage, r1),
        dispatch_spec(method, path, params, d2),
        served(d2, storage, r2),
    ensures
        r1.result == r2.result,
        r1.error.is_some() == r2.error.is_some(),
        r1.error.is_some() ==> r1.error.unwrap().code == r2.error.unwrap().code,
        r1.error.is_some() ==> r1.error.unwrap().message@ == r2.error.unwrap().message@,
        r1.id == r2.id,
{
}

} // verus!
