//! The stored bridge transaction proof and the mapping of a lookup's outcome
//! to a response envelope.
use vstd::prelude::*;

use crate::envelope::{RpcResponse, LOOKUP_FAILED, RESPONSE_ID};

verus! {

/// The one query the lookup runs. The signature is passed as the bound
/// parameter `$1`, never spliced into the text.
pub const LOOKUP_SQL: &'static str =
    "SELECT id, root_program_slot, signature, proof FROM bridge_transaction WHERE signature = $1";

/// One stored proof, read back from the `bridge_transaction` table.
pub struct BridgeTxProof {
    pub index: i64,
    /// The on-chain state snapshot the proof is anchored to, where the
    /// storage records one.
    pub root_program_slot: Option<i64>,
    pub signature: String,
    pub proof: String,
}

/// The message of a failed lookup.
pub open spec fn not_found_message() -> Seq<char> {
    "tx not found"@
}

/// What a lookup answers for the row it found, or for no row at all: the row
/// itself as the result, or the lookup-failed error.
pub open spec fn lookup_reply_spec(
    row: Option<BridgeTxProof>,
    r: RpcResponse<BridgeTxProof>,
) -> bool {
    &&& r.id == RESPONSE_ID
    &&& match row {
        Some(p) => {
            &&& r.wf()
            &&& r.result == Some(p)
            &&& r.error.is_none()
        },
        None => r.is_error_with(LOOKUP_FAILED, not_found_message()),
    }
}

/// Turns the outcome of the lookup query into the response envelope. `None`
/// stands for both "no row matched" and "the query failed": the two are
/// answered alike.
pub fn lookup_reply(row: Option<BridgeTxProof>) -> (r: RpcResponse<BridgeTxProof>)
    ensures
        lookup_reply_spec(row, r),
{
    match row {
        Some(p) => RpcResponse::success(p, RESPONSE_ID),
        None => RpcResponse::error(LOOKUP_FAILED, String::from_str("tx not found"), RESPONSE_ID),
    }
}

} // verus!
