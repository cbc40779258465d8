//! The approval queue's HTTP API: what its answers say.

use vstd::prelude::*;
use std::sync::Arc;
use crate::approval::PersistentApprovalQueue;
use crate::text::string_from;

verus! {

/// The state the queue API serves from.
#[derive(Clone)]
pub struct QueueState {
    pub queue: Arc<PersistentApprovalQueue>,
}

/// The reason of a rejection through the API, `rejected via API` when the body
/// gives none.
pub fn reject_reason(body_reason: Option<String>) -> (r: String)
    ensures
        r@ == match body_reason {
            Some(s) => s@,
            None => "rejected via API"@,
        },
{
    match body_reason {
        Some(s) => s,
        None => string_from("rejected via API"),
    }
}

/// The HTTP status of an approval or rejection through the API: 200 when it
/// went through, 404 otherwise.
pub fn resolution_status(ok: bool) -> (code: u16)
    ensures
        code == (if ok { 200u16 } else { 404u16 }),
{
    if ok {
        200
    } else {
        404
    }
}

} // verus!
