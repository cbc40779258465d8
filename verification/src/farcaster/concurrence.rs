//! How urgent a connection is, and how an agent concurred with it.

use vstd::prelude::*;

verus! {

/// How urgent a cross-space connection is.
#[derive(Debug, Clone, Copy, PartialEq, Eq, Structural)]
pub enum Urgency {
    Low,
    Medium,
    High,
}

/// How an agent came to concur with an observation.
#[derive(Debug, Clone, Copy, PartialEq, Eq, Structural)]
pub enum ConcurrenceType {
    Observed,
    Whispered,
    Acknowledged,
}

/// An agent's concurrence with an observation about a project.
#[derive(Debug, Clone)]
pub struct AgentConcurrence {
    pub project_id: String,
    pub agent_address: String,
    pub concurrence_type: ConcurrenceType,
    pub note: Option<String>,
}

/// Whether a connection of this urgency is told to the agents concerned right
/// away (medium and high), rather than only kept for the digest.
pub open spec fn is_pressing(u: Urgency) -> bool {
    u == Urgency::Medium || u == Urgency::High
}

/// Whether a connection of urgency `u` is told right away (see [`is_pressing`]).
pub fn pressing(u: Urgency) -> (b: bool)
    ensures
        b == is_pressing(u),
{
    match u {
        Urgency::Low => false,
        _ => true,
    }
}

} // verus!
