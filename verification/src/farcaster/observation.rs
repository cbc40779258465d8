//! What a Farcaster observes: project milestones, and the digests of the domain
//! Farcasters below it.

use vstd::prelude::*;
use crate::farcaster::concurrence::AgentConcurrence;
use crate::farcaster::milestone::{milestone_summary, MilestoneEvent};
use crate::text::{push_str, string_from};
use crate::types::ProjectId;

verus! {

/// A digest emitted by a domain Farcaster after a synthesis; one level up it is
/// an observation.
#[derive(Debug, Clone)]
pub struct DomainDigestEvent {
    pub domain: String,
    pub title: String,
    pub narrative: String,
    pub lessons: Vec<String>,
    pub open_questions: Vec<String>,
    pub involved_projects: Vec<ProjectId>,
    pub concurrence: Vec<AgentConcurrence>,
    /// Milliseconds since the Unix epoch.
    pub period_start: i64,
    /// Milliseconds since the Unix epoch.
    pub period_end: i64,
    /// The Farga node of the digest, when it was submitted there.
    pub farga_node_id: Option<String>,
}

/// A one-line account of a domain digest.
pub open spec fn digest_summary(d: DomainDigestEvent) -> Seq<char> {
    "domain digest ["@ + d.domain@ + "]: "@ + d.title@
}

impl DomainDigestEvent {
    /// A one-line account of the digest.
    pub fn summary(&self) -> (s: String)
        ensures
            s@ == digest_summary(*self),
    {
        let mut s = string_from("domain digest [");
        push_str(&mut s, self.domain.as_str());
        push_str(&mut s, "]: ");
        push_str(&mut s, self.title.as_str());
        s
    }
}

/// A project milestone, or a digest from a lower-level Farcaster.
#[derive(Debug, Clone)]
pub enum ObservationEvent {
    Milestone(MilestoneEvent),
    DomainDigest(DomainDigestEvent),
}

/// A one-line account of an observation.
pub open spec fn observation_summary(o: ObservationEvent) -> Seq<char> {
    match o {
        ObservationEvent::Milestone(m) => milestone_summary(m),
        ObservationEvent::DomainDigest(d) => digest_summary(d),
    }
}

impl ObservationEvent {
    /// A one-line account of the observation.
    pub fn summary(&self) -> (s: String)
        ensures
            s@ == observation_summary(*self),
    {
        match self {
            ObservationEvent::Milestone(m) => m.summary(),
            ObservationEvent::DomainDigest(d) => d.summary(),
        }
    }

    /// The domain a digest comes from; none for a milestone.
    pub fn source_domain(&self) -> (d: Option<&str>)
        ensures
            match *self {
                ObservationEvent::DomainDigest(dd) => d matches Some(x) && x@ == dd.domain@,
                ObservationEvent::Milestone(_) => d is None,
            },
    {
        match self {
            ObservationEvent::DomainDigest(d) => Some(d.domain.as_str()),
            ObservationEvent::Milestone(_) => None,
        }
    }
}

} // verus!
