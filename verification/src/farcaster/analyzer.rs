//! What the cross-space analysis works on and gives back.

use vstd::prelude::*;
use crate::farcaster::concurrence::{AgentConcurrence, Urgency};
use crate::types::ProjectId;

verus! {

/// What is known of one project for a cross-space analysis.
#[derive(Debug, Clone)]
pub struct ProjectSnapshot {
    pub project_id: ProjectId,
    pub mission_goal: Option<String>,
    pub open_sub_objectives: Vec<String>,
    /// Summaries of its latest milestones, newest first.
    pub recent_events: Vec<String>,
}

/// What is known of all projects for a cross-space analysis.
#[derive(Debug, Clone)]
pub struct CrossSpaceSnapshot {
    pub projects: Vec<ProjectSnapshot>,
}

/// A connection the analysis found between two projects.
#[derive(Debug, Clone)]
pub struct CrossSpaceConnection {
    pub from_project: ProjectId,
    pub to_project: ProjectId,
    pub connection_type: String,
    pub summary: String,
    pub urgency: Urgency,
}

/// What a digest synthesis gives back.
#[derive(Debug, Clone)]
pub struct DigestSynthesis {
    pub connections: Vec<String>,
    pub lessons: Vec<String>,
    pub open_questions: Vec<String>,
    /// `submit` when the lessons deserve a place in Farga.
    pub farga_verdict: String,
    pub farga_title: Option<String>,
    pub farga_narrative: Option<String>,
}

/// A connection kept for the next digest.
#[derive(Debug, Clone)]
pub struct DigestEntry {
    pub project_id: ProjectId,
    pub connection_summary: String,
    pub involved_projects: Vec<ProjectId>,
    pub concurrence: Vec<AgentConcurrence>,
    pub urgency: Urgency,
    /// When the agents concerned were told (milliseconds since the Unix epoch).
    pub whispered_at: Option<i64>,
    /// When the connection was first observed (milliseconds since the Unix epoch).
    pub first_observed_at: i64,
}

/// A digest as published.
#[derive(Debug, Clone)]
pub struct DigestPayload {
    pub title: String,
    pub narrative: String,
    pub lessons: Vec<String>,
    pub open_questions: Vec<String>,
    pub period_start: i64,
    pub period_end: i64,
    pub projects_observed: Vec<ProjectId>,
    pub concurrence: Vec<AgentConcurrence>,
}

} // verus!
