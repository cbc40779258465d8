//! Milestones reported by project agents.

use vstd::prelude::*;
use crate::text::{decimal, push_decimal, push_str, string_from};
use crate::types::ProjectId;

verus! {

/// A milestone of a project's mission.
#[derive(Debug, Clone)]
pub enum MilestoneEvent {
    ArtifactProduced {
        mission_id: String,
        session_id: String,
        project_id: ProjectId,
        canvas_id: String,
        artifact_summary: String,
        sub_objective_ids: Vec<String>,
    },
    EvaluationCompleted {
        mission_id: String,
        project_id: ProjectId,
        sub_objective_id: String,
        satisfied: bool,
        reason: String,
    },
    ReplanTriggered {
        mission_id: String,
        project_id: ProjectId,
        sub_objective_id: String,
        reason: String,
        replan_count: u32,
    },
    MissionCompleted {
        mission_id: String,
        project_id: ProjectId,
        goal: String,
        completed_sub_objectives: Vec<String>,
        verdict: String,
    },
}

/// The project a milestone belongs to.
pub open spec fn milestone_project(e: MilestoneEvent) -> Seq<char> {
    match e {
        MilestoneEvent::ArtifactProduced { project_id, .. } => project_id@,
        MilestoneEvent::EvaluationCompleted { project_id, .. } => project_id@,
        MilestoneEvent::ReplanTriggered { project_id, .. } => project_id@,
        MilestoneEvent::MissionCompleted { project_id, .. } => project_id@,
    }
}

/// A one-line account of a milestone.
pub open spec fn milestone_summary(e: MilestoneEvent) -> Seq<char> {
    match e {
        MilestoneEvent::ArtifactProduced { canvas_id, artifact_summary, .. } =>
            "produced artifact on canvas "@ + canvas_id@ + ": "@ + artifact_summary@,
        MilestoneEvent::EvaluationCompleted { sub_objective_id, satisfied, reason, .. } =>
            "evaluation for "@ + sub_objective_id@ + " "@ + (if satisfied {
            "succeeded"@
        } else {
            "failed"@
        }) + ": "@ + reason@,
        MilestoneEvent::ReplanTriggered { sub_objective_id, reason, replan_count, .. } =>
            "replan #"@ + decimal(replan_count as nat) + " for "@ + sub_objective_id@ + ": "@
            + reason@,
        MilestoneEvent::MissionCompleted { goal, verdict, .. } => "mission '"@ + goal@
            + "' completed ("@ + verdict@ + ")"@,
    }
}

/// Whether a milestone is worth a cross-space analysis: an artifact, a satisfied
/// evaluation, a second or later replan, a completed mission.
pub open spec fn significant(e: MilestoneEvent) -> bool {
    match e {
        MilestoneEvent::ArtifactProduced { .. } => true,
        MilestoneEvent::EvaluationCompleted { satisfied, .. } => satisfied,
        MilestoneEvent::ReplanTriggered { replan_count, .. } => replan_count >= 2,
        MilestoneEvent::MissionCompleted { .. } => true,
    }
}

impl MilestoneEvent {
    /// The project the milestone belongs to.
    pub fn project_id(&self) -> (p: &ProjectId)
        ensures
            p@ == milestone_project(*self),
    {
        match self {
            MilestoneEvent::ArtifactProduced { project_id, .. } => project_id,
            MilestoneEvent::EvaluationCompleted { project_id, .. } => project_id,
            MilestoneEvent::ReplanTriggered { project_id, .. } => project_id,
            MilestoneEvent::MissionCompleted { project_id, .. } => project_id,
        }
    }

    /// A one-line account of the milestone.
    pub fn summary(&self) -> (s: String)
        ensures
            s@ == milestone_summary(*self),
    {
        match self {
            MilestoneEvent::ArtifactProduced { canvas_id, artifact_summary, .. } => {
                let mut s = string_from("produced artifact on canvas ");
                push_str(&mut s, canvas_id.as_str());
                push_str(&mut s, ": ");
                push_str(&mut s, artifact_summary.as_str());
                s
            },
            MilestoneEvent::EvaluationCompleted { sub_objective_id, satisfied, reason, .. } => {
                let mut s = string_from("evaluation for ");
                push_str(&mut s, sub_objective_id.as_str());
                push_str(&mut s, " ");
                push_str(
                    &mut s,
                    if *satisfied {
                        "succeeded"
                    } else {
                        "failed"
                    },
                );
                push_str(&mut s, ": ");
                push_str(&mut s, reason.as_str());
                s
            },
            MilestoneEvent::ReplanTriggered { sub_objective_id, reason, replan_count, .. } => {
                let mut s = string_from("replan #");
                push_decimal(&mut s, *replan_count as u64);
                push_str(&mut s, " for ");
                push_str(&mut s, sub_objective_id.as_str());
                push_str(&mut s, ": ");
                push_str(&mut s, reason.as_str());
                s
            },
            MilestoneEvent::MissionCompleted { goal, verdict, .. } => {
                let mut s = string_from("mission '");
                push_str(&mut s, goal.as_str());
                push_str(&mut s, "' completed (");
                push_str(&mut s, verdict.as_str());
                push_str(&mut s, ")");
                s
            },
        }
    }

    /// Whether the milestone is worth a cross-space analysis.
    pub fn is_significant(&self) -> (b: bool)
        ensures
            b == significant(*self),
    {
        match self {
            MilestoneEvent::ArtifactProduced { .. } => true,
            MilestoneEvent::EvaluationCompleted { satisfied, .. } => *satisfied,
            MilestoneEvent::ReplanTriggered { replan_count, .. } => *replan_count >= 2,
            MilestoneEvent::MissionCompleted { .. } => true,
        }
    }
}

} // verus!
