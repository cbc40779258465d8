//! Contributions to organizational memory, and where they land.

use vstd::prelude::*;
use crate::farcaster::concurrence::AgentConcurrence;
use crate::types::ProjectId;

verus! {

/// The Farga layer a contribution targets.
#[derive(Debug, Clone, Copy, PartialEq, Eq, Structural)]
pub enum FargaLayer {
    OrgLevel,
    InitiativeLevel,
    ProjectLevel,
}

/// How reversible a decision is.
#[derive(Debug, Clone, Copy, PartialEq, Eq, Structural)]
pub enum ReversibilityLevel {
    FullyReversible,
    EffectsLinger,
    CostlyReversible,
    Irreversible,
}

/// How far a decision reaches.
#[derive(Debug, Clone, Copy, PartialEq, Eq, Structural)]
pub enum ImpactScope {
    Contained,
    CrossProject,
    DomainWide,
    OrgWide,
}

/// A synthesized lesson offered to Farga's governance.
#[derive(Debug, Clone)]
pub struct GovernanceContribution {
    pub title: String,
    pub narrative: String,
    pub lessons: Vec<String>,
    pub open_questions: Vec<String>,
    pub involved_projects: Vec<ProjectId>,
    pub concurrence: Vec<AgentConcurrence>,
    pub target_layer: FargaLayer,
    /// Milliseconds since the Unix epoch.
    pub first_observed_at: i64,
    /// Milliseconds since the Unix epoch.
    pub last_observed_at: i64,
    pub event_count: u32,
    /// Unknown at submission; Farga's assessment fills it in.
    pub reversibility: Option<ReversibilityLevel>,
    /// Unknown at submission; Farga's assessment fills it in.
    pub impact: Option<ImpactScope>,
}

/// The risk factors of a contribution, as exact fractions: how close its layer
/// is to the organization's primitives, how hard it is to reverse and how far
/// it reaches (an unknown level counting as the mildest), each in tenths; how
/// many agents concur, in quarters of the four that make a full signal; how
/// many events it gathers, in tenths of the ten that make a full signal; with
/// whether it is irreversible and whether it reaches the whole organization.
#[derive(Debug, Clone, Copy, PartialEq, Eq, Structural)]
pub struct RiskLevels {
    pub primitive_proximity_tenths: u8,
    pub signal_concurrence_quarters: u8,
    pub signal_velocity_tenths: u8,
    pub reversibility_tenths: u8,
    pub impact_tenths: u8,
    pub is_irreversible: bool,
    pub is_org_wide: bool,
}

/// How close a layer is to the organization's primitives, in tenths.
pub open spec fn proximity_tenths(layer: FargaLayer) -> u8 {
    match layer {
        FargaLayer::OrgLevel => 10,
        FargaLayer::InitiativeLevel => 6,
        FargaLayer::ProjectLevel => 3,
    }
}

/// How hard a decision is to reverse, in tenths; unknown counts as reversible.
pub open spec fn reversibility_level_tenths(r: Option<ReversibilityLevel>) -> u8 {
    match r {
        None => 0,
        Some(ReversibilityLevel::FullyReversible) => 0,
        Some(ReversibilityLevel::EffectsLinger) => 3,
        Some(ReversibilityLevel::CostlyReversible) => 6,
        Some(ReversibilityLevel::Irreversible) => 10,
    }
}

/// How far a decision reaches, in tenths; unknown counts as contained.
pub open spec fn impact_level_tenths(i: Option<ImpactScope>) -> u8 {
    match i {
        None => 0,
        Some(ImpactScope::Contained) => 0,
        Some(ImpactScope::CrossProject) => 3,
        Some(ImpactScope::DomainWide) => 6,
        Some(ImpactScope::OrgWide) => 10,
    }
}

/// A count as a share of `full`, capped at the whole.
pub open spec fn capped(n: int, full: int) -> int {
    if n < full {
        n
    } else {
        full
    }
}

/// The risk factors of `contribution` (see [`RiskLevels`]).
pub fn risk_levels(contribution: &GovernanceContribution) -> (r: RiskLevels)
    ensures
        r.primitive_proximity_tenths == proximity_tenths(contribution.target_layer),
        r.signal_concurrence_quarters == capped(contribution.concurrence@.len() as int, 4),
        r.signal_velocity_tenths == capped(contribution.event_count as int, 10),
        r.reversibility_tenths == reversibility_level_tenths(contribution.reversibility),
        r.impact_tenths == impact_level_tenths(contribution.impact),
        r.is_irreversible == (contribution.reversibility == Some(ReversibilityLevel::Irreversible)),
        r.is_org_wide == (contribution.impact == Some(ImpactScope::OrgWide)),
{
    let primitive_proximity_tenths: u8 = match contribution.target_layer {
        FargaLayer::OrgLevel => 10,
        FargaLayer::InitiativeLevel => 6,
        FargaLayer::ProjectLevel => 3,
    };
    let (reversibility_tenths, is_irreversible): (u8, bool) = match contribution.reversibility {
        None => (0, false),
        Some(ReversibilityLevel::FullyReversible) => (0, false),
        Some(ReversibilityLevel::EffectsLinger) => (3, false),
        Some(ReversibilityLevel::CostlyReversible) => (6, false),
        Some(ReversibilityLevel::Irreversible) => (10, true),
    };
    let (impact_tenths, is_org_wide): (u8, bool) = match contribution.impact {
        None => (0, false),
        Some(ImpactScope::Contained) => (0, false),
        Some(ImpactScope::CrossProject) => (3, false),
        Some(ImpactScope::DomainWide) => (6, false),
        Some(ImpactScope::OrgWide) => (10, true),
    };
    let signal_concurrence_quarters: u8 = if contribution.concurrence.len() < 4 {
        contribution.concurrence.len() as u8
    } else {
        4
    };
    let signal_velocity_tenths: u8 = if contribution.event_count < 10 {
        contribution.event_count as u8
    } else {
        10
    };
    RiskLevels {
        primitive_proximity_tenths,
        signal_concurrence_quarters,
        signal_velocity_tenths,
        reversibility_tenths,
        impact_tenths,
        is_irreversible,
        is_org_wide,
    }
}

} // verus!
