//! Farga, the stack's durable memory: what is written to it, and the requests
//! its HTTP writer makes.

use vstd::prelude::*;
use crate::text::{decimal, push_decimal, push_str, string_from};

verus! {

/// A signal written to Farga.
#[derive(Debug, Clone)]
pub struct Signal {
    pub project: String,
    pub content: String,
    pub source: String,
}

/// How a governance review ended.
#[derive(Debug, Clone, Copy, PartialEq, Eq, Structural)]
pub enum GovernanceOutcome {
    Approved,
    Rejected,
    Deferred,
    ApprovedWithConditions,
}

/// The status word of an outcome, as Farga records it.
pub open spec fn status_word(o: GovernanceOutcome) -> Seq<char> {
    match o {
        GovernanceOutcome::Approved => "approved"@,
        GovernanceOutcome::Rejected => "rejected"@,
        GovernanceOutcome::Deferred => "deferred"@,
        GovernanceOutcome::ApprovedWithConditions => "approved_with_conditions"@,
    }
}

impl GovernanceOutcome {
    /// The status word of the outcome.
    pub fn as_status_str(&self) -> (s: &'static str)
        ensures
            s@ == status_word(*self),
    {
        match self {
            GovernanceOutcome::Approved => "approved",
            GovernanceOutcome::Rejected => "rejected",
            GovernanceOutcome::Deferred => "deferred",
            GovernanceOutcome::ApprovedWithConditions => "approved_with_conditions",
        }
    }
}

/// A governance decision on a Farga node.
#[derive(Debug, Clone)]
pub struct GovernanceDecision {
    pub node_id: String,
    pub outcome: GovernanceOutcome,
    pub rationale: String,
}

/// Farga's assessment of a contribution.
#[derive(Debug, Clone)]
pub struct AssessmentResult {
    pub status: String,
    pub reversibility: Option<String>,
    pub impact: Option<String>,
}

/// The assessment read from Farga's answer: its `status` (`pending` when absent),
/// `reversibility` and `impact`.
pub fn assessment_of(status: Option<String>, reversibility: Option<String>, impact: Option<String>) -> (a: AssessmentResult)
    ensures
        a.status@ == match status {
            Some(s) => s@,
            None => "pending"@,
        },
        a.reversibility == reversibility,
        a.impact == impact,
{
    AssessmentResult {
        status: match status {
            Some(s) => s,
            None => string_from("pending"),
        },
        reversibility,
        impact,
    }
}

/// The signal through which a writer without a governance endpoint records a
/// contribution (`content_json`, the contribution as JSON).
pub fn governance_signal(content_json: String) -> (s: Signal)
    ensures
        s.project@ == "system"@,
        s.content@ == content_json@,
        s.source@ == "farcaster-governance"@,
{
    Signal {
        project: string_from("system"),
        content: content_json,
        source: string_from("farcaster-governance"),
    }
}

/// The decimal text of a signed number.
pub open spec fn signed_decimal(x: int) -> Seq<char> {
    if x < 0 {
        "-"@ + decimal((-x) as nat)
    } else {
        decimal(x as nat)
    }
}

/// Farga's HTTP writer: the requests it makes, relative to `base_url`.
pub struct HttpFargaWriter {
    pub base_url: String,
}

impl HttpFargaWriter {
    pub fn new(base_url: String) -> (w: Self)
        ensures
            w.base_url == base_url,
    {
        HttpFargaWriter { base_url }
    }

    fn url(&self, path: &str) -> (u: String)
        ensures
            u@ == self.base_url@ + path@,
    {
        let mut s = string_from(self.base_url.as_str());
        push_str(&mut s, path);
        s
    }

    /// Where signals are written.
    pub fn signals_url(&self) -> (u: String)
        ensures
            u@ == self.base_url@ + "/signals"@,
    {
        self.url("/signals")
    }

    /// Where the signals of `project` from the last `hours` hours are read.
    pub fn recent_signals_url(&self, project: &str, hours: i64) -> (u: String)
        ensures
            u@ == self.base_url@ + "/signals/recent?project="@ + project@ + "&since="@
                + signed_decimal(hours as int) + "h"@,
    {
        let mut s = self.url("/signals/recent?project=");
        push_str(&mut s, project);
        push_str(&mut s, "&since=");
        if hours < 0 {
            push_str(&mut s, "-");
            let m = (-(hours as i128)) as u64;
            push_decimal(&mut s, m);
        } else {
            push_decimal(&mut s, hours as u64);
        }
        push_str(&mut s, "h");
        s
    }

    /// Where governance contributions are submitted.
    pub fn governance_url(&self) -> (u: String)
        ensures
            u@ == self.base_url@ + "/governance"@,
    {
        self.url("/governance")
    }

    /// Where governance decisions are submitted.
    pub fn decisions_url(&self) -> (u: String)
        ensures
            u@ == self.base_url@ + "/governance/decisions"@,
    {
        self.url("/governance/decisions")
    }

    /// Where the assessment of node `node_id` is read.
    pub fn assessment_url(&self, node_id: &str) -> (u: String)
        ensures
            u@ == self.base_url@ + "/governance/assessments/"@ + node_id@,
    {
        let mut s = self.url("/governance/assessments/");
        push_str(&mut s, node_id);
        s
    }
}

} // verus!
