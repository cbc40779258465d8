//! What the cross-domain Farcaster asks Anthropic's models: the prompts of its
//! reactive analyses and digest syntheses, and how a connection the model names
//! becomes a [`CrossDomainConnection`]. Models, budgets and the reading of a
//! reply are those of the project-level analyzer.

use vstd::prelude::*;
use crate::farcaster::claude_analyzer::{urgency_name, urgency_text};
use crate::farcaster::cross_domain::{CrossDomainConnection, CrossDomainEntry, CrossDomainSnapshot, DomainSnapshot};
use crate::farcaster::digest::{parse_urgency, urgency_named};
use crate::farcaster::observation::{digest_summary, DomainDigestEvent};
use crate::text::{join_strings, joined, push_str, string_from, views};

verus! {

/// The system prompt of a cross-domain reactive analysis.
pub const CROSS_DOMAIN_REACTIVE_SYSTEM: &'static str = "You are a cross-domain intelligence analyzer. You receive a triggering domain digest and a snapshot of all active domains. Identify cross-domain connections that are actionable and specific. Return ONLY a JSON array — no prose. If no meaningful connection exists, return [].

Each item: {\"from_domain\": str, \"to_domain\": str, \"connection_type\": str, \"summary\": str, \"urgency\": str}
connection_type: shared_dependency | solved_problem | conflict | convergence_opportunity | architectural_impact
urgency: low | medium | high";

/// The system prompt of a cross-domain digest synthesis.
pub const CROSS_DOMAIN_DIGEST_SYSTEM: &'static str = "You are a cross-domain intelligence synthesizer. Review these cross-domain connections observed over the past period. Return ONLY a JSON object — no prose.

Format: {\"connections\": [...str], \"lessons\": [...str], \"open_questions\": [...str], \"farga_verdict\": \"submit\"|\"skip\", \"farga_title\": str|null, \"farga_narrative\": str|null}
Set farga_verdict to \"submit\" only when lessons are substantive enough to contribute to organizational memory at the org-wide level. These are cross-domain patterns, not project-level ones.";

/// The key the cross-domain analyzer calls Anthropic with.
pub struct ClaudeCrossDomainAnalyzer {
    pub api_key: String,
}

impl ClaudeCrossDomainAnalyzer {
    /// An analyzer calling Anthropic with `api_key`.
    pub fn new(api_key: String) -> (a: Self)
        ensures
            a.api_key == api_key,
    {
        ClaudeCrossDomainAnalyzer { api_key }
    }
}

/// A domain as the cross-domain reactive prompt shows it.
pub open spec fn domain_text(d: DomainSnapshot) -> Seq<char> {
    "Domain: "@ + d.domain@ + "\nRecent digests:\n  "@ + joined(views(d.recent_digests@), "\n  "@)
}

/// The domains of a snapshot as the reactive prompt shows them.
pub open spec fn domain_texts(ds: Seq<DomainSnapshot>) -> Seq<Seq<char>> {
    ds.map_values(|d: DomainSnapshot| domain_text(d))
}

/// The prompt of a cross-domain reactive analysis: the digest, its narrative
/// and lessons, then each domain.
pub open spec fn cross_domain_prompt_text(event: DomainDigestEvent, snapshot: CrossDomainSnapshot) -> Seq<
    char,
> {
    "Triggering domain digest: "@ + digest_summary(event) + "\nNarrative: "@ + event.narrative@
        + "\nLessons: "@ + joined(views(event.lessons@), "; "@) + "\n\nAll domain snapshots:\n"@
        + joined(domain_texts(snapshot.domains@), "\n\n"@)
}

fn domain_prompt(d: &DomainSnapshot) -> (s: String)
    ensures
        s@ == domain_text(*d),
{
    let mut s = string_from("Domain: ");
    push_str(&mut s, d.domain.as_str());
    push_str(&mut s, "\nRecent digests:\n  ");
    let recent = join_strings(&d.recent_digests, "\n  ");
    push_str(&mut s, recent.as_str());
    s
}

/// The prompt of a cross-domain reactive analysis of `event` (see
/// [`cross_domain_prompt_text`]).
pub fn cross_domain_prompt(event: &DomainDigestEvent, snapshot: &CrossDomainSnapshot) -> (s: String)
    ensures
        s@ == cross_domain_prompt_text(*event, *snapshot),
{
    let mut texts: Vec<String> = Vec::new();
    let mut i: usize = 0;
    while i < snapshot.domains.len()
        invariant
            i <= snapshot.domains@.len(),
            texts@.len() == i,
            forall|k: int| 0 <= k < i ==> (#[trigger] texts@[k])@ == domain_text(snapshot.domains@[k]),
        decreases snapshot.domains.len() - i,
    {
        texts.push(domain_prompt(&snapshot.domains[i]));
        i = i + 1;
    }
    assert(views(texts@) =~= domain_texts(snapshot.domains@));
    let mut s = string_from("Triggering domain digest: ");
    let summary = event.summary();
    push_str(&mut s, summary.as_str());
    push_str(&mut s, "\nNarrative: ");
    push_str(&mut s, event.narrative.as_str());
    push_str(&mut s, "\nLessons: ");
    let lessons = join_strings(&event.lessons, "; ");
    push_str(&mut s, lessons.as_str());
    push_str(&mut s, "\n\nAll domain snapshots:\n");
    let all = join_strings(&texts, "\n\n");
    push_str(&mut s, all.as_str());
    s
}

/// The `i`-th domain of `ds`, `?` when there is none.
pub open spec fn domain_or_mark(ds: Seq<String>, i: int) -> Seq<char> {
    if 0 <= i < ds.len() {
        ds[i]@
    } else {
        "?"@
    }
}

/// An entry as the cross-domain digest prompt shows it.
pub open spec fn cross_entry_text(e: CrossDomainEntry) -> Seq<char> {
    "- ["@ + domain_or_mark(e.involved_domains@, 0) + " → "@ + domain_or_mark(
        e.involved_domains@,
        1,
    ) + "] "@ + e.connection_summary@ + " (urgency: "@ + urgency_text(e.urgency) + ")"@
}

/// The entries as the cross-domain digest prompt shows them.
pub open spec fn cross_entry_texts(es: Seq<CrossDomainEntry>) -> Seq<Seq<char>> {
    es.map_values(|e: CrossDomainEntry| cross_entry_text(e))
}

/// The prompt of a cross-domain digest synthesis over `entries`.
pub open spec fn cross_digest_prompt_text(entries: Seq<CrossDomainEntry>) -> Seq<char> {
    "Cross-domain connections observed:\n"@ + joined(cross_entry_texts(entries), "\n"@)
}

fn cross_entry_prompt(e: &CrossDomainEntry) -> (s: String)
    ensures
        s@ == cross_entry_text(*e),
{
    let mut s = string_from("- [");
    let n = e.involved_domains.len();
    if n > 0 {
        push_str(&mut s, e.involved_domains[0].as_str());
    } else {
        push_str(&mut s, "?");
    }
    push_str(&mut s, " → ");
    if n > 1 {
        push_str(&mut s, e.involved_domains[1].as_str());
    } else {
        push_str(&mut s, "?");
    }
    push_str(&mut s, "] ");
    push_str(&mut s, e.connection_summary.as_str());
    push_str(&mut s, " (urgency: ");
    push_str(&mut s, urgency_name(e.urgency));
    push_str(&mut s, ")");
    s
}

/// The prompt of a cross-domain digest synthesis over `entries` (see
/// [`cross_digest_prompt_text`]).
pub fn cross_digest_prompt(entries: &Vec<CrossDomainEntry>) -> (s: String)
    ensures
        s@ == cross_digest_prompt_text(entries@),
{
    let mut texts: Vec<String> = Vec::new();
    let mut i: usize = 0;
    while i < entries.len()
        invariant
            i <= entries@.len(),
            texts@.len() == i,
            forall|k: int| 0 <= k < i ==> (#[trigger] texts@[k])@ == cross_entry_text(entries@[k]),
        decreases entries.len() - i,
    {
        texts.push(cross_entry_prompt(&entries[i]));
        i = i + 1;
    }
    assert(views(texts@) =~= cross_entry_texts(entries@));
    let mut s = string_from("Cross-domain connections observed:\n");
    let all = join_strings(&texts, "\n");
    push_str(&mut s, all.as_str());
    s
}

/// A connection as the cross-domain analysis names it, its urgency read from
/// `urgency` (see [`urgency_named`]).
pub fn cross_connection_from(
    from_domain: String,
    to_domain: String,
    connection_type: String,
    summary: String,
    urgency: &str,
) -> (c: CrossDomainConnection)
    ensures
        c.from_domain == from_domain,
        c.to_domain == to_domain,
        c.connection_type == connection_type,
        c.summary == summary,
        c.urgency == urgency_named(urgency@),
{
    CrossDomainConnection {
        from_domain,
        to_domain,
        connection_type,
        summary,
        urgency: parse_urgency(urgency),
    }
}

} // verus!
