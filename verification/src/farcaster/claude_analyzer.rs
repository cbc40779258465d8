//! What the project-level Farcaster asks its language models and how it reads
//! their answers: which model is asked with what prompt, how a connection the
//! model names becomes a [`CrossSpaceConnection`], and how a reply is accounted.
//! The HTTP exchange itself runs outside the library.

use vstd::prelude::*;
use crate::error::CharradissaError;
use crate::farcaster::analyzer::{CrossSpaceConnection, CrossSpaceSnapshot, DigestEntry, ProjectSnapshot};
use crate::farcaster::concurrence::Urgency;
use crate::farcaster::digest::{parse_urgency, urgency_named};
use crate::farcaster::milestone::{milestone_summary, MilestoneEvent};
use crate::text::{join_strings, joined, push_str, starts_with, string_from, views};
use crate::types::ProjectId;

verus! {

/// The answer budget of a reactive analysis, in tokens.
pub const REACTIVE_MAX_TOKENS: u32 = 512;

/// The answer budget of a digest synthesis, in tokens.
pub const DIGEST_MAX_TOKENS: u32 = 4096;

/// The system prompt of a reactive analysis.
pub const REACTIVE_SYSTEM: &'static str = "You are a cross-project intelligence analyzer. You receive a triggering milestone event and a snapshot of active projects. Identify cross-space connections that are actionable and specific. Return ONLY a JSON array — no prose. If no meaningful connection exists, return [].

Each item: {\"from_project\": str, \"to_project\": str, \"connection_type\": str, \"summary\": str, \"urgency\": str}
connection_type: shared_dependency | solved_problem | conflict | convergence_opportunity
urgency: low | medium | high";

/// The system prompt of a digest synthesis.
pub const DIGEST_SYSTEM: &'static str = "You are a cross-project intelligence synthesizer. Review these cross-space connections observed over the past period. Return ONLY a JSON object — no prose.

Format: {\"connections\": [...str], \"lessons\": [...str], \"open_questions\": [...str], \"farga_verdict\": \"submit\"|\"skip\", \"farga_title\": str|null, \"farga_narrative\": str|null}
Set farga_verdict to \"submit\" only when lessons are substantive enough to contribute to organizational memory.";

/// The error when a grok model is asked for without an xAI key.
pub const XAI_KEY_MISSING: &'static str = "XAI_API_KEY not set for grok model";

/// The keys the project-level analyzer calls its models with.
pub struct ClaudeFarcasterAnalyzer {
    pub anthropic_api_key: String,
    pub xai_api_key: Option<String>,
}

impl ClaudeFarcasterAnalyzer {
    /// An analyzer calling Anthropic with `anthropic_api_key`, and xAI with
    /// `xai_api_key` when there is one.
    pub fn new(anthropic_api_key: String, xai_api_key: Option<String>) -> (a: Self)
        ensures
            a.anthropic_api_key == anthropic_api_key,
            a.xai_api_key == xai_api_key,
    {
        ClaudeFarcasterAnalyzer { anthropic_api_key, xai_api_key }
    }

    /// Where a request for `model` goes (see [`route_for`]).
    pub fn route(&self, model: &str) -> (r: Result<LlmRoute, CharradissaError>)
        ensures
            routed(model@, self.xai_api_key, r),
    {
        route_for(model, &self.xai_api_key)
    }
}

/// Whether `model` is served by xAI rather than Anthropic.
pub open spec fn is_xai_model(model: Seq<char>) -> bool {
    starts_with(model, "grok"@) || starts_with(model, "xai"@)
}

/// Where a request goes.
#[derive(Debug)]
pub enum LlmRoute {
    /// xAI's chat completions, authorised by this key.
    Xai { api_key: String },
    /// Anthropic's messages API, with the analyzer's Anthropic key.
    Anthropic,
}

/// Whether `r` is where a request for `model` goes: xAI for its models, with
/// its key when there is one (a dispatch error naming the missing key
/// otherwise), Anthropic for every other model.
pub open spec fn routed(model: Seq<char>, xai_key: Option<String>, r: Result<LlmRoute, CharradissaError>) -> bool {
    if is_xai_model(model) {
        match xai_key {
            Some(k) => r matches Ok(LlmRoute::Xai { api_key }) && api_key@ == k@,
            None => r matches Err(CharradissaError::Dispatch(m)) && m@ == XAI_KEY_MISSING@,
        }
    } else {
        r matches Ok(LlmRoute::Anthropic)
    }
}

fn prefix_is(model: &str, p: &str) -> (b: bool)
    ensures
        b == starts_with(model@, p@),
{
    let v = crate::text::chars_of(model);
    let pv = crate::text::chars_of(p);
    assert(v@.subrange(0, v@.len() as int) =~= v@);
    crate::text::starts_with_exec(&v, 0, v.len(), &pv)
}

/// Where a request for `model` goes (see [`routed`]).
pub fn route_for(model: &str, xai_key: &Option<String>) -> (r: Result<LlmRoute, CharradissaError>)
    ensures
        routed(model@, *xai_key, r),
{
    if prefix_is(model, "grok") || prefix_is(model, "xai") {
        match xai_key {
            Some(k) => Ok(LlmRoute::Xai { api_key: string_from(k.as_str()) }),
            None => Err(CharradissaError::Dispatch(string_from(XAI_KEY_MISSING))),
        }
    } else {
        Ok(LlmRoute::Anthropic)
    }
}

/// Anthropic's messages endpoint.
pub const ANTHROPIC_MESSAGES_URL: &'static str = "https://api.anthropic.com/v1/messages";

/// The Anthropic API version the requests are written for.
pub const ANTHROPIC_VERSION: &'static str = "2023-06-01";

/// xAI's chat completions endpoint.
pub const XAI_COMPLETIONS_URL: &'static str = "https://api.x.ai/v1/chat/completions";

/// The value of an `Authorization` header carrying `key`.
pub fn bearer(key: &str) -> (h: String)
    ensures
        h@ == "Bearer "@ + key@,
{
    let mut h = string_from("Bearer ");
    push_str(&mut h, key);
    h
}

/// What a model answered and what it cost, as the library reads a reply: for
/// xAI the answer's text (empty when missing) and a quarter of its length in
/// bytes, xAI giving no count of its own; for Anthropic the error it reports as
/// a dispatch error, else the answer's text (empty when missing) and the
/// output tokens it counts (0 when missing), taken modulo 2^32.
pub open spec fn reply_read(
    route: LlmRoute,
    error: Option<String>,
    text: Option<String>,
    output_tokens: Option<u64>,
    r: Result<(String, u32), CharradissaError>,
) -> bool {
    match route {
        LlmRoute::Xai { .. } => r matches Ok((t, n)) && t@ == crate::text::str_or_empty(text)
            && n == ((utf8_bytes(crate::text::str_or_empty(text)) as usize) / 4) as u32,
        LlmRoute::Anthropic => match error {
            Some(e) => r matches Err(CharradissaError::Dispatch(m)) && m@ == e@,
            None => r matches Ok((t, n)) && t@ == crate::text::str_or_empty(text) && n == (
            match output_tokens {
                Some(k) => k,
                None => 0,
            }) as u32,
        },
    }
}

/// The number of bytes of `t` in UTF-8.
pub open spec fn utf8_bytes(t: Seq<char>) -> nat {
    vstd::utf8::encode_utf8(t).len()
}

/// Reads a model's reply (see [`reply_read`]): `error` is the error the reply
/// reports, `text` its answer, `output_tokens` the count it gives.
pub fn read_reply(
    route: &LlmRoute,
    error: Option<String>,
    text: Option<String>,
    output_tokens: Option<u64>,
) -> (r: Result<(String, u32), CharradissaError>)
    ensures
        reply_read(*route, error, text, output_tokens, r),
{
    let answer = crate::text::or_empty_string(&text);
    match route {
        LlmRoute::Xai { .. } => {
            let n = answer.as_str().len() / 4;
            Ok((answer, n as u32))
        },
        LlmRoute::Anthropic => match error {
            Some(e) => Err(CharradissaError::Dispatch(e)),
            None => {
                let k = match output_tokens {
                    Some(k) => k,
                    None => 0,
                };
                Ok((answer, k as u32))
            },
        },
    }
}

// ─────────────────────────────── prompts ───────────────────────────────

/// The text of an optional string, `(unknown)` when absent.
pub open spec fn or_unknown(o: Option<String>) -> Seq<char> {
    match o {
        Some(s) => s@,
        None => "(unknown)"@,
    }
}

/// A project as the reactive prompt shows it.
pub open spec fn project_text(p: ProjectSnapshot) -> Seq<char> {
    "Project: "@ + p.project_id@ + "\nGoal: "@ + or_unknown(p.mission_goal) + "\nOpen: "@ + joined(
        views(p.open_sub_objectives@),
        ", "@,
    ) + "\nRecent events:\n"@ + joined(views(p.recent_events@), "\n  "@)
}

/// The projects of a snapshot as the reactive prompt shows them.
pub open spec fn project_texts(ps: Seq<ProjectSnapshot>) -> Seq<Seq<char>> {
    ps.map_values(|p: ProjectSnapshot| project_text(p))
}

/// The prompt of a reactive analysis: the milestone, then each project.
pub open spec fn reactive_prompt_text(event: MilestoneEvent, snapshot: CrossSpaceSnapshot) -> Seq<
    char,
> {
    "Triggering event: "@ + milestone_summary(event) + "\n\nProject snapshots:\n"@ + joined(
        project_texts(snapshot.projects@),
        "\n\n"@,
    )
}

fn project_prompt(p: &ProjectSnapshot) -> (s: String)
    ensures
        s@ == project_text(*p),
{
    let mut s = string_from("Project: ");
    push_str(&mut s, p.project_id.as_str());
    push_str(&mut s, "\nGoal: ");
    match &p.mission_goal {
        Some(g) => push_str(&mut s, g.as_str()),
        None => push_str(&mut s, "(unknown)"),
    }
    push_str(&mut s, "\nOpen: ");
    let open = join_strings(&p.open_sub_objectives, ", ");
    push_str(&mut s, open.as_str());
    push_str(&mut s, "\nRecent events:\n");
    let recent = join_strings(&p.recent_events, "\n  ");
    push_str(&mut s, recent.as_str());
    s
}

/// The prompt of a reactive analysis of `event` (see [`reactive_prompt_text`]).
pub fn reactive_prompt(event: &MilestoneEvent, snapshot: &CrossSpaceSnapshot) -> (s: String)
    ensures
        s@ == reactive_prompt_text(*event, *snapshot),
{
    let mut texts: Vec<String> = Vec::new();
    let mut i: usize = 0;
    while i < snapshot.projects.len()
        invariant
            i <= snapshot.projects@.len(),
            texts@.len() == i,
            forall|k: int| 0 <= k < i ==> (#[trigger] texts@[k])@ == project_text(snapshot.projects@[k]),
        decreases snapshot.projects.len() - i,
    {
        texts.push(project_prompt(&snapshot.projects[i]));
        i = i + 1;
    }
    assert(views(texts@) =~= project_texts(snapshot.projects@));
    let mut s = string_from("Triggering event: ");
    let summary = event.summary();
    push_str(&mut s, summary.as_str());
    push_str(&mut s, "\n\nProject snapshots:\n");
    let all = join_strings(&texts, "\n\n");
    push_str(&mut s, all.as_str());
    s
}

/// How an urgency is printed for debugging (`{:?}`).
pub open spec fn urgency_text(u: Urgency) -> Seq<char> {
    match u {
        Urgency::Low => "Low"@,
        Urgency::Medium => "Medium"@,
        Urgency::High => "High"@,
    }
}

/// How an urgency is printed for debugging (see [`urgency_text`]).
pub fn urgency_name(u: Urgency) -> (s: &'static str)
    ensures
        s@ == urgency_text(u),
{
    match u {
        Urgency::Low => "Low",
        Urgency::Medium => "Medium",
        Urgency::High => "High",
    }
}

/// The `i`-th project of `ps`, `?` when there is none.
pub open spec fn project_or_mark(ps: Seq<ProjectId>, i: int) -> Seq<char> {
    if 0 <= i < ps.len() {
        ps[i]@
    } else {
        "?"@
    }
}

/// How `b` is printed.
pub open spec fn bool_text(b: bool) -> Seq<char> {
    if b {
        "true"@
    } else {
        "false"@
    }
}

/// An entry as the digest prompt shows it: its first two projects, its
/// summary, its urgency and whether the agents were told.
pub open spec fn entry_text(e: DigestEntry) -> Seq<char> {
    "- ["@ + project_or_mark(e.involved_projects@, 0) + " → "@ + project_or_mark(
        e.involved_projects@,
        1,
    ) + "] "@ + e.connection_summary@ + " (urgency: "@ + urgency_text(e.urgency)
        + ", whispered: "@ + bool_text(e.whispered_at is Some) + ")"@
}

/// The entries as the digest prompt shows them.
pub open spec fn entry_texts(es: Seq<DigestEntry>) -> Seq<Seq<char>> {
    es.map_values(|e: DigestEntry| entry_text(e))
}

/// The prompt of a digest synthesis over `entries`.
pub open spec fn digest_prompt_text(entries: Seq<DigestEntry>) -> Seq<char> {
    "Connections observed:\n"@ + joined(entry_texts(entries), "\n"@)
}

fn entry_prompt(e: &DigestEntry) -> (s: String)
    ensures
        s@ == entry_text(*e),
{
    let mut s = string_from("- [");
    let n = e.involved_projects.len();
    if n > 0 {
        push_str(&mut s, e.involved_projects[0].as_str());
    } else {
        push_str(&mut s, "?");
    }
    push_str(&mut s, " → ");
    if n > 1 {
        push_str(&mut s, e.involved_projects[1].as_str());
    } else {
        push_str(&mut s, "?");
    }
    push_str(&mut s, "] ");
    push_str(&mut s, e.connection_summary.as_str());
    push_str(&mut s, " (urgency: ");
    push_str(&mut s, urgency_name(e.urgency));
    push_str(&mut s, ", whispered: ");
    if e.whispered_at.is_some() {
        push_str(&mut s, "true");
    } else {
        push_str(&mut s, "false");
    }
    push_str(&mut s, ")");
    s
}

/// The prompt of a digest synthesis over `entries` (see [`digest_prompt_text`]).
pub fn digest_prompt(entries: &Vec<DigestEntry>) -> (s: String)
    ensures
        s@ == digest_prompt_text(entries@),
{
    let mut texts: Vec<String> = Vec::new();
    let mut i: usize = 0;
    while i < entries.len()
        invariant
            i <= entries@.len(),
            texts@.len() == i,
            forall|k: int| 0 <= k < i ==> (#[trigger] texts@[k])@ == entry_text(entries@[k]),
        decreases entries.len() - i,
    {
        texts.push(entry_prompt(&entries[i]));
        i = i + 1;
    }
    assert(views(texts@) =~= entry_texts(entries@));
    let mut s = string_from("Connections observed:\n");
    let all = join_strings(&texts, "\n");
    push_str(&mut s, all.as_str());
    s
}

/// A connection as the reactive analysis names it: its two projects, its
/// kind, its summary and the urgency named by `urgency` (see [`urgency_named`]).
pub fn connection_from(
    from_project: &str,
    to_project: &str,
    connection_type: String,
    summary: String,
    urgency: &str,
) -> (c: CrossSpaceConnection)
    ensures
        c.from_project@ == from_project@,
        c.to_project@ == to_project@,
        c.connection_type == connection_type,
        c.summary == summary,
        c.urgency == urgency_named(urgency@),
{
    CrossSpaceConnection {
        from_project: ProjectId::new(from_project),
        to_project: ProjectId::new(to_project),
        connection_type,
        summary,
        urgency: parse_urgency(urgency),
    }
}

} // verus!
