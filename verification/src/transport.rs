//! How an Amassada session shows in a Matrix room: the text posted for each
//! session event, the prompt of a consultation, and the report of a session's
//! output. The session runtime and the room are driven from outside.

use vstd::prelude::*;
use crate::text::{before_char, before_char_exec, join_strings, joined, push_str, string_from, views};

verus! {

/// The answer budget of a consultation, in tokens.
pub const CONSULT_MAX_TOKENS: u32 = 1024;

/// A session event, as far as the room shows it.
#[derive(Debug, Clone)]
pub enum SessionNotice {
    /// An agent finished a turn.
    TurnCompleted { agent_id: String, persona: String, content: String },
    /// A new round began.
    RoundStarted { round: u32 },
    /// An agent passed a side remark to another.
    BtwEmitted { from: String, to: String, content: String },
    /// The session asks for a human approval.
    ApprovalRequested { reason: String },
    /// An artifact is ready.
    ArtifactCompleted { title: String },
    /// The session ended.
    SessionCompleted,
    /// The moderator acted.
    ModeratorAction { action: String },
    /// Any other event, by its debug text.
    Other { debug: String },
}

/// The text posted in the room for a session event.
pub open spec fn notice_text(e: SessionNotice) -> Seq<char> {
    match e {
        SessionNotice::TurnCompleted { agent_id, persona, content } => "**["@ + agent_id@ + " / "@
            + persona@ + "]**\n"@ + content@,
        SessionNotice::RoundStarted { round } => "--- Round "@ + crate::text::decimal(round as nat)
            + " ---"@,
        SessionNotice::BtwEmitted { from, to, content } => "*[btw from "@ + from@ + " to "@ + to@
            + "]* "@ + content@,
        SessionNotice::ApprovalRequested { reason } => "Approval requested: "@ + reason@,
        SessionNotice::ArtifactCompleted { title } => "Artifact ready: **"@ + title@ + "**"@,
        SessionNotice::SessionCompleted => "Session complete."@,
        SessionNotice::ModeratorAction { action } => "*[moderator: "@ + action@ + "]*"@,
        SessionNotice::Other { debug } => debug@,
    }
}

/// The text posted in the room for a session event (see [`notice_text`]).
pub fn format_event(event: &SessionNotice) -> (s: String)
    ensures
        s@ == notice_text(*event),
{
    match event {
        SessionNotice::TurnCompleted { agent_id, persona, content } => {
            let mut s = string_from("**[");
            push_str(&mut s, agent_id.as_str());
            push_str(&mut s, " / ");
            push_str(&mut s, persona.as_str());
            push_str(&mut s, "]**\n");
            push_str(&mut s, content.as_str());
            s
        },
        SessionNotice::RoundStarted { round } => {
            let mut s = string_from("--- Round ");
            crate::text::push_decimal(&mut s, *round as u64);
            push_str(&mut s, " ---");
            s
        },
        SessionNotice::BtwEmitted { from, to, content } => {
            let mut s = string_from("*[btw from ");
            push_str(&mut s, from.as_str());
            push_str(&mut s, " to ");
            push_str(&mut s, to.as_str());
            push_str(&mut s, "]* ");
            push_str(&mut s, content.as_str());
            s
        },
        SessionNotice::ApprovalRequested { reason } => {
            let mut s = string_from("Approval requested: ");
            push_str(&mut s, reason.as_str());
            s
        },
        SessionNotice::ArtifactCompleted { title } => {
            let mut s = string_from("Artifact ready: **");
            push_str(&mut s, title.as_str());
            push_str(&mut s, "**");
            s
        },
        SessionNotice::SessionCompleted => string_from("Session complete."),
        SessionNotice::ModeratorAction { action } => {
            let mut s = string_from("*[moderator: ");
            push_str(&mut s, action.as_str());
            push_str(&mut s, "]*");
            s
        },
        SessionNotice::Other { debug } => string_from(debug.as_str()),
    }
}

/// The persona a consulted agent is asked as: its id up to the first `-`
/// (`builder-1` is asked as `builder`).
pub open spec fn persona_hint(target: Seq<char>) -> Seq<char> {
    before_char(target, '-')
}

/// The system prompt of a consultation of `target`.
pub open spec fn consult_system_text(target: Seq<char>) -> Seq<char> {
    "You are "@ + persona_hint(target)
        + " — a specialist agent. Answer the following question concisely and with practical, expert-level insight. Respond only with the answer, no preamble."@
}

/// The system prompt of a consultation of `target` (see [`consult_system_text`]).
pub fn consult_system_prompt(target: &str) -> (s: String)
    ensures
        s@ == consult_system_text(target@),
{
    let mut s = string_from("You are ");
    let hint = before_char_exec(target, '-');
    push_str(&mut s, hint.as_str());
    push_str(
        &mut s,
        " — a specialist agent. Answer the following question concisely and with practical, expert-level insight. Respond only with the answer, no preamble.",
    );
    s
}

/// An artifact of a session's output.
#[derive(Debug, Clone)]
pub struct OutputArtifact {
    pub title: String,
    pub content: String,
}

/// An artifact as the output report shows it.
pub open spec fn artifact_text(a: OutputArtifact) -> Seq<char> {
    "### "@ + a.title@ + "\n"@ + a.content@
}

/// The artifacts as the output report shows them.
pub open spec fn artifact_texts(artifacts: Seq<OutputArtifact>) -> Seq<Seq<char>> {
    artifacts.map_values(|a: OutputArtifact| artifact_text(a))
}

/// The report posted in the room for a session's output on `canvas_id`.
pub open spec fn output_report_text(canvas_id: Seq<char>, artifacts: Seq<OutputArtifact>) -> Seq<char> {
    "**Session Output** ("@ + canvas_id + ")\n\n"@ + joined(artifact_texts(artifacts), "\n\n"@)
}

/// The report posted in the room for a session's output (see
/// [`output_report_text`]).
pub fn output_report(canvas_id: &str, artifacts: &Vec<OutputArtifact>) -> (s: String)
    ensures
        s@ == output_report_text(canvas_id@, artifacts@),
{
    let mut texts: Vec<String> = Vec::new();
    let mut i: usize = 0;
    while i < artifacts.len()
        invariant
            i <= artifacts@.len(),
            texts@.len() == i,
            forall|k: int| 0 <= k < i ==> (#[trigger] texts@[k])@ == artifact_text(artifacts@[k]),
        decreases artifacts.len() - i,
    {
        let mut t = string_from("### ");
        push_str(&mut t, artifacts[i].title.as_str());
        push_str(&mut t, "\n");
        push_str(&mut t, artifacts[i].content.as_str());
        texts.push(t);
        i = i + 1;
    }
    assert(views(texts@) =~= artifact_texts(artifacts@));
    let mut s = string_from("**Session Output** (");
    push_str(&mut s, canvas_id);
    push_str(&mut s, ")\n\n");
    let all = join_strings(&texts, "\n\n");
    push_str(&mut s, all.as_str());
    s
}

} // verus!
