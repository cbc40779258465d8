//! Slash commands typed in a project room, and the tool-approval policy.

use vstd::prelude::*;
use crate::text::{
    chars_of, eq_range, parse_u64, parse_u64_exec, splitn, splitn_exec, starts_with_exec,
    string_from, string_of_range, trim, trim_bounds, trim_quote_bounds, trim_quotes,
};
use crate::types::RoomId;

verus! {

/// Tool rounds a loop runs at most when none is configured.
pub const MAX_TOOL_ROUNDS: u32 = 5;

/// Token budget of `/mission` when none is given.
pub const DEFAULT_MISSION_BUDGET: u64 = 100_000;

/// A command typed in a room.
#[derive(Debug, Clone, PartialEq, Eq)]
pub enum SlashCommand {
    Approve { id: String },
    Reject { id: String, reason: String },
    Session { canvas_id: String, goal: String },
    /// `/mission <budget_tokens> <goal>`: a full mission run with a total token budget.
    Mission { goal: String, budget_tokens: u64 },
    Invite { address: String },
    Call,
}

/// A slash command with its text arguments as character sequences.
pub enum SlashCommandView {
    Approve { id: Seq<char> },
    Reject { id: Seq<char>, reason: Seq<char> },
    Session { canvas_id: Seq<char>, goal: Seq<char> },
    Mission { goal: Seq<char>, budget_tokens: u64 },
    Invite { address: Seq<char> },
    Call,
}

impl View for SlashCommand {
    type V = SlashCommandView;

    open spec fn view(&self) -> SlashCommandView {
        match self {
            SlashCommand::Approve { id } => SlashCommandView::Approve { id: id@ },
            SlashCommand::Reject { id, reason } => SlashCommandView::Reject {
                id: id@,
                reason: reason@,
            },
            SlashCommand::Session { canvas_id, goal } => SlashCommandView::Session {
                canvas_id: canvas_id@,
                goal: goal@,
            },
            SlashCommand::Mission { goal, budget_tokens } => SlashCommandView::Mission {
                goal: goal@,
                budget_tokens: *budget_tokens,
            },
            SlashCommand::Invite { address } => SlashCommandView::Invite { address: address@ },
            SlashCommand::Call => SlashCommandView::Call,
        }
    }
}

/// The view of an optional slash command.
pub open spec fn opt_command_view(c: Option<SlashCommand>) -> Option<SlashCommandView> {
    match c {
        Some(c) => Some(c@),
        None => None,
    }
}

/// The goal given by a trailing argument, with surrounding quotes removed.
pub open spec fn goal_arg(parts: Seq<Seq<char>>) -> Seq<char> {
    if parts.len() > 2 {
        trim_quotes(parts[2])
    } else {
        "unspecified goal"@
    }
}

/// The command that `text` spells, if any.
///
/// The trimmed text must start with `/`; the rest is split at the first two spaces
/// into the command name, its first argument and the remainder. `/mission` takes an
/// optional leading budget: when the first argument is not a number, the whole rest
/// of the line is the goal and the budget is [`DEFAULT_MISSION_BUDGET`].
pub open spec fn parse_slash(text: Seq<char>) -> Option<SlashCommandView> {
    let t = trim(text);
    if !(t.len() > 0 && t[0] == '/') {
        None
    } else {
        let body = t.drop_first();
        let parts = splitn(body, 3, ' ');
        let cmd = parts[0];
        if cmd == "approve"@ {
            if parts.len() > 1 {
                Some(SlashCommandView::Approve { id: parts[1] })
            } else {
                None
            }
        } else if cmd == "reject"@ {
            if parts.len() > 1 {
                Some(
                    SlashCommandView::Reject {
                        id: parts[1],
                        reason: if parts.len() > 2 {
                            parts[2]
                        } else {
                            "no reason given"@
                        },
                    },
                )
            } else {
                None
            }
        } else if cmd == "session"@ {
            if parts.len() > 1 {
                Some(SlashCommandView::Session { canvas_id: parts[1], goal: goal_arg(parts) })
            } else {
                None
            }
        } else if cmd == "mission"@ {
            if parts.len() > 1 {
                match parse_u64(parts[1]) {
                    Some(n) => Some(
                        SlashCommandView::Mission { goal: goal_arg(parts), budget_tokens: n },
                    ),
                    None => {
                        let whole = splitn(body, 2, ' ');
                        Some(
                            SlashCommandView::Mission {
                                goal: if whole.len() > 1 {
                                    trim_quotes(whole[1])
                                } else {
                                    parts[1]
                                },
                                budget_tokens: DEFAULT_MISSION_BUDGET,
                            },
                        )
                    },
                }
            } else {
                None
            }
        } else if cmd == "invite"@ {
            if parts.len() > 1 {
                Some(SlashCommandView::Invite { address: parts[1] })
            } else {
                None
            }
        } else if cmd == "call"@ {
            Some(SlashCommandView::Call)
        } else {
            None
        }
    }
}

/// Splitting at spaces after a word without spaces: the word, then the pieces
/// of the rest.
proof fn lemma_splitn_word(w: Seq<char>, rest: Seq<char>, n: nat)
    requires
        n >= 2,
        forall|j: int| 0 <= j < w.len() ==> w[j] != ' ',
    ensures
        splitn(w + seq![' '] + rest, n, ' ') == seq![w] + splitn(rest, (n - 1) as nat, ' '),
{
    let s = w + seq![' '] + rest;
    crate::text::lemma_find_char(s, ' ', w.len() as int);
    assert(s.take(w.len() as int) =~= w);
    assert(s.skip(w.len() as int + 1) =~= rest);
}

/// A word without spaces splits into itself.
proof fn lemma_splitn_single(w: Seq<char>, n: nat)
    requires
        forall|j: int| 0 <= j < w.len() ==> w[j] != ' ',
    ensures
        splitn(w, n, ' ') == seq![w],
{
    crate::text::lemma_find_char(w, ' ', w.len() as int);
}

/// A trimmed `/reject` line whose pieces are `reject`, the id and perhaps the
/// reason parses as that rejection.
proof fn lemma_reject_parsed(text: Seq<char>, parts: Seq<Seq<char>>)
    requires
        text.len() > 0,
        text[0] == '/',
        trim(text) == text,
        splitn(text.drop_first(), 3, ' ') == parts,
        2 <= parts.len() <= 3,
        parts[0] == "reject"@,
    ensures
        parse_slash(text) == Some(
            SlashCommandView::Reject {
                id: parts[1],
                reason: if parts.len() > 2 {
                    parts[2]
                } else {
                    "no reason given"@
                },
            },
        ),
{
    reveal_strlit("reject");
    reveal_strlit("approve");
    assert(parts[0] != "approve"@) by {
        assert(parts[0][0] != "approve"@[0]);
    }
}

/// `/approve <id>` approves that id, for every id made of characters that are
/// not whitespace.
pub proof fn law_approve_parses(id: Seq<char>)
    requires
        id.len() > 0,
        forall|j: int| 0 <= j < id.len() ==> !crate::text::is_ws(#[trigger] id[j]),
    ensures
        parse_slash("/approve "@ + id) == Some(SlashCommandView::Approve { id }),
{
    reveal_strlit("/approve ");
    reveal_strlit("approve");
    let text = "/approve "@ + id;
    assert(text[0] == '/');
    assert(!crate::text::is_ws(text.last()));
    crate::text::lemma_trim_unchanged(text);
    assert(text.drop_first() =~= "approve"@ + seq![' '] + id);
    assert forall|j: int| 0 <= j < id.len() implies id[j] != ' ' by {
        assert(!crate::text::is_ws(id[j]));
    }
    lemma_splitn_word("approve"@, id, 3);
    lemma_splitn_single(id, 2);
    assert(seq!["approve"@] + seq![id] =~= seq!["approve"@, id]);
    assert(splitn(text.drop_first(), 3, ' ') == seq!["approve"@, id]);
}

/// A rejection may leave out its reason: for every id made of characters that
/// are not whitespace, `/reject <id>` is the rejection of that id with the reason
/// `no reason given`.
pub proof fn law_reject_reason_optional(id: Seq<char>)
    requires
        id.len() > 0,
        forall|j: int| 0 <= j < id.len() ==> !crate::text::is_ws(#[trigger] id[j]),
    ensures
        parse_slash("/reject "@ + id) == Some(
            SlashCommandView::Reject { id, reason: "no reason given"@ },
        ),
{
    reveal_strlit("/reject ");
    reveal_strlit("reject");
    let text = "/reject "@ + id;
    assert(text[0] == '/');
    assert(!crate::text::is_ws(text.last()));
    crate::text::lemma_trim_unchanged(text);
    assert(text.drop_first() =~= "reject"@ + seq![' '] + id);
    assert forall|j: int| 0 <= j < id.len() implies id[j] != ' ' by {
        assert(!crate::text::is_ws(id[j]));
    }
    lemma_splitn_word("reject"@, id, 3);
    lemma_splitn_single(id, 2);
    assert(seq!["reject"@] + seq![id] =~= seq!["reject"@, id]);
    lemma_reject_parsed(text, seq!["reject"@, id]);
}

/// The reason of a rejection is the rest of the line after the id: for every id
/// made of characters that are not whitespace and every reason that does not end
/// with whitespace, `/reject <id> <reason>` rejects that id for that reason.
pub proof fn law_reject_with_reason(id: Seq<char>, reason: Seq<char>)
    requires
        id.len() > 0,
        forall|j: int| 0 <= j < id.len() ==> !crate::text::is_ws(#[trigger] id[j]),
        reason.len() > 0,
        !crate::text::is_ws(reason.last()),
    ensures
        parse_slash("/reject "@ + id + seq![' '] + reason) == Some(
            SlashCommandView::Reject { id, reason },
        ),
{
    reveal_strlit("/reject ");
    reveal_strlit("reject");
    let text = "/reject "@ + id + seq![' '] + reason;
    assert(text[0] == '/');
    assert(text.last() == reason.last());
    crate::text::lemma_trim_unchanged(text);
    assert(text.drop_first() =~= "reject"@ + seq![' '] + (id + seq![' '] + reason));
    assert forall|j: int| 0 <= j < id.len() implies id[j] != ' ' by {
        assert(!crate::text::is_ws(id[j]));
    }
    lemma_splitn_word("reject"@, id + seq![' '] + reason, 3);
    lemma_splitn_word(id, reason, 2);
    assert(splitn(reason, 1, ' ') == seq![reason]);
    assert(seq!["reject"@] + (seq![id] + seq![reason]) =~= seq!["reject"@, id, reason]);
    lemma_reject_parsed(text, seq!["reject"@, id, reason]);
}

/// Parses a slash command typed in a room (`/approve <id>`, `/reject <id> [reason]`,
/// `/session <canvas> [goal]`, `/mission [budget] <goal>`, `/invite <address>`, `/call`).
pub fn parse_slash_command(text: &str) -> (r: Option<SlashCommand>)
    ensures
        opt_command_view(r) == parse_slash(text@),
{
    let v = chars_of(text);
    let (a, b) = trim_bounds(&v, 0, v.len());
    proof {
        assert(v@.subrange(0, v.len() as int) =~= v@);
    }
    let ghost t = v@.subrange(a as int, b as int);
    if !(a < b && v[a] == '/') {
        return None;
    }
    let ghost body = t.drop_first();
    proof {
        assert(body =~= v@.subrange(a + 1, b as int));
    }
    let parts = splitn_exec(&v, a + 1, b, 3, ' ');
    let ghost ps = splitn(body, 3, ' ');
    let (c0, c1) = parts[0];
    let goal = if parts.len() > 2 {
        let (g0, g1) = parts[2];
        let (q0, q1) = trim_quote_bounds(&v, g0, g1);
        string_of_range(&v, q0, q1)
    } else {
        string_from("unspecified goal")
    };
    assert(goal@ == goal_arg(ps));
    if eq_range(&v, c0, c1, &chars_of("approve")) {
        if parts.len() > 1 {
            let (p0, p1) = parts[1];
            return Some(SlashCommand::Approve { id: string_of_range(&v, p0, p1) });
        }
        None
    } else if eq_range(&v, c0, c1, &chars_of("reject")) {
        if parts.len() > 1 {
            let (p0, p1) = parts[1];
            let reason = if parts.len() > 2 {
                let (r0, r1) = parts[2];
                string_of_range(&v, r0, r1)
            } else {
                string_from("no reason given")
            };
            return Some(SlashCommand::Reject { id: string_of_range(&v, p0, p1), reason });
        }
        None
    } else if eq_range(&v, c0, c1, &chars_of("session")) {
        if parts.len() > 1 {
            let (p0, p1) = parts[1];
            return Some(SlashCommand::Session { canvas_id: string_of_range(&v, p0, p1), goal });
        }
        None
    } else if eq_range(&v, c0, c1, &chars_of("mission")) {
        if parts.len() > 1 {
            let (p0, p1) = parts[1];
            match parse_u64_exec(&v, p0, p1) {
                Some(n) => {
                    return Some(SlashCommand::Mission { goal, budget_tokens: n });
                },
                None => {
                    let whole = splitn_exec(&v, a + 1, b, 2, ' ');
                    let g = if whole.len() > 1 {
                        let (w0, w1) = whole[1];
                        let (q0, q1) = trim_quote_bounds(&v, w0, w1);
                        string_of_range(&v, q0, q1)
                    } else {
                        string_of_range(&v, p0, p1)
                    };
                    return Some(
                        SlashCommand::Mission { goal: g, budget_tokens: DEFAULT_MISSION_BUDGET },
                    );
                },
            }
        }
        None
    } else if eq_range(&v, c0, c1, &chars_of("invite")) {
        if parts.len() > 1 {
            let (p0, p1) = parts[1];
            return Some(SlashCommand::Invite { address: string_of_range(&v, p0, p1) });
        }
        None
    } else if eq_range(&v, c0, c1, &chars_of("call")) {
        Some(SlashCommand::Call)
    } else {
        None
    }
}

/// The approval category a tool's prefix puts it under, if any.
pub open spec fn approval_category(name: Seq<char>) -> Option<Seq<char>> {
    if crate::text::starts_with(name, "git_"@) || crate::text::starts_with(name, "pr_"@)
        || crate::text::starts_with(name, "code_"@) {
        Some("code"@)
    } else if crate::text::starts_with(name, "db_"@) || crate::text::starts_with(name, "sql_"@) {
        Some("db"@)
    } else if crate::text::starts_with(name, "infra_"@) || crate::text::starts_with(name, "aws_"@)
        || crate::text::starts_with(name, "tf_"@) {
        Some("infra"@)
    } else {
        None
    }
}

proof fn lemma_prefix_first(name: Seq<char>, p: Seq<char>)
    requires
        p.len() > 0,
        crate::text::starts_with(name, p),
    ensures
        name[0] == p[0],
{
    assert(name.subrange(0, p.len() as int)[0] == name[0]);
}

/// Which tools need approval, and under which category, goes by the tool's
/// prefix: `git_`, `pr_` and `code_` tools under `code`; `db_` and `sql_` tools
/// under `db`; `infra_`, `aws_` and `tf_` tools under `infra`; no other tool
/// needs approval.
pub proof fn law_approval_categories(name: Seq<char>)
    ensures
        crate::text::starts_with(name, "git_"@) || crate::text::starts_with(name, "pr_"@)
            || crate::text::starts_with(name, "code_"@) ==> approval_category(name) == Some(
            "code"@,
        ),
        crate::text::starts_with(name, "db_"@) || crate::text::starts_with(name, "sql_"@)
            ==> approval_category(name) == Some("db"@),
        crate::text::starts_with(name, "infra_"@) || crate::text::starts_with(name, "aws_"@)
            || crate::text::starts_with(name, "tf_"@) ==> approval_category(name) == Some(
            "infra"@,
        ),
        !(crate::text::starts_with(name, "git_"@) || crate::text::starts_with(name, "pr_"@)
            || crate::text::starts_with(name, "code_"@) || crate::text::starts_with(name, "db_"@)
            || crate::text::starts_with(name, "sql_"@) || crate::text::starts_with(name, "infra_"@)
            || crate::text::starts_with(name, "aws_"@) || crate::text::starts_with(name, "tf_"@))
            ==> approval_category(name) is None,
{
    reveal_strlit("git_");
    reveal_strlit("pr_");
    reveal_strlit("code_");
    reveal_strlit("db_");
    reveal_strlit("sql_");
    reveal_strlit("infra_");
    reveal_strlit("aws_");
    reveal_strlit("tf_");
    let ps = seq!["git_"@, "pr_"@, "code_"@, "db_"@, "sql_"@, "infra_"@, "aws_"@, "tf_"@];
    assert forall|k: int| 0 <= k < 8 && crate::text::starts_with(name, #[trigger] ps[k]) implies name[0]
        == ps[k][0] by {
        lemma_prefix_first(name, ps[k]);
    }
    assert(ps[0] == "git_"@ && ps[1] == "pr_"@ && ps[2] == "code_"@ && ps[3] == "db_"@);
    assert(ps[4] == "sql_"@ && ps[5] == "infra_"@ && ps[6] == "aws_"@ && ps[7] == "tf_"@);
}

fn name_starts_with(v: &Vec<char>, prefix: &str) -> (b: bool)
    ensures
        b == crate::text::starts_with(v@, prefix@),
{
    let r = starts_with_exec(v, 0, v.len(), &chars_of(prefix));
    assert(v@.subrange(0, v.len() as int) =~= v@);
    r
}

/// Whether calling the tool `tool_name` needs a human's approval first, and under
/// which category: `code` for `git_`/`pr_`/`code_` tools, `db` for `db_`/`sql_`,
/// `infra` for `infra_`/`aws_`/`tf_`.
pub fn requires_approval(tool_name: &str) -> (r: (bool, Option<String>))
    ensures
        r.0 == approval_category(tool_name@) is Some,
        match (r.1, approval_category(tool_name@)) {
            (Some(c), Some(s)) => c@ == s,
            (None, None) => true,
            _ => false,
        },
{
    let v = chars_of(tool_name);
    if name_starts_with(&v, "git_") || name_starts_with(&v, "pr_") || name_starts_with(
        &v,
        "code_",
    ) {
        (true, Some(string_from("code")))
    } else if name_starts_with(&v, "db_") || name_starts_with(&v, "sql_") {
        (true, Some(string_from("db")))
    } else if name_starts_with(&v, "infra_") || name_starts_with(&v, "aws_") || name_starts_with(
        &v,
        "tf_",
    ) {
        (true, Some(string_from("infra")))
    } else {
        (false, None)
    }
}

/// Settings of one model tool loop.
pub struct ToolLoopConfig {
    pub model: String,
    pub system_prompt: String,
    pub context: String,
    pub room_id: RoomId,
    pub max_rounds: u32,
}

impl ToolLoopConfig {
    /// A tool loop running with `model`, the model the deployment configures
    /// for agents: no system prompt, no context, no room yet, and at most
    /// [`MAX_TOOL_ROUNDS`] rounds.
    pub fn for_model(model: String) -> (r: Self)
        ensures
            r.model == model,
            r.system_prompt@.len() == 0,
            r.context@.len() == 0,
            r.room_id@.len() == 0,
            r.max_rounds == MAX_TOOL_ROUNDS,
    {
        let room_id = RoomId::new("");
        proof {
            reveal_strlit("");
        }
        ToolLoopConfig {
            model,
            system_prompt: String::new(),
            context: String::new(),
            room_id,
            max_rounds: MAX_TOOL_ROUNDS,
        }
    }
}

/// A tool the model asked for, with whether it waits for a human's approval
/// and under which category.
#[derive(Debug, Clone)]
pub struct ToolCall {
    pub id: String,
    pub name: String,
    pub input: serde_json::Value,
    pub requires_approval: bool,
    pub approval_category: Option<String>,
}

impl ToolCall {
    /// The call `id` of tool `name` with `input`, classified by
    /// [`requires_approval`].
    pub fn new(id: String, name: String, input: serde_json::Value) -> (c: Self)
        ensures
            c.id@ == id@,
            c.name@ == name@,
            c.input == input,
            c.requires_approval == approval_category(name@) is Some,
            match (c.approval_category, approval_category(name@)) {
                (Some(a), Some(b)) => a@ == b,
                (None, None) => true,
                _ => false,
            },
    {
        let (needs, category) = requires_approval(name.as_str());
        ToolCall { id, name, input, requires_approval: needs, approval_category: category }
    }
}

} // verus!
