//! What a project agent does with the events of its room: which slash command
//! it runs, which approval it resolves, and the rooms and objectives it sets up.

use vstd::prelude::*;
use crate::approval::ApprovalOutcome;
use crate::text::{push_str, string_from};
use crate::tool_loop::{opt_command_view, parse_slash, parse_slash_command, SlashCommand, SlashCommandView};
use crate::types::{ChatEvent, ChatEventKind, ProjectId, RoomOptions, TaskId, UserId};

verus! {

/// What an event in a project room leads to.
#[derive(Debug)]
pub enum ProjectAction {
    /// Run a session on `canvas_id` towards `goal`.
    RunSession { canvas_id: String, goal: String },
    /// Run a mission towards `goal` within `budget_tokens`.
    RunMission { goal: String, budget_tokens: u64 },
    /// Register a specialist for `address` and invite it into the room.
    InviteSpecialist { address: String },
    /// Resolve the pending approval `id`.
    Resolve { id: String, outcome: ApprovalOutcome },
    /// Nothing.
    Nothing,
}

/// The text a slash-command event spells: `/` then the command, a space, and its
/// arguments.
pub open spec fn command_text(command: Seq<char>, args: Seq<char>) -> Seq<char> {
    "/"@ + command + " "@ + args
}

/// What a command of a slash-command event leads to (approvals are not taken
/// from there).
pub open spec fn command_action(c: SlashCommandView, a: ProjectAction) -> bool {
    match c {
        SlashCommandView::Session { canvas_id, goal } => a matches ProjectAction::RunSession { canvas_id: c2, goal: g2 } && c2@ == canvas_id && g2@ == goal,
        SlashCommandView::Mission { goal, budget_tokens } => a matches ProjectAction::RunMission { goal: g2, budget_tokens: b2 } && g2@ == goal && b2 == budget_tokens,
        SlashCommandView::Invite { address } => a matches ProjectAction::InviteSpecialist { address: a2 } && a2@ == address,
        _ => a is Nothing,
    }
}

/// What a command read from a message's content leads to: only approvals and
/// rejections are acted on there.
pub open spec fn content_action(c: Option<SlashCommandView>, a: ProjectAction) -> bool {
    match c {
        Some(SlashCommandView::Approve { id }) => a matches ProjectAction::Resolve { id: i2, outcome } && i2@ == id && outcome is Approved,
        Some(SlashCommandView::Reject { id, reason }) => a matches ProjectAction::Resolve { id: i2, outcome: ApprovalOutcome::Rejected(r2) } && i2@ == id && r2@ == reason,
        _ => a is Nothing,
    }
}

/// What an event in the project room leads to: a slash-command event whose text
/// parses runs its command; otherwise an approval or rejection in the message's
/// content is resolved.
pub open spec fn project_action(ev: ChatEvent, a: ProjectAction) -> bool {
    match ev.kind {
        ChatEventKind::SlashCommand { command, args } => match parse_slash(command_text(command@, args@)) {
            Some(c) => command_action(c, a),
            None => content_action(parse_slash(ev.content@), a),
        },
        _ => content_action(parse_slash(ev.content@), a),
    }
}

fn action_of_content(content: &str) -> (a: ProjectAction)
    ensures
        content_action(parse_slash(content@), a),
{
    match parse_slash_command(content) {
        Some(SlashCommand::Approve { id }) => ProjectAction::Resolve { id, outcome: ApprovalOutcome::Approved },
        Some(SlashCommand::Reject { id, reason }) => ProjectAction::Resolve { id, outcome: ApprovalOutcome::Rejected(reason) },
        _ => ProjectAction::Nothing,
    }
}

/// Decides what an event in the project room leads to (see [`project_action`]).
pub fn handle_event(event: &ChatEvent) -> (a: ProjectAction)
    ensures
        project_action(*event, a),
{
    if let ChatEventKind::SlashCommand { command, args } = &event.kind {
        let mut full = string_from("/");
        push_str(&mut full, command.as_str());
        push_str(&mut full, " ");
        push_str(&mut full, args.as_str());
        match parse_slash_command(full.as_str()) {
            Some(cmd) => {
                return match cmd {
                    SlashCommand::Session { canvas_id, goal } => ProjectAction::RunSession { canvas_id, goal },
                    SlashCommand::Mission { goal, budget_tokens } => ProjectAction::RunMission { goal, budget_tokens },
                    SlashCommand::Invite { address } => ProjectAction::InviteSpecialist { address },
                    _ => ProjectAction::Nothing,
                };
            },
            None => {},
        }
    }
    action_of_content(event.content.as_str())
}

/// The completion condition of a mission's single sub-objective.
pub fn sub_objective_condition(goal: &str) -> (s: String)
    ensures
        s@ == "The goal is accomplished: "@ + goal@,
{
    let mut s = string_from("The goal is accomplished: ");
    push_str(&mut s, goal);
    s
}

/// The completion condition of a whole mission.
pub fn mission_condition(goal: &str) -> (s: String)
    ensures
        s@ == "The overall mission goal is accomplished: "@ + goal@,
{
    let mut s = string_from("The overall mission goal is accomplished: ");
    push_str(&mut s, goal);
    s
}

/// The id of a mission's single sub-objective.
pub const MAIN_SUB_OBJECTIVE: &'static str = "main";

/// The canvas used when a session names one that does not exist.
pub const FALLBACK_CANVAS: &'static str = "design-session";

/// The room an implementation of ticket `ticket` of `project` is worked in, with
/// the project agent `agent` invited.
pub fn impl_room_options(project: &ProjectId, ticket: &TaskId, agent: &UserId) -> (o: RoomOptions)
    ensures
        o.alias@ == "#"@ + project@ + "-impl-"@ + ticket@,
        o.name@ == "impl: "@ + ticket@,
        o.topic is None,
        o.invite@.len() == 1,
        o.invite@[0]@ == agent@,
{
    let mut alias = string_from("#");
    push_str(&mut alias, project.as_str());
    push_str(&mut alias, "-impl-");
    push_str(&mut alias, ticket.as_str());
    let mut name = string_from("impl: ");
    push_str(&mut name, ticket.as_str());
    let mut invite: Vec<UserId> = Vec::new();
    invite.push(agent.duplicate());
    RoomOptions { alias, name, topic: None, invite }
}

/// The reason given when a specialist leaves the room at the end of a session.
pub const SPECIALIST_KICK_REASON: &'static str = "session complete";

} // verus!
