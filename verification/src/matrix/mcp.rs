//! The Matrix tool server that lets agents act in Matrix: which JSON-RPC method a
//! request names, which tools it offers, what each tool call asks of the
//! homeserver and what the agent is told back.
//!
//! The Matrix calls themselves, and the JSON-RPC envelopes, are made outside.

use vstd::prelude::*;
use crate::daemon::approval_relay::{request_notice, request_notice_text};
use crate::dm_registry::{agent_key, DmRegistry};
use crate::matrix::appservice::opt_view;
use crate::pairs::{find_key, last_key_index};
use crate::text::{before_char, chars_of, find_char_exec, push_str, str_eq, string_from, string_of_range};

verus! {

/// MCP protocol version advertised in `initialize`.
pub const MCP_PROTOCOL_VERSION: &'static str = "2024-11-05";

/// Server name advertised in `initialize`.
pub const MCP_SERVER_NAME: &'static str = "charradissa-matrix-mcp";

/// JSON-RPC error code of an unknown method.
pub const METHOD_NOT_FOUND: i64 = -32601;

/// One parameter of a tool: its name, JSON type and description.
#[derive(Debug, Clone, Copy)]
pub struct McpParam {
    pub name: &'static str,
    pub kind: &'static str,
    pub description: Option<&'static str>,
}

/// A tool advertised by `tools/list`.
#[derive(Debug, Clone)]
pub struct McpTool {
    pub name: &'static str,
    pub description: &'static str,
    pub params: Vec<McpParam>,
    pub required: Vec<&'static str>,
}

/// What an [`McpTool`] says.
pub struct McpToolView {
    pub name: Seq<char>,
    pub description: Seq<char>,
    pub params: Seq<(Seq<char>, Seq<char>, Option<Seq<char>>)>,
    pub required: Seq<Seq<char>>,
}

/// What a tool parameter says.
pub open spec fn mcp_param_view(p: McpParam) -> (Seq<char>, Seq<char>, Option<Seq<char>>) {
    (
        p.name@,
        p.kind@,
        match p.description {
            Some(d) => Some(d@),
            None => None,
        },
    )
}

impl View for McpTool {
    type V = McpToolView;

    open spec fn view(&self) -> McpToolView {
        McpToolView {
            name: self.name@,
            description: self.description@,
            params: self.params@.map_values(|p: McpParam| mcp_param_view(p)),
            required: self.required@.map_values(|r: &str| r@),
        }
    }
}

/// The Matrix tool server: the DM registry it resolves agents with, the room
/// approval requests are posted to, and its own identity.
pub struct MatrixMcp {
    dm_registry: DmRegistry,
    approval_room_id: String,
    server_name: String,
    bot_user_id: String,
}

impl MatrixMcp {
    pub closed spec fn wf(&self) -> bool {
        self.dm_registry.wf()
    }

    pub closed spec fn registry(&self) -> Map<Seq<char>, Seq<char>> {
        self.dm_registry@
    }

    pub closed spec fn approval_room(&self) -> Seq<char> {
        self.approval_room_id@
    }

    pub closed spec fn server(&self) -> Seq<char> {
        self.server_name@
    }

    pub closed spec fn bot(&self) -> Seq<char> {
        self.bot_user_id@
    }

    /// A tool server resolving DMs with `dm_registry`, posting approval requests to
    /// `approval_room_id`, on `server_name`, acting as `bot_user_id`.
    pub fn new(
        dm_registry: DmRegistry,
        approval_room_id: String,
        server_name: String,
        bot_user_id: String,
    ) -> (m: Self)
        requires
            dm_registry.wf(),
        ensures
            m.wf(),
            m.registry() == dm_registry@,
            m.approval_room() == approval_room_id@,
            m.server() == server_name@,
            m.bot() == bot_user_id@,
    {
        MatrixMcp { dm_registry, approval_room_id, server_name, bot_user_id }
    }

    /// The room approval requests are posted to.
    pub fn approval_room_id(&self) -> (s: &str)
        ensures
            s@ == self.approval_room(),
    {
        self.approval_room_id.as_str()
    }
}

/// The tools advertised by `tools/list`.
pub open spec fn mcp_tool_catalog() -> Seq<McpToolView> {
    seq![
        McpToolView {
            name: "matrix_send"@,
            description: "Send a message to any Matrix room or DM by room ID."@,
            params: seq![("room_id"@, "string"@, Some("Target room ID, e.g. !abc:occitane.guilhem"@)), ("content"@, "string"@, Some("Message body (plain text)"@))],
            required: seq!["room_id"@, "content"@],
        },
        McpToolView {
            name: "matrix_invite"@,
            description: "Invite a user to a Matrix room. Fails gracefully if the caller's power level is insufficient."@,
            params: seq![("room_id"@, "string"@, None), ("user_id"@, "string"@, Some("Full MXID, e.g. @farga:occitane.guilhem"@))],
            required: seq!["room_id"@, "user_id"@],
        },
        McpToolView {
            name: "matrix_kick"@,
            description: "Kick a user from a Matrix room. Fails gracefully if the caller's power level is insufficient."@,
            params: seq![("room_id"@, "string"@, None), ("user_id"@, "string"@, None), ("reason"@, "string"@, Some("Optional kick reason"@))],
            required: seq!["room_id"@, "user_id"@],
        },
        McpToolView {
            name: "matrix_get_dm"@,
            description: "Resolve the DM room ID for any user — component agent (e.g. \"farga\") or human (e.g. \"@pierre-luc:occitane.guilhem\"). Checks the agent registry first; if not found, scans joined rooms for a 2-member room shared with that user."@,
            params: seq![("agent"@, "string"@, Some("Localpart, e.g. pierre-luc, or full MXID e.g. @pierre-luc:occitane.guilhem"@))],
            required: seq!["agent"@],
        },
        McpToolView {
            name: "matrix_leave"@,
            description: "Leave a Matrix room. Use when invited to a room you should not be in, or to clean up after completing a task in a temporary room."@,
            params: seq![("room_id"@, "string"@, Some("Room ID to leave, e.g. !abc:occitane.guilhem"@))],
            required: seq!["room_id"@],
        },
        McpToolView {
            name: "matrix_read"@,
            description: "Read recent messages from a Matrix room (newest up to `limit`, default 20, max 20). Returns messages in chronological order as 'sender: body' lines. Use to catch up on context after joining or re-joining a room."@,
            params: seq![("room_id"@, "string"@, Some("Room ID to read from, e.g. !abc:occitane.guilhem"@)), ("limit"@, "integer"@, Some("Number of messages to fetch (1–20, default 20)"@))],
            required: seq!["room_id"@],
        },
        McpToolView {
            name: "matrix_request_approval"@,
            description: "Post a pending action to the shared approval room and register it in the approval queue. Call this when you need human sign-off before continuing (e.g. a PR you opened needs review, or a destructive action needs approval). Returns an approval_id. STOP working after calling this — you will receive a Matrix message in your room when approved or rejected."@,
            params: seq![("component"@, "string"@, Some("Your component name, e.g. amassada"@)), ("category"@, "string"@, Some("code | db | infra"@)), ("description"@, "string"@, Some("What needs approval — include PR URL or issue number"@)), ("params"@, "object"@, Some("Optional structured context (pr_url, issue_number, etc.)"@)), ("source_room_id"@, "string"@, Some("The Matrix room ID of the requesting agent's room. Used to send approval/rejection notifications back to the agent."@))],
            required: seq!["component"@, "category"@, "description"@],
        },
    ]
}

impl MatrixMcp {
    /// The tool definitions advertised by `tools/list`.
    pub fn tool_definitions() -> (tools: Vec<McpTool>)
        ensures
            tools@.map_values(|t: McpTool| t.view()) == mcp_tool_catalog(),
    {
        let mut tools: Vec<McpTool> = Vec::new();
        {
            let mut params: Vec<McpParam> = Vec::new();
            params.push(McpParam { name: "room_id", kind: "string", description: Some("Target room ID, e.g. !abc:occitane.guilhem") });
            params.push(McpParam { name: "content", kind: "string", description: Some("Message body (plain text)") });
            let mut required: Vec<&'static str> = Vec::new();
            required.push("room_id");
            required.push("content");
            assert(params@.map_values(|p: McpParam| mcp_param_view(p)) =~= mcp_tool_catalog()[0].params);
            assert(required@.map_values(|r: &str| r@) =~= mcp_tool_catalog()[0].required);
            tools.push(McpTool { name: "matrix_send", description: "Send a message to any Matrix room or DM by room ID.", params, required });
            assert(tools@[0].view() == mcp_tool_catalog()[0]);
        }
        {
            let mut params: Vec<McpParam> = Vec::new();
            params.push(McpParam { name: "room_id", kind: "string", description: None });
            params.push(McpParam { name: "user_id", kind: "string", description: Some("Full MXID, e.g. @farga:occitane.guilhem") });
            let mut required: Vec<&'static str> = Vec::new();
            required.push("room_id");
            required.push("user_id");
            assert(params@.map_values(|p: McpParam| mcp_param_view(p)) =~= mcp_tool_catalog()[1].params);
            assert(required@.map_values(|r: &str| r@) =~= mcp_tool_catalog()[1].required);
            tools.push(McpTool { name: "matrix_invite", description: "Invite a user to a Matrix room. Fails gracefully if the caller's power level is insufficient.", params, required });
            assert(tools@[1].view() == mcp_tool_catalog()[1]);
        }
        {
            let mut params: Vec<McpParam> = Vec::new();
            params.push(McpParam { name: "room_id", kind: "string", description: None });
            params.push(McpParam { name: "user_id", kind: "string", description: None });
            params.push(McpParam { name: "reason", kind: "string", description: Some("Optional kick reason") });
            let mut required: Vec<&'static str> = Vec::new();
            required.push("room_id");
            required.push("user_id");
            assert(params@.map_values(|p: McpParam| mcp_param_view(p)) =~= mcp_tool_catalog()[2].params);
            assert(required@.map_values(|r: &str| r@) =~= mcp_tool_catalog()[2].required);
            tools.push(McpTool { name: "matrix_kick", description: "Kick a user from a Matrix room. Fails gracefully if the caller's power level is insufficient.", params, required });
            assert(tools@[2].view() == mcp_tool_catalog()[2]);
        }
        {
            let mut params: Vec<McpParam> = Vec::new();
            params.push(McpParam { name: "agent", kind: "string", description: Some("Localpart, e.g. pierre-luc, or full MXID e.g. @pierre-luc:occitane.guilhem") });
            let mut required: Vec<&'static str> = Vec::new();
            required.push("agent");
            assert(params@.map_values(|p: McpParam| mcp_param_view(p)) =~= mcp_tool_catalog()[3].params);
            assert(required@.map_values(|r: &str| r@) =~= mcp_tool_catalog()[3].required);
            tools.push(McpTool { name: "matrix_get_dm", description: "Resolve the DM room ID for any user — component agent (e.g. \"farga\") or human (e.g. \"@pierre-luc:occitane.guilhem\"). Checks the agent registry first; if not found, scans joined rooms for a 2-member room shared with that user.", params, required });
            assert(tools@[3].view() == mcp_tool_catalog()[3]);
        }
        {
            let mut params: Vec<McpParam> = Vec::new();
            params.push(McpParam { name: "room_id", kind: "string", description: Some("Room ID to leave, e.g. !abc:occitane.guilhem") });
            let mut required: Vec<&'static str> = Vec::new();
            required.push("room_id");
            assert(params@.map_values(|p: McpParam| mcp_param_view(p)) =~= mcp_tool_catalog()[4].params);
            assert(required@.map_values(|r: &str| r@) =~= mcp_tool_catalog()[4].required);
            tools.push(McpTool { name: "matrix_leave", description: "Leave a Matrix room. Use when invited to a room you should not be in, or to clean up after completing a task in a temporary room.", params, required });
            assert(tools@[4].view() == mcp_tool_catalog()[4]);
        }
        {
            let mut params: Vec<McpParam> = Vec::new();
            params.push(McpParam { name: "room_id", kind: "string", description: Some("Room ID to read from, e.g. !abc:occitane.guilhem") });
            params.push(McpParam { name: "limit", kind: "integer", description: Some("Number of messages to fetch (1–20, default 20)") });
            let mut required: Vec<&'static str> = Vec::new();
            required.push("room_id");
            assert(params@.map_values(|p: McpParam| mcp_param_view(p)) =~= mcp_tool_catalog()[5].params);
            assert(required@.map_values(|r: &str| r@) =~= mcp_tool_catalog()[5].required);
            tools.push(McpTool { name: "matrix_read", description: "Read recent messages from a Matrix room (newest up to `limit`, default 20, max 20). Returns messages in chronological order as 'sender: body' lines. Use to catch up on context after joining or re-joining a room.", params, required });
            assert(tools@[5].view() == mcp_tool_catalog()[5]);
        }
        {
            let mut params: Vec<McpParam> = Vec::new();
            params.push(McpParam { name: "component", kind: "string", description: Some("Your component name, e.g. amassada") });
            params.push(McpParam { name: "category", kind: "string", description: Some("code | db | infra") });
            params.push(McpParam { name: "description", kind: "string", description: Some("What needs approval — include PR URL or issue number") });
            params.push(McpParam { name: "params", kind: "object", description: Some("Optional structured context (pr_url, issue_number, etc.)") });
            params.push(McpParam { name: "source_room_id", kind: "string", description: Some("The Matrix room ID of the requesting agent's room. Used to send approval/rejection notifications back to the agent.") });
            let mut required: Vec<&'static str> = Vec::new();
            required.push("component");
            required.push("category");
            required.push("description");
            assert(params@.map_values(|p: McpParam| mcp_param_view(p)) =~= mcp_tool_catalog()[6].params);
            assert(required@.map_values(|r: &str| r@) =~= mcp_tool_catalog()[6].required);
            tools.push(McpTool { name: "matrix_request_approval", description: "Post a pending action to the shared approval room and register it in the approval queue. Call this when you need human sign-off before continuing (e.g. a PR you opened needs review, or a destructive action needs approval). Returns an approval_id. STOP working after calling this — you will receive a Matrix message in your room when approved or rejected.", params, required });
            assert(tools@[6].view() == mcp_tool_catalog()[6]);
        }
        proof {
            assert(tools@.map_values(|t: McpTool| t.view()) =~= mcp_tool_catalog());
        }
        tools
    }
}

/// What a JSON-RPC request comes to.
#[derive(Debug, Clone)]
pub enum RpcAction {
    /// A notification (no `id`): no response.
    Notification,
    Initialize,
    Ping,
    ListTools,
    CallTool,
    /// An unknown method: error [`METHOD_NOT_FOUND`] with `message`.
    NotFound { message: String },
}

/// What a request for `method` (empty when absent) comes to; `has_id` tells
/// whether it carries a non-null `id`.
pub open spec fn rpc_action_of(method: Seq<char>, has_id: bool, a: RpcAction) -> bool {
    if !has_id {
        a is Notification
    } else if method == "initialize"@ {
        a is Initialize
    } else if method == "ping"@ {
        a is Ping
    } else if method == "tools/list"@ {
        a is ListTools
    } else if method == "tools/call"@ {
        a is CallTool
    } else {
        a matches RpcAction::NotFound { message } && message@ == "method not found: "@ + method
    }
}

/// Decides what a JSON-RPC request comes to (see [`rpc_action_of`]).
pub fn rpc_action(method: &str, has_id: bool) -> (a: RpcAction)
    ensures
        rpc_action_of(method@, has_id, a),
{
    if !has_id {
        RpcAction::Notification
    } else if str_eq(method, "initialize") {
        RpcAction::Initialize
    } else if str_eq(method, "ping") {
        RpcAction::Ping
    } else if str_eq(method, "tools/list") {
        RpcAction::ListTools
    } else if str_eq(method, "tools/call") {
        RpcAction::CallTool
    } else {
        let mut message = string_from("method not found: ");
        push_str(&mut message, method);
        RpcAction::NotFound { message }
    }
}

/// The arguments of a tool call: its string-valued members (later pairs
/// override earlier ones) and its `limit` when that is an unsigned integer.
#[derive(Debug, Clone)]
pub struct McpArgs {
    pub strings: Vec<(String, String)>,
    pub limit: Option<u64>,
}

/// The string argument `key`, if present.
pub open spec fn str_arg(args: Seq<(String, String)>, key: Seq<char>) -> Option<Seq<char>> {
    match last_key_index(args, key) {
        Some(i) => Some(args[i].1@),
        None => None,
    }
}

/// A required string argument: present and non-empty, else the error naming it.
pub open spec fn required(args: Seq<(String, String)>, key: Seq<char>) -> Result<Seq<char>, Seq<char>> {
    match str_arg(args, key) {
        Some(v) => if v.len() > 0 {
            Ok(v)
        } else {
            Err("missing required string argument: "@ + key)
        },
        None => Err("missing required string argument: "@ + key),
    }
}

/// The texts of a tool result.
pub open spec fn result_view(r: Result<String, String>) -> Result<Seq<char>, Seq<char>> {
    match r {
        Ok(s) => Ok(s@),
        Err(e) => Err(e@),
    }
}

fn str_arg_exec(args: &McpArgs, key: &str) -> (r: Option<String>)
    ensures
        opt_view(r) == str_arg(args.strings@, key@),
{
    match find_key(&args.strings, key) {
        Some(i) => Some(string_from(args.strings[i].1.as_str())),
        None => None,
    }
}

/// A required, non-empty string argument (see [`required`]).
pub fn required_str(args: &McpArgs, key: &str) -> (r: Result<String, String>)
    ensures
        result_view(r) == required(args.strings@, key@),
{
    match str_arg_exec(args, key) {
        Some(v) => if !v.as_str().is_empty() {
            Ok(v)
        } else {
            let mut e = string_from("missing required string argument: ");
            push_str(&mut e, key);
            Err(e)
        },
        None => {
            let mut e = string_from("missing required string argument: ");
            push_str(&mut e, key);
            Err(e)
        },
    }
}

/// The number of messages `matrix_read` fetches: `limit` (20 when absent) kept
/// within 1 to 20.
pub open spec fn read_limit(limit: Option<u64>) -> u32 {
    match limit {
        Some(l) => if l < 1 {
            1
        } else if l > 20 {
            20
        } else {
            l as u32
        },
        None => 20,
    }
}

/// What a tool call asks of the homeserver.
#[derive(Debug)]
pub enum McpCall {
    /// Nothing to ask: the call's result.
    Finish(Result<String, String>),
    Send { room_id: String, content: String },
    Invite { room_id: String, user_id: String },
    Kick { room_id: String, user_id: String, reason: String },
    /// Scan the joined rooms for a two-member room shared with `mxid`.
    ScanDm { mxid: String },
    Leave { room_id: String },
    Read { room_id: String, limit: u32 },
    /// Register an approval request from `source_room_id`, then post it to the
    /// approval room.
    RequestApproval { component: String, category: String, description: String, source_room_id: String },
}

/// What [`McpCall`] says.
pub enum McpCallView {
    Finish(Result<Seq<char>, Seq<char>>),
    Send(Seq<char>, Seq<char>),
    Invite(Seq<char>, Seq<char>),
    Kick(Seq<char>, Seq<char>, Seq<char>),
    ScanDm(Seq<char>),
    Leave(Seq<char>),
    Read(Seq<char>, u32),
    RequestApproval(Seq<char>, Seq<char>, Seq<char>, Seq<char>),
}

impl View for McpCall {
    type V = McpCallView;

    open spec fn view(&self) -> McpCallView {
        match self {
            McpCall::Finish(r) => McpCallView::Finish(result_view(*r)),
            McpCall::Send { room_id, content } => McpCallView::Send(room_id@, content@),
            McpCall::Invite { room_id, user_id } => McpCallView::Invite(room_id@, user_id@),
            McpCall::Kick { room_id, user_id, reason } => McpCallView::Kick(
                room_id@,
                user_id@,
                reason@,
            ),
            McpCall::ScanDm { mxid } => McpCallView::ScanDm(mxid@),
            McpCall::Leave { room_id } => McpCallView::Leave(room_id@),
            McpCall::Read { room_id, limit } => McpCallView::Read(room_id@, *limit),
            McpCall::RequestApproval { component, category, description, source_room_id } =>
                McpCallView::RequestApproval(component@, category@, description@, source_room_id@),
        }
    }
}

/// The full Matrix id an agent name stands for when scanning rooms: itself when it
/// starts with `@`, else `@<name>:<server>`.
pub open spec fn scan_mxid(agent: Seq<char>, server: Seq<char>) -> Seq<char> {
    if agent.len() > 0 && agent[0] == '@' {
        agent
    } else {
        "@"@ + agent + ":"@ + server
    }
}

/// What the tool `name` called with `args` comes to, for a server with DM
/// registry `registry`, on `server`, acting as `bot`. Missing required
/// arguments are reported in the order the tool reads them.
pub open spec fn mcp_plan(
    registry: Map<Seq<char>, Seq<char>>,
    server: Seq<char>,
    bot: Seq<char>,
    name: Seq<char>,
    args: McpArgs,
) -> McpCallView {
    let s = args.strings@;
    if name == "matrix_send"@ {
        match (required(s, "room_id"@), required(s, "content"@)) {
            (Err(e), _) => McpCallView::Finish(Err(e)),
            (Ok(_), Err(e)) => McpCallView::Finish(Err(e)),
            (Ok(r), Ok(c)) => McpCallView::Send(r, c),
        }
    } else if name == "matrix_invite"@ {
        match (required(s, "room_id"@), required(s, "user_id"@)) {
            (Err(e), _) => McpCallView::Finish(Err(e)),
            (Ok(_), Err(e)) => McpCallView::Finish(Err(e)),
            (Ok(r), Ok(u)) => McpCallView::Invite(r, u),
        }
    } else if name == "matrix_kick"@ {
        match (required(s, "room_id"@), required(s, "user_id"@)) {
            (Err(e), _) => McpCallView::Finish(Err(e)),
            (Ok(_), Err(e)) => McpCallView::Finish(Err(e)),
            (Ok(r), Ok(u)) => McpCallView::Kick(
                r,
                u,
                match str_arg(s, "reason"@) {
                    Some(x) => if x.len() > 0 {
                        x
                    } else {
                        "removed by agent"@
                    },
                    None => "removed by agent"@,
                },
            ),
        }
    } else if name == "matrix_get_dm"@ {
        match required(s, "agent"@) {
            Err(e) => McpCallView::Finish(Err(e)),
            Ok(a) => if registry.contains_key(agent_key(a)) {
                McpCallView::Finish(Ok(registry[agent_key(a)]))
            } else {
                McpCallView::ScanDm(scan_mxid(a, server))
            },
        }
    } else if name == "matrix_leave"@ {
        match required(s, "room_id"@) {
            Err(e) => McpCallView::Finish(Err(e)),
            Ok(r) => McpCallView::Leave(r),
        }
    } else if name == "matrix_read"@ {
        match required(s, "room_id"@) {
            Err(e) => McpCallView::Finish(Err(e)),
            Ok(r) => McpCallView::Read(r, read_limit(args.limit)),
        }
    } else if name == "matrix_request_approval"@ {
        match required(s, "component"@) {
            Err(e) => McpCallView::Finish(Err(e)),
            Ok(c) => match required(s, "description"@) {
                Err(e) => McpCallView::Finish(Err(e)),
                Ok(d) => McpCallView::RequestApproval(
                    c,
                    match str_arg(s, "category"@) {
                        Some(x) => x,
                        None => "code"@,
                    },
                    d,
                    match str_arg(s, "source_room_id"@) {
                        Some(x) => if x.len() > 0 {
                            x
                        } else {
                            bot
                        },
                        None => bot,
                    },
                ),
            },
        }
    } else {
        McpCallView::Finish(Err("unknown tool: "@ + name))
    }
}

/// An approval request is filed under the category the caller gives, and under
/// `code` only when it gives none: with a component and a description given,
/// `matrix_request_approval` asks to register the request of that component,
/// with that description, under the given category (else `code`), from the
/// given source room (else the bot's own id).
pub proof fn law_request_approval_keeps_category(
    registry: Map<Seq<char>, Seq<char>>,
    server: Seq<char>,
    bot: Seq<char>,
    args: McpArgs,
    component: Seq<char>,
    description: Seq<char>,
)
    requires
        str_arg(args.strings@, "component"@) == Some(component),
        component.len() > 0,
        str_arg(args.strings@, "description"@) == Some(description),
        description.len() > 0,
    ensures
        mcp_plan(registry, server, bot, "matrix_request_approval"@, args) matches McpCallView::RequestApproval(
            c,
            cat,
            d,
            src,
        ) && c == component && d == description && cat == (match str_arg(
            args.strings@,
            "category"@,
        ) {
            Some(given) => given,
            None => "code"@,
        }) && src == (match str_arg(args.strings@, "source_room_id"@) {
            Some(room) => if room.len() > 0 {
                room
            } else {
                bot
            },
            None => bot,
        }),
{
    reveal_strlit("matrix_request_approval");
    reveal_strlit("matrix_send");
    reveal_strlit("matrix_invite");
    reveal_strlit("matrix_kick");
    reveal_strlit("matrix_get_dm");
    reveal_strlit("matrix_leave");
    reveal_strlit("matrix_read");
    let name = "matrix_request_approval"@;
    assert(name.len() == 23);
    assert(name != "matrix_send"@ && name != "matrix_invite"@ && name != "matrix_kick"@);
    assert(name != "matrix_get_dm"@ && name != "matrix_leave"@ && name != "matrix_read"@);
    assert(required(args.strings@, "component"@) == Ok::<Seq<char>, Seq<char>>(component));
    assert(required(args.strings@, "description"@) == Ok::<Seq<char>, Seq<char>>(description));
}

impl MatrixMcp {
    /// What the tool `name` called with `args` comes to (see [`mcp_plan`]).
    pub fn plan_call(&self, name: &str, args: &McpArgs) -> (c: McpCall)
        requires
            self.wf(),
        ensures
            c@ == mcp_plan(self.registry(), self.server(), self.bot(), name@, *args),
    {
        if str_eq(name, "matrix_send") {
            let room_id = match required_str(args, "room_id") {
                Ok(v) => v,
                Err(e) => {
                    return McpCall::Finish(Err(e));
                },
            };
            let content = match required_str(args, "content") {
                Ok(v) => v,
                Err(e) => {
                    return McpCall::Finish(Err(e));
                },
            };
            return McpCall::Send { room_id, content };
        }
        if str_eq(name, "matrix_invite") || str_eq(name, "matrix_kick") {
            let room_id = match required_str(args, "room_id") {
                Ok(v) => v,
                Err(e) => {
                    return McpCall::Finish(Err(e));
                },
            };
            let user_id = match required_str(args, "user_id") {
                Ok(v) => v,
                Err(e) => {
                    return McpCall::Finish(Err(e));
                },
            };
            if str_eq(name, "matrix_invite") {
                return McpCall::Invite { room_id, user_id };
            }
            let reason = match str_arg_exec(args, "reason") {
                Some(x) => if !x.as_str().is_empty() {
                    x
                } else {
                    string_from("removed by agent")
                },
                None => string_from("removed by agent"),
            };
            return McpCall::Kick { room_id, user_id, reason };
        }
        if str_eq(name, "matrix_get_dm") {
            let agent = match required_str(args, "agent") {
                Ok(v) => v,
                Err(e) => {
                    return McpCall::Finish(Err(e));
                },
            };
            if let Some(room) = self.dm_registry.resolve(agent.as_str()) {
                return McpCall::Finish(Ok(string_from(room)));
            }
            let v = chars_of(agent.as_str());
            let mxid = if v.len() > 0 && v[0] == '@' {
                agent
            } else {
                let mut m = string_from("@");
                push_str(&mut m, agent.as_str());
                push_str(&mut m, ":");
                push_str(&mut m, self.server_name.as_str());
                m
            };
            return McpCall::ScanDm { mxid };
        }
        if str_eq(name, "matrix_leave") {
            return match required_str(args, "room_id") {
                Ok(room_id) => McpCall::Leave { room_id },
                Err(e) => McpCall::Finish(Err(e)),
            };
        }
        if str_eq(name, "matrix_read") {
            let room_id = match required_str(args, "room_id") {
                Ok(v) => v,
                Err(e) => {
                    return McpCall::Finish(Err(e));
                },
            };
            let limit: u32 = match args.limit {
                Some(l) => if l < 1 {
                    1
                } else if l > 20 {
                    20
                } else {
                    l as u32
                },
                None => 20,
            };
            return McpCall::Read { room_id, limit };
        }
        if str_eq(name, "matrix_request_approval") {
            let component = match required_str(args, "component") {
                Ok(v) => v,
                Err(e) => {
                    return McpCall::Finish(Err(e));
                },
            };
            let category = match str_arg_exec(args, "category") {
                Some(x) => x,
                None => string_from("code"),
            };
            let description = match required_str(args, "description") {
                Ok(v) => v,
                Err(e) => {
                    return McpCall::Finish(Err(e));
                },
            };
            let source_room_id = match str_arg_exec(args, "source_room_id") {
                Some(x) => if !x.as_str().is_empty() {
                    x
                } else {
                    string_from(self.bot_user_id.as_str())
                },
                None => string_from(self.bot_user_id.as_str()),
            };
            return McpCall::RequestApproval { component, category, description, source_room_id };
        }
        let mut e = string_from("unknown tool: ");
        push_str(&mut e, name);
        McpCall::Finish(Err(e))
    }
}

} // verus!

verus! {

/// The error text of an outcome.
pub open spec fn unit_result_view(r: Result<(), String>) -> Result<(), Seq<char>> {
    match r {
        Ok(_) => Ok(()),
        Err(e) => Err(e@),
    }
}

/// What the agent is told after a send, invite, kick or leave that the
/// homeserver answered with `outcome` (its error, as displayed).
pub open spec fn action_text(call: McpCallView, outcome: Result<(), Seq<char>>) -> Result<
    Seq<char>,
    Seq<char>,
> {
    match outcome {
        Err(e) => Err(e),
        Ok(_) => match call {
            McpCallView::Send(room, _) => Ok("Sent message to "@ + room + "."@),
            McpCallView::Invite(room, user) => Ok("Invited "@ + user + " to "@ + room + "."@),
            McpCallView::Kick(room, user, _) => Ok("Kicked "@ + user + " from "@ + room + "."@),
            McpCallView::Leave(room) => Ok("Left room "@ + room + "."@),
            _ => Ok(Seq::empty()),
        },
    }
}

/// The result of a send, invite, kick or leave (see [`action_text`]).
pub fn action_result(call: &McpCall, outcome: &Result<(), String>) -> (r: Result<String, String>)
    ensures
        result_view(r) == action_text(call@, unit_result_view(*outcome)),
{
    match outcome {
        Err(e) => Err(string_from(e.as_str())),
        Ok(_) => {
            let mut s = String::new();
            match call {
                McpCall::Send { room_id, .. } => {
                    push_str(&mut s, "Sent message to ");
                    push_str(&mut s, room_id.as_str());
                    push_str(&mut s, ".");
                },
                McpCall::Invite { room_id, user_id } => {
                    push_str(&mut s, "Invited ");
                    push_str(&mut s, user_id.as_str());
                    push_str(&mut s, " to ");
                    push_str(&mut s, room_id.as_str());
                    push_str(&mut s, ".");
                },
                McpCall::Kick { room_id, user_id, .. } => {
                    push_str(&mut s, "Kicked ");
                    push_str(&mut s, user_id.as_str());
                    push_str(&mut s, " from ");
                    push_str(&mut s, room_id.as_str());
                    push_str(&mut s, ".");
                },
                McpCall::Leave { room_id } => {
                    push_str(&mut s, "Left room ");
                    push_str(&mut s, room_id.as_str());
                    push_str(&mut s, ".");
                },
                _ => {},
            }
            Ok(s)
        },
    }
}

/// What the agent is told after scanning the joined rooms for a DM with `mxid`.
pub open spec fn scan_text(mxid: Seq<char>, outcome: Result<Option<Seq<char>>, Seq<char>>) -> Result<
    Seq<char>,
    Seq<char>,
> {
    match outcome {
        Ok(Some(room)) => Ok(room),
        Ok(None) => Err(
            "no DM room found with '"@ + mxid
                + "' — not in agent registry and no 2-member joined room shared with that user exists"@,
        ),
        Err(e) => Err("DM room scan failed: "@ + e),
    }
}

/// The texts of a DM scan outcome.
pub open spec fn scan_view(r: Result<Option<String>, String>) -> Result<Option<Seq<char>>, Seq<char>> {
    match r {
        Ok(Some(s)) => Ok(Some(s@)),
        Ok(None) => Ok(None),
        Err(e) => Err(e@),
    }
}

/// The result of a DM scan (see [`scan_text`]).
pub fn scan_result(mxid: &str, outcome: &Result<Option<String>, String>) -> (r: Result<String, String>)
    ensures
        result_view(r) == scan_text(mxid@, scan_view(*outcome)),
{
    match outcome {
        Ok(Some(room)) => Ok(string_from(room.as_str())),
        Ok(None) => {
            let mut s = string_from("no DM room found with '");
            push_str(&mut s, mxid);
            push_str(
                &mut s,
                "' — not in agent registry and no 2-member joined room shared with that user exists",
            );
            Err(s)
        },
        Err(e) => {
            let mut s = string_from("DM room scan failed: ");
            push_str(&mut s, e.as_str());
            Err(s)
        },
    }
}

/// The lines `sender: body` of `msgs`, the sender without its server part,
/// joined by newlines.
pub open spec fn read_lines(msgs: Seq<(String, String)>) -> Seq<char>
    decreases msgs.len(),
{
    if msgs.len() == 0 {
        Seq::empty()
    } else {
        let m = msgs.last();
        let line = before_char(m.0@, ':') + ": "@ + m.1@;
        if msgs.len() == 1 {
            line
        } else {
            read_lines(msgs.drop_last()) + "\n"@ + line
        }
    }
}

/// What the agent is told after reading `msgs` (sender and body, oldest first).
pub open spec fn read_text(outcome: Result<Seq<(String, String)>, Seq<char>>) -> Result<
    Seq<char>,
    Seq<char>,
> {
    match outcome {
        Ok(msgs) => if msgs.len() == 0 {
            Ok("No messages found."@)
        } else {
            Ok(read_lines(msgs))
        },
        Err(e) => Err(e),
    }
}

/// The messages or error text of a read outcome.
pub open spec fn read_view(r: Result<Vec<(String, String)>, String>) -> Result<Seq<(String, String)>, Seq<char>> {
    match r {
        Ok(v) => Ok(v@),
        Err(e) => Err(e@),
    }
}

/// The result of `matrix_read` (see [`read_text`]).
pub fn read_result(outcome: &Result<Vec<(String, String)>, String>) -> (r: Result<String, String>)
    ensures
        result_view(r) == read_text(read_view(*outcome)),
{
    match outcome {
        Err(e) => Err(string_from(e.as_str())),
        Ok(msgs) => {
            if msgs.len() == 0 {
                return Ok(string_from("No messages found."));
            }
            let mut s = String::new();
            let mut i: usize = 0;
            while i < msgs.len()
                invariant
                    i <= msgs@.len(),
                    msgs@.len() > 0,
                    s@ == read_lines(msgs@.take(i as int)),
                decreases msgs.len() - i,
            {
                let (sender, body) = &msgs[i];
                let v = chars_of(sender.as_str());
                let end = match find_char_exec(&v, 0, v.len(), ':') {
                    Some(k) => k,
                    None => v.len(),
                };
                proof {
                    assert(v@.subrange(0, v.len() as int) =~= v@);
                    assert(msgs@.take(i + 1).drop_last() =~= msgs@.take(i as int));
                    assert(v@.subrange(0, end as int) =~= before_char(sender@, ':'));
                }
                if i > 0 {
                    push_str(&mut s, "\n");
                }
                let short = string_of_range(&v, 0, end);
                push_str(&mut s, short.as_str());
                push_str(&mut s, ": ");
                push_str(&mut s, body.as_str());
                i = i + 1;
            }
            assert(msgs@.take(msgs@.len() as int) =~= msgs@);
            Ok(s)
        },
    }
}

/// What the agent is told after asking for approval: the registration failure,
/// the posting failure, or the id to wait on.
pub open spec fn approval_request_text(
    registered: Result<Seq<char>, Seq<char>>,
    posted: Result<(), Seq<char>>,
) -> Result<Seq<char>, Seq<char>> {
    match registered {
        Err(e) => Err(e),
        Ok(id) => match posted {
            Err(e) => Err(e),
            Ok(_) => Ok(
                "approval_id: "@ + id
                    + " — posted to approval room. Stop working and wait for approval notification in your Matrix room."@,
            ),
        },
    }
}

/// The notice posted to the approval room for a registered request (the same
/// notice as the approval relay's).
pub fn approval_room_notice(component: &str, category: &str, description: &str, id: &str) -> (s:
    String)
    ensures
        s@ == request_notice_text(component@, category@, description@, id@),
{
    request_notice(component, category, description, id)
}

/// The result of an approval request (see [`approval_request_text`]); `posted` is
/// only looked at once the request is registered.
pub fn approval_request_result(registered: &Result<String, String>, posted: &Result<(), String>) -> (r:
    Result<String, String>)
    ensures
        result_view(r) == approval_request_text(result_view(*registered), unit_result_view(*posted)),
{
    match registered {
        Err(e) => Err(string_from(e.as_str())),
        Ok(id) => match posted {
            Err(e) => Err(string_from(e.as_str())),
            Ok(_) => {
                let mut s = string_from("approval_id: ");
                push_str(&mut s, id.as_str());
                push_str(
                    &mut s,
                    " — posted to approval room. Stop working and wait for approval notification in your Matrix room.",
                );
                Ok(s)
            },
        },
    }
}

} // verus!
