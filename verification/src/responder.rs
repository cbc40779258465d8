//! How an agent answers in a room: when it answers, what prompt it sends, which
//! tools it offers, what each tool call becomes and what the model is told back.
//!
//! The HTTP exchanges with the model and the tool services are made outside;
//! what is sent and what is made of the answers is decided here.

use vstd::prelude::*;
use crate::pairs::{find_key, last_key_index};
use crate::text::{
    chars_of, floor_prefix, lemma_utf8_len_prefix, push_decimal, push_range, push_str, str_eq,
    string_from, trim, trim_bounds, trim_end_char, trim_end_char_exec, utf8_len,
};
use crate::types::{ChatEvent, ChatEventKind};

verus! {

/// The system prompt of Guilhem, the org agent.
pub const GUILHEM_SYSTEM: &'static str = "You are Guilhem de Tudela, the org-level agent and chronicler of the Occitan stack. \
You live in Matrix and speak with Pierre-Luc and the stack's own agents. The stack's components: \
Farga = durable memory/coherence (signals, org/project context), Amassada = sessions, Charradissa = your Matrix presence, Synapse = homeserver. \
\
You have tools to query Farga directly, and one tool to write to it. USE the read tools to ground answers in the \
stack's real state — do not guess or confabulate what Farga holds. When asked about the stack, your memory, prior \
decisions, or current state, call the relevant read tool first, then answer from what it returns. If a tool errors, \
say so plainly and report the boundary honestly rather than inventing an answer. \
\
You can POST a chronicle to Farga with farga_post_chronicle. This is your function as chronicler: record what \
happened, what it means for the trajectory, and what is now different. Writes are APPEND-ONLY and durable — you add \
to memory, you can never edit or delete it. Farga does not preserve a separate author field, so SIGN your chronicles \
('— Guilhem') and make them self-identifying. Post only when there is something genuinely worth recording, and only \
when asked to or when you judge a real milestone warrants it; do not chatter into durable memory. \
\
The room you are in is working memory since the last concierge sweep; durable memory lives in Farga. \
Be substantive, honest, and concise. \
\
Guilhem can now also reach the dispatcher and Amassada. \
READ tools (use freely to orient): dispatcher_list_agent_specs lists valid domain/facet specs; \
dispatcher_get_agent_result polls a dispatched job; amassada_state returns the current Amassada session state. \
ACTION tools (use DELIBERATELY — these spawn real work and cost tokens): \
dispatcher_invoke_agent spawns a facet agent as a real k8s Job; \
amassada_start_session starts a multi-agent Amassada session. \
Before using any ACTION tool, explain your reasoning in-room. \
Never invoke speculatively. Prefer to answer from read tools first.";

/// Model and tool round-trips allowed for one reply.
pub const REPLY_TOOL_ROUNDS: u32 = 5;

/// Token cap of one model answer.
pub const REPLY_MAX_TOKENS: u32 = 1536;

/// Bytes of a Farga tool result kept for the model.
pub const MAX_TOOL_RESULT_BYTES: usize = 6000;

/// The reply when the tool budget runs out before a final answer.
pub const TOOL_LIMIT_REPLY: &'static str = "(I reached my tool-call limit before composing a full answer — ask me to continue.)";

/// Whether an event is one the agent answers: a message or mention from someone
/// other than the agent itself.
pub open spec fn responds_to(sender: Seq<char>, kind: ChatEventKind, self_user_id: Seq<char>) -> bool {
    sender != self_user_id && (kind is Message || kind is Mention)
}

/// Whether the agent answers `event`: only messages and mentions, never its own.
pub fn should_respond(event: &ChatEvent, self_user_id: &str) -> (b: bool)
    ensures
        b == responds_to(event.sender@, event.kind, self_user_id@),
{
    let own = str_eq(event.sender.as_str(), self_user_id);
    let kind_ok = match event.kind {
        ChatEventKind::Message => true,
        ChatEventKind::Mention => true,
        _ => false,
    };
    !own && kind_ok
}

/// An agent that answers in rooms with a language model and tools.
pub struct Responder {
    api_key: String,
    model: String,
    pub server_name: String,
    farga_url: String,
    dispatcher_url: String,
    amassada_url: String,
    system_prompt: String,
    is_org_agent: bool,
}

/// What a [`Responder`] holds.
pub struct ResponderView {
    pub api_key: Seq<char>,
    pub model: Seq<char>,
    pub server_name: Seq<char>,
    pub farga_url: Seq<char>,
    pub dispatcher_url: Seq<char>,
    pub amassada_url: Seq<char>,
    pub system_prompt: Seq<char>,
    pub is_org_agent: bool,
}

impl View for Responder {
    type V = ResponderView;

    closed spec fn view(&self) -> ResponderView {
        ResponderView {
            api_key: self.api_key@,
            model: self.model@,
            server_name: self.server_name@,
            farga_url: self.farga_url@,
            dispatcher_url: self.dispatcher_url@,
            amassada_url: self.amassada_url@,
            system_prompt: self.system_prompt@,
            is_org_agent: self.is_org_agent,
        }
    }
}

impl Responder {
    /// The org agent (Guilhem): the Guilhem system prompt and the full tool set.
    pub fn new(
        api_key: String,
        model: String,
        server_name: String,
        farga_url: String,
        dispatcher_url: String,
        amassada_url: String,
    ) -> (r: Self)
        ensures
            r@.api_key == api_key@,
            r@.model == model@,
            r@.server_name == server_name@,
            r@.farga_url == trim_end_char(farga_url@, '/'),
            r@.dispatcher_url == trim_end_char(dispatcher_url@, '/'),
            r@.amassada_url == trim_end_char(amassada_url@, '/'),
            r@.system_prompt == GUILHEM_SYSTEM@,
            r@.is_org_agent,
    {
        Self::with_config(
            api_key,
            model,
            server_name,
            farga_url,
            dispatcher_url,
            amassada_url,
            string_from(GUILHEM_SYSTEM),
            true,
        )
    }

    /// An agent with its own system prompt; `is_org_agent` selects the full tool
    /// set, else only the Farga tools. Trailing `/`s of the service URLs are
    /// dropped.
    pub fn with_config(
        api_key: String,
        model: String,
        server_name: String,
        farga_url: String,
        dispatcher_url: String,
        amassada_url: String,
        system_prompt: String,
        is_org_agent: bool,
    ) -> (r: Self)
        ensures
            r@.api_key == api_key@,
            r@.model == model@,
            r@.server_name == server_name@,
            r@.farga_url == trim_end_char(farga_url@, '/'),
            r@.dispatcher_url == trim_end_char(dispatcher_url@, '/'),
            r@.amassada_url == trim_end_char(amassada_url@, '/'),
            r@.system_prompt == system_prompt@,
            r@.is_org_agent == is_org_agent,
    {
        Responder {
            api_key,
            model,
            server_name,
            farga_url: trim_end_char_exec(farga_url.as_str(), '/'),
            dispatcher_url: trim_end_char_exec(dispatcher_url.as_str(), '/'),
            amassada_url: trim_end_char_exec(amassada_url.as_str(), '/'),
            system_prompt,
            is_org_agent,
        }
    }

    pub fn api_key(&self) -> (s: &str)
        ensures
            s@ == self@.api_key,
    {
        self.api_key.as_str()
    }

    pub fn model(&self) -> (s: &str)
        ensures
            s@ == self@.model,
    {
        self.model.as_str()
    }

    pub fn farga_url(&self) -> (s: &str)
        ensures
            s@ == self@.farga_url,
    {
        self.farga_url.as_str()
    }

    pub fn dispatcher_url(&self) -> (s: &str)
        ensures
            s@ == self@.dispatcher_url,
    {
        self.dispatcher_url.as_str()
    }

    pub fn amassada_url(&self) -> (s: &str)
        ensures
            s@ == self@.amassada_url,
    {
        self.amassada_url.as_str()
    }

    pub fn system_prompt(&self) -> (s: &str)
        ensures
            s@ == self@.system_prompt,
    {
        self.system_prompt.as_str()
    }

    pub fn is_org_agent(&self) -> (b: bool)
        ensures
            b == self@.is_org_agent,
    {
        self.is_org_agent
    }
}

/// The lines `sender: content` of `history`, oldest first.
pub open spec fn history_lines(history: Seq<ChatEvent>) -> Seq<char>
    decreases history.len(),
{
    if history.len() == 0 {
        Seq::empty()
    } else {
        history_lines(history.drop_last()) + history.last().sender@ + ": "@
            + history.last().content@ + "\n"@
    }
}

/// The user turn sent to the model for `latest`, after `history`.
pub open spec fn user_prompt(history: Seq<ChatEvent>, latest: ChatEvent) -> Seq<char> {
    "Recent conversation (oldest first):\n"@ + history_lines(history) + "\nLatest message from "@
        + latest.sender@ + ":\n"@ + latest.content@ + "\n\nReply as Guilhem."@
}

impl Responder {
    /// The user turn for `latest`: the conversation so far, oldest first, then the
    /// latest message.
    pub fn build_user_prompt(&self, history: &[ChatEvent], latest: &ChatEvent) -> (s: String)
        ensures
            s@ == user_prompt(history@, *latest),
    {
        let mut s = string_from("Recent conversation (oldest first):\n");
        let mut i: usize = 0;
        assert(history@.take(0) =~= Seq::<ChatEvent>::empty());
        while i < history.len()
            invariant
                i <= history@.len(),
                s@ == "Recent conversation (oldest first):\n"@ + history_lines(history@.take(i as int)),
            decreases history.len() - i,
        {
            let e = &history[i];
            push_str(&mut s, e.sender.as_str());
            push_str(&mut s, ": ");
            push_str(&mut s, e.content.as_str());
            push_str(&mut s, "\n");
            assert(history@.take(i + 1).drop_last() =~= history@.take(i as int));
            i = i + 1;
        }
        assert(history@.take(history@.len() as int) =~= history@);
        push_str(&mut s, "\nLatest message from ");
        push_str(&mut s, latest.sender.as_str());
        push_str(&mut s, ":\n");
        push_str(&mut s, latest.content.as_str());
        push_str(&mut s, "\n\nReply as Guilhem.");
        s
    }
}

} // verus!

verus! {

/// One string parameter of a tool.
#[derive(Debug, Clone, Copy)]
pub struct ToolParam {
    pub name: &'static str,
    pub description: Option<&'static str>,
}

/// A tool offered to the model: its name, what it does, its string parameters
/// (those listed in `required` must be given) and whether the prompt cache
/// breakpoint sits on it.
#[derive(Debug, Clone)]
pub struct ToolSpec {
    pub name: &'static str,
    pub description: &'static str,
    pub params: Vec<ToolParam>,
    pub required: Vec<&'static str>,
    pub cache_breakpoint: bool,
}

/// What a [`ToolSpec`] says.
pub struct ToolView {
    pub name: Seq<char>,
    pub description: Seq<char>,
    pub params: Seq<(Seq<char>, Option<Seq<char>>)>,
    pub required: Seq<Seq<char>>,
    pub cache_breakpoint: bool,
}

/// What a tool parameter says.
pub open spec fn param_view(p: ToolParam) -> (Seq<char>, Option<Seq<char>>) {
    (
        p.name@,
        match p.description {
            Some(d) => Some(d@),
            None => None,
        },
    )
}

impl View for ToolSpec {
    type V = ToolView;

    open spec fn view(&self) -> ToolView {
        ToolView {
            name: self.name@,
            description: self.description@,
            params: self.params@.map_values(|p: ToolParam| param_view(p)),
            required: self.required@.map_values(|r: &str| r@),
            cache_breakpoint: self.cache_breakpoint,
        }
    }
}

/// The names of a tool set, in order.
pub open spec fn tool_names(tools: Seq<ToolView>) -> Seq<Seq<char>> {
    tools.map_values(|t: ToolView| t.name)
}

/// The component agents' tool set, as offered to the model.
pub open spec fn component_tool_catalog() -> Seq<ToolView> {
    seq![
        ToolView {
            name: "farga_recent_signals"@,
            description: "Read recent signals from Farga for a project (chronicles, decisions, blockers)."@,
            params: seq![("project"@, Some("Project id, e.g. 'occitan'."@))],
            required: seq![],
            cache_breakpoint: false,
        },
        ToolView {
            name: "farga_project_context"@,
            description: "Read the durable context document for a project from Farga."@,
            params: seq![("project"@, Some("Project id, e.g. 'occitan'."@))],
            required: seq![],
            cache_breakpoint: false,
        },
        ToolView {
            name: "farga_org_context"@,
            description: "Read the durable org-level context from Farga."@,
            params: seq![("org"@, Some("Org id, e.g. 'occitan'."@))],
            required: seq![],
            cache_breakpoint: false,
        },
        ToolView {
            name: "farga_post_chronicle"@,
            description: "Append a chronicle to Farga's durable memory. APPEND-ONLY — sign it with your component name."@,
            params: seq![("content"@, None), ("project"@, None)],
            required: seq!["content"@],
            cache_breakpoint: true,
        },
    ]
}

/// The org agent's tool set, as offered to the model.
pub open spec fn org_tool_catalog() -> Seq<ToolView> {
    seq![
        ToolView {
            name: "farga_recent_signals"@,
            description: "Read recent signals from Farga (the stack's durable memory) for a project. Signals include prior chronicles, decisions, blockers, and observations. This is how you recall your own and the stack's history."@,
            params: seq![("project"@, Some("Project id, e.g. 'occitan'. Defaults to occitan."@))],
            required: seq![],
            cache_breakpoint: false,
        },
        ToolView {
            name: "farga_project_context"@,
            description: "Read the durable context document for a project from Farga (goals, state, structure)."@,
            params: seq![("project"@, Some("Project id, e.g. 'occitan'. Defaults to occitan."@))],
            required: seq![],
            cache_breakpoint: false,
        },
        ToolView {
            name: "farga_org_context"@,
            description: "Read the durable org-level context from Farga (the organization's overall state and initiatives)."@,
            params: seq![("org"@, Some("Org id, e.g. 'occitan'. Defaults to occitan."@))],
            required: seq![],
            cache_breakpoint: false,
        },
        ToolView {
            name: "farga_post_chronicle"@,
            description: "Append a chronicle to Farga's durable memory as a new signal. This is the chronicler's function: record what happened, what it means, and what is now different. APPEND-ONLY — you add to memory and can never edit or delete. Farga keeps no separate author field, so sign the chronicle ('— Guilhem') so it is self-identifying. Post only when there is something genuinely worth recording."@,
            params: seq![("content"@, Some("The chronicle text. Write faithfully and sign it."@)), ("project"@, Some("Project id. Defaults to occitan."@))],
            required: seq!["content"@],
            cache_breakpoint: false,
        },
        ToolView {
            name: "dispatcher_list_agent_specs"@,
            description: "Lists the valid domain/facet agent specs registered in the dispatcher. Use this to understand what sub-agents can be invoked before deciding whether to dispatch work."@,
            params: seq![],
            required: seq![],
            cache_breakpoint: false,
        },
        ToolView {
            name: "dispatcher_get_agent_result"@,
            description: "Polls a previously dispatched agent job for its result. Use after dispatcher_invoke_agent to check completion."@,
            params: seq![("job_id"@, Some("The job ID returned when the agent was invoked."@)), ("session_id"@, Some("The session ID used when the agent was invoked."@))],
            required: seq!["job_id"@, "session_id"@],
            cache_breakpoint: false,
        },
        ToolView {
            name: "amassada_state"@,
            description: "Returns the current Amassada session state. Use this to understand what multi-agent sessions are active before deciding to start a new one."@,
            params: seq![],
            required: seq![],
            cache_breakpoint: false,
        },
        ToolView {
            name: "dispatcher_invoke_agent"@,
            description: "Spawns a facet agent as a real Kubernetes Job via the dispatcher. THIS IS AN ACTION TOOL — it dispatches real work and costs tokens. Use deliberately: only when a task genuinely needs a sub-agent, explain your reasoning in-room before invoking, and never invoke speculatively."@,
            params: seq![("domain"@, Some("The agent domain (e.g. 'occitan')."@)), ("facet"@, Some("The agent facet/role within the domain."@)), ("task"@, Some("The task description to pass to the agent."@)), ("session_id"@, Some("Session identifier for grouping related jobs."@)), ("context"@, Some("Optional additional context for the agent."@))],
            required: seq!["domain"@, "facet"@, "task"@, "session_id"@],
            cache_breakpoint: false,
        },
        ToolView {
            name: "amassada_start_session"@,
            description: "Starts a multi-agent Amassada session. THIS IS AN ACTION TOOL — it costs real tokens and launches a multi-agent workflow. Use deliberately: only when a task genuinely warrants multi-agent delegation, explain your reasoning in-room before invoking, and never invoke speculatively."@,
            params: seq![("goal"@, Some("The goal or objective for the Amassada session."@)), ("canvas_id"@, Some("Optional canvas ID (default: 'design-session')."@))],
            required: seq!["goal"@],
            cache_breakpoint: true,
        },
    ]
}

fn component_tools() -> (tools: Vec<ToolSpec>)
    ensures
        tools@.map_values(|t: ToolSpec| t.view()) == component_tool_catalog(),
{
    let mut tools: Vec<ToolSpec> = Vec::new();
    {
        let mut params: Vec<ToolParam> = Vec::new();
        params.push(ToolParam { name: "project", description: Some("Project id, e.g. 'occitan'.") });
        let mut required: Vec<&'static str> = Vec::new();
        assert(params@.map_values(|p: ToolParam| param_view(p)) =~= component_tool_catalog()[0].params);
        assert(required@.map_values(|r: &str| r@) =~= component_tool_catalog()[0].required);
        tools.push(ToolSpec { name: "farga_recent_signals", description: "Read recent signals from Farga for a project (chronicles, decisions, blockers).", params, required, cache_breakpoint: false });
        assert(tools@[0].view() == component_tool_catalog()[0]);
    }
    {
        let mut params: Vec<ToolParam> = Vec::new();
        params.push(ToolParam { name: "project", description: Some("Project id, e.g. 'occitan'.") });
        let mut required: Vec<&'static str> = Vec::new();
        assert(params@.map_values(|p: ToolParam| param_view(p)) =~= component_tool_catalog()[1].params);
        assert(required@.map_values(|r: &str| r@) =~= component_tool_catalog()[1].required);
        tools.push(ToolSpec { name: "farga_project_context", description: "Read the durable context document for a project from Farga.", params, required, cache_breakpoint: false });
        assert(tools@[1].view() == component_tool_catalog()[1]);
    }
    {
        let mut params: Vec<ToolParam> = Vec::new();
        params.push(ToolParam { name: "org", description: Some("Org id, e.g. 'occitan'.") });
        let mut required: Vec<&'static str> = Vec::new();
        assert(params@.map_values(|p: ToolParam| param_view(p)) =~= component_tool_catalog()[2].params);
        assert(required@.map_values(|r: &str| r@) =~= component_tool_catalog()[2].required);
        tools.push(ToolSpec { name: "farga_org_context", description: "Read the durable org-level context from Farga.", params, required, cache_breakpoint: false });
        assert(tools@[2].view() == component_tool_catalog()[2]);
    }
    {
        let mut params: Vec<ToolParam> = Vec::new();
        params.push(ToolParam { name: "content", description: None });
        params.push(ToolParam { name: "project", description: None });
        let mut required: Vec<&'static str> = Vec::new();
        required.push("content");
        assert(params@.map_values(|p: ToolParam| param_view(p)) =~= component_tool_catalog()[3].params);
        assert(required@.map_values(|r: &str| r@) =~= component_tool_catalog()[3].required);
        tools.push(ToolSpec { name: "farga_post_chronicle", description: "Append a chronicle to Farga's durable memory. APPEND-ONLY — sign it with your component name.", params, required, cache_breakpoint: true });
        assert(tools@[3].view() == component_tool_catalog()[3]);
    }
    proof {
        assert(tools@.map_values(|t: ToolSpec| t.view()) =~= component_tool_catalog());
    }
    tools
}

fn org_tools() -> (tools: Vec<ToolSpec>)
    ensures
        tools@.map_values(|t: ToolSpec| t.view()) == org_tool_catalog(),
{
    let mut tools: Vec<ToolSpec> = Vec::new();
    {
        let mut params: Vec<ToolParam> = Vec::new();
        params.push(ToolParam { name: "project", description: Some("Project id, e.g. 'occitan'. Defaults to occitan.") });
        let mut required: Vec<&'static str> = Vec::new();
        assert(params@.map_values(|p: ToolParam| param_view(p)) =~= org_tool_catalog()[0].params);
        assert(required@.map_values(|r: &str| r@) =~= org_tool_catalog()[0].required);
        tools.push(ToolSpec { name: "farga_recent_signals", description: "Read recent signals from Farga (the stack's durable memory) for a project. Signals include prior chronicles, decisions, blockers, and observations. This is how you recall your own and the stack's history.", params, required, cache_breakpoint: false });
        assert(tools@[0].view() == org_tool_catalog()[0]);
    }
    {
        let mut params: Vec<ToolParam> = Vec::new();
        params.push(ToolParam { name: "project", description: Some("Project id, e.g. 'occitan'. Defaults to occitan.") });
        let mut required: Vec<&'static str> = Vec::new();
        assert(params@.map_values(|p: ToolParam| param_view(p)) =~= org_tool_catalog()[1].params);
        assert(required@.map_values(|r: &str| r@) =~= org_tool_catalog()[1].required);
        tools.push(ToolSpec { name: "farga_project_context", description: "Read the durable context document for a project from Farga (goals, state, structure).", params, required, cache_breakpoint: false });
        assert(tools@[1].view() == org_tool_catalog()[1]);
    }
    {
        let mut params: Vec<ToolParam> = Vec::new();
        params.push(ToolParam { name: "org", description: Some("Org id, e.g. 'occitan'. Defaults to occitan.") });
        let mut required: Vec<&'static str> = Vec::new();
        assert(params@.map_values(|p: ToolParam| param_view(p)) =~= org_tool_catalog()[2].params);
        assert(required@.map_values(|r: &str| r@) =~= org_tool_catalog()[2].required);
        tools.push(ToolSpec { name: "farga_org_context", description: "Read the durable org-level context from Farga (the organization's overall state and initiatives).", params, required, cache_breakpoint: false });
        assert(tools@[2].view() == org_tool_catalog()[2]);
    }
    {
        let mut params: Vec<ToolParam> = Vec::new();
        params.push(ToolParam { name: "content", description: Some("The chronicle text. Write faithfully and sign it.") });
        params.push(ToolParam { name: "project", description: Some("Project id. Defaults to occitan.") });
        let mut required: Vec<&'static str> = Vec::new();
        required.push("content");
        assert(params@.map_values(|p: ToolParam| param_view(p)) =~= org_tool_catalog()[3].params);
        assert(required@.map_values(|r: &str| r@) =~= org_tool_catalog()[3].required);
        tools.push(ToolSpec { name: "farga_post_chronicle", description: "Append a chronicle to Farga's durable memory as a new signal. This is the chronicler's function: record what happened, what it means, and what is now different. APPEND-ONLY — you add to memory and can never edit or delete. Farga keeps no separate author field, so sign the chronicle ('— Guilhem') so it is self-identifying. Post only when there is something genuinely worth recording.", params, required, cache_breakpoint: false });
        assert(tools@[3].view() == org_tool_catalog()[3]);
    }
    {
        let mut params: Vec<ToolParam> = Vec::new();
        let mut required: Vec<&'static str> = Vec::new();
        assert(params@.map_values(|p: ToolParam| param_view(p)) =~= org_tool_catalog()[4].params);
        assert(required@.map_values(|r: &str| r@) =~= org_tool_catalog()[4].required);
        tools.push(ToolSpec { name: "dispatcher_list_agent_specs", description: "Lists the valid domain/facet agent specs registered in the dispatcher. Use this to understand what sub-agents can be invoked before deciding whether to dispatch work.", params, required, cache_breakpoint: false });
        assert(tools@[4].view() == org_tool_catalog()[4]);
    }
    {
        let mut params: Vec<ToolParam> = Vec::new();
        params.push(ToolParam { name: "job_id", description: Some("The job ID returned when the agent was invoked.") });
        params.push(ToolParam { name: "session_id", description: Some("The session ID used when the agent was invoked.") });
        let mut required: Vec<&'static str> = Vec::new();
        required.push("job_id");
        required.push("session_id");
        assert(params@.map_values(|p: ToolParam| param_view(p)) =~= org_tool_catalog()[5].params);
        assert(required@.map_values(|r: &str| r@) =~= org_tool_catalog()[5].required);
        tools.push(ToolSpec { name: "dispatcher_get_agent_result", description: "Polls a previously dispatched agent job for its result. Use after dispatcher_invoke_agent to check completion.", params, required, cache_breakpoint: false });
        assert(tools@[5].view() == org_tool_catalog()[5]);
    }
    {
        let mut params: Vec<ToolParam> = Vec::new();
        let mut required: Vec<&'static str> = Vec::new();
        assert(params@.map_values(|p: ToolParam| param_view(p)) =~= org_tool_catalog()[6].params);
        assert(required@.map_values(|r: &str| r@) =~= org_tool_catalog()[6].required);
        tools.push(ToolSpec { name: "amassada_state", description: "Returns the current Amassada session state. Use this to understand what multi-agent sessions are active before deciding to start a new one.", params, required, cache_breakpoint: false });
        assert(tools@[6].view() == org_tool_catalog()[6]);
    }
    {
        let mut params: Vec<ToolParam> = Vec::new();
        params.push(ToolParam { name: "domain", description: Some("The agent domain (e.g. 'occitan').") });
        params.push(ToolParam { name: "facet", description: Some("The agent facet/role within the domain.") });
        params.push(ToolParam { name: "task", description: Some("The task description to pass to the agent.") });
        params.push(ToolParam { name: "session_id", description: Some("Session identifier for grouping related jobs.") });
        params.push(ToolParam { name: "context", description: Some("Optional additional context for the agent.") });
        let mut required: Vec<&'static str> = Vec::new();
        required.push("domain");
        required.push("facet");
        required.push("task");
        required.push("session_id");
        assert(params@.map_values(|p: ToolParam| param_view(p)) =~= org_tool_catalog()[7].params);
        assert(required@.map_values(|r: &str| r@) =~= org_tool_catalog()[7].required);
        tools.push(ToolSpec { name: "dispatcher_invoke_agent", description: "Spawns a facet agent as a real Kubernetes Job via the dispatcher. THIS IS AN ACTION TOOL — it dispatches real work and costs tokens. Use deliberately: only when a task genuinely needs a sub-agent, explain your reasoning in-room before invoking, and never invoke speculatively.", params, required, cache_breakpoint: false });
        assert(tools@[7].view() == org_tool_catalog()[7]);
    }
    {
        let mut params: Vec<ToolParam> = Vec::new();
        params.push(ToolParam { name: "goal", description: Some("The goal or objective for the Amassada session.") });
        params.push(ToolParam { name: "canvas_id", description: Some("Optional canvas ID (default: 'design-session').") });
        let mut required: Vec<&'static str> = Vec::new();
        required.push("goal");
        assert(params@.map_values(|p: ToolParam| param_view(p)) =~= org_tool_catalog()[8].params);
        assert(required@.map_values(|r: &str| r@) =~= org_tool_catalog()[8].required);
        tools.push(ToolSpec { name: "amassada_start_session", description: "Starts a multi-agent Amassada session. THIS IS AN ACTION TOOL — it costs real tokens and launches a multi-agent workflow. Use deliberately: only when a task genuinely warrants multi-agent delegation, explain your reasoning in-room before invoking, and never invoke speculatively.", params, required, cache_breakpoint: true });
        assert(tools@[8].view() == org_tool_catalog()[8]);
    }
    proof {
        assert(tools@.map_values(|t: ToolSpec| t.view()) =~= org_tool_catalog());
    }
    tools
}

impl Responder {
    /// The tools offered to the model: the full set for the org agent, the Farga
    /// tools alone for a component agent.
    pub fn tools(&self) -> (tools: Vec<ToolSpec>)
        ensures
            tools@.map_values(|t: ToolSpec| t.view()) == (if self@.is_org_agent {
                org_tool_catalog()
            } else {
                component_tool_catalog()
            }),
    {
        if !self.is_org_agent {
            return component_tools();
        }
        org_tools()
    }
}

} // verus!

verus! {

/// The string arguments of a tool call (the string-valued fields of its JSON
/// input); later pairs override earlier ones.
#[derive(Debug, Clone)]
pub struct ToolInput {
    pub fields: Vec<(String, String)>,
}

/// The argument `key` of a tool call, or `default` when absent.
pub open spec fn arg_or(input: Seq<(String, String)>, key: Seq<char>, default: Seq<char>) -> Seq<
    char,
> {
    match last_key_index(input, key) {
        Some(i) => input[i].1@,
        None => default,
    }
}

fn arg(input: &ToolInput, key: &str, default: &str) -> (s: String)
    ensures
        s@ == arg_or(input.fields@, key@, default@),
{
    match find_key(&input.fields, key) {
        Some(i) => string_from(input.fields[i].1.as_str()),
        None => string_from(default),
    }
}

/// The arguments of a tool call, an absent one reading as empty.
pub open spec fn arg_of(input: Seq<(String, String)>) -> spec_fn(Seq<char>) -> Seq<char> {
    |k: Seq<char>| arg_or(input, k, Seq::empty())
}

/// What a tool call comes to.
#[derive(Debug, Clone)]
pub enum ToolCall {
    /// No service is called; `text` is the result.
    Done { text: String },
    /// GET `url` on Farga.
    FargaGet { url: String },
    /// POST a chronicle signal (`content`, for `project`) to `url` on Farga.
    PostChronicle { url: String, project: String, content: String },
    /// Call `tool` on the dispatcher with string `arguments`.
    Dispatcher { tool: String, arguments: Vec<(String, String)> },
    /// GET `url` on Amassada.
    AmassadaGet { url: String },
    /// Start an Amassada session with `goal` on `canvas_id`, at `url`.
    AmassadaStart { url: String, goal: String, canvas_id: String },
}

/// What a [`ToolCall`] says.
pub enum ToolCallView {
    Done(Seq<char>),
    FargaGet(Seq<char>),
    PostChronicle(Seq<char>, Seq<char>, Seq<char>),
    Dispatcher(Seq<char>, Seq<(Seq<char>, Seq<char>)>),
    AmassadaGet(Seq<char>),
    AmassadaStart(Seq<char>, Seq<char>, Seq<char>),
}

impl View for ToolCall {
    type V = ToolCallView;

    open spec fn view(&self) -> ToolCallView {
        match self {
            ToolCall::Done { text } => ToolCallView::Done(text@),
            ToolCall::FargaGet { url } => ToolCallView::FargaGet(url@),
            ToolCall::PostChronicle { url, project, content } => ToolCallView::PostChronicle(
                url@,
                project@,
                content@,
            ),
            ToolCall::Dispatcher { tool, arguments } => ToolCallView::Dispatcher(
                tool@,
                arguments@.map_values(|a: (String, String)| (a.0@, a.1@)),
            ),
            ToolCall::AmassadaGet { url } => ToolCallView::AmassadaGet(url@),
            ToolCall::AmassadaStart { url, goal, canvas_id } => ToolCallView::AmassadaStart(
                url@,
                goal@,
                canvas_id@,
            ),
        }
    }
}

/// The arguments of a dispatcher `invoke_agent` call.
pub open spec fn invoke_arguments(input: Seq<(String, String)>) -> Seq<(Seq<char>, Seq<char>)> {
    let base = seq![
        ("domain"@, arg_or(input, "domain"@, Seq::empty())),
        ("facet"@, arg_or(input, "facet"@, Seq::empty())),
        ("task"@, arg_or(input, "task"@, Seq::empty())),
        ("session_id"@, arg_or(input, "session_id"@, Seq::empty())),
    ];
    if arg_or(input, "context"@, Seq::empty()).len() > 0 {
        base.push(("context"@, arg_or(input, "context"@, Seq::empty())))
    } else {
        base
    }
}

/// What the tool `name`, called with `input` by the agent `r`, comes to: the
/// request to make, or the error when a required argument is missing or the
/// tool is unknown. A missing `project` or `org` means `occitan`.
pub open spec fn tool_plan(r: ResponderView, name: Seq<char>, input: Seq<(String, String)>) -> ToolCallView {
    let a = arg_of(input);
    if name == "farga_post_chronicle"@ {
        if trim(a("content"@)).len() == 0 {
            ToolCallView::Done("ERROR: farga_post_chronicle requires non-empty 'content'"@)
        } else {
            ToolCallView::PostChronicle(
                r.farga_url + "/signals"@,
                arg_or(input, "project"@, "occitan"@),
                a("content"@),
            )
        }
    } else if name == "farga_recent_signals"@ {
        ToolCallView::FargaGet(
            r.farga_url + "/signals/recent?project="@ + arg_or(input, "project"@, "occitan"@),
        )
    } else if name == "farga_project_context"@ {
        ToolCallView::FargaGet(
            r.farga_url + "/context/project/"@ + arg_or(input, "project"@, "occitan"@),
        )
    } else if name == "farga_org_context"@ {
        ToolCallView::FargaGet(r.farga_url + "/context/org/"@ + arg_or(input, "org"@, "occitan"@))
    } else if name == "dispatcher_list_agent_specs"@ {
        ToolCallView::Dispatcher("list_agent_specs"@, Seq::empty())
    } else if name == "dispatcher_get_agent_result"@ {
        if a("job_id"@).len() == 0 {
            ToolCallView::Done("ERROR: dispatcher_get_agent_result requires 'job_id'"@)
        } else if a("session_id"@).len() == 0 {
            ToolCallView::Done("ERROR: dispatcher_get_agent_result requires 'session_id'"@)
        } else {
            ToolCallView::Dispatcher(
                "get_agent_result"@,
                seq![("job_id"@, a("job_id"@)), ("session_id"@, a("session_id"@))],
            )
        }
    } else if name == "dispatcher_invoke_agent"@ {
        if a("domain"@).len() == 0 {
            ToolCallView::Done("ERROR: dispatcher_invoke_agent requires 'domain'"@)
        } else if a("facet"@).len() == 0 {
            ToolCallView::Done("ERROR: dispatcher_invoke_agent requires 'facet'"@)
        } else if a("task"@).len() == 0 {
            ToolCallView::Done("ERROR: dispatcher_invoke_agent requires 'task'"@)
        } else if a("session_id"@).len() == 0 {
            ToolCallView::Done("ERROR: dispatcher_invoke_agent requires 'session_id'"@)
        } else {
            ToolCallView::Dispatcher("invoke_agent"@, invoke_arguments(input))
        }
    } else if name == "amassada_state"@ {
        ToolCallView::AmassadaGet(r.amassada_url + "/state"@)
    } else if name == "amassada_start_session"@ {
        if a("goal"@).len() == 0 {
            ToolCallView::Done("ERROR: amassada_start_session requires 'goal'"@)
        } else {
            ToolCallView::AmassadaStart(
                r.amassada_url + "/sessions"@,
                a("goal"@),
                arg_or(input, "canvas_id"@, "design-session"@),
            )
        }
    } else {
        ToolCallView::Done("ERROR: unknown tool '"@ + name + "'"@)
    }
}

fn done(text: &str) -> (c: ToolCall)
    ensures
        c@ == ToolCallView::Done(text@),
{
    ToolCall::Done { text: string_from(text) }
}

fn concat(a: &str, b: &str) -> (s: String)
    ensures
        s@ == a@ + b@,
{
    let mut s = string_from(a);
    push_str(&mut s, b);
    s
}

fn concat3(a: &str, b: &str, c: &str) -> (s: String)
    ensures
        s@ == a@ + b@ + c@,
{
    let mut s = string_from(a);
    push_str(&mut s, b);
    push_str(&mut s, c);
    s
}

fn pair(k: &str, v: String) -> (p: (String, String))
    ensures
        p.0@ == k@,
        p.1@ == v@,
{
    (string_from(k), v)
}

impl Responder {
    /// What the tool `name` called with `input` comes to (see [`tool_plan`]).
    pub fn plan_tool_call(&self, name: &str, input: &ToolInput) -> (c: ToolCall)
        ensures
            c@ == tool_plan(self@, name@, input.fields@),
    {
        let fu = self.farga_url.as_str();
        let au = self.amassada_url.as_str();
        proof {
            reveal_strlit("");
        }
        if str_eq(name, "farga_post_chronicle") {
            let content = arg(input, "content", "");
            let v = chars_of(content.as_str());
            let (lo, hi) = trim_bounds(&v, 0, v.len());
            assert(v@.subrange(0, v.len() as int) =~= v@);
            if lo == hi {
                return done("ERROR: farga_post_chronicle requires non-empty 'content'");
            }
            let project = arg(input, "project", "occitan");
            return ToolCall::PostChronicle { url: concat(fu, "/signals"), project, content };
        }
        if str_eq(name, "farga_recent_signals") {
            let project = arg(input, "project", "occitan");
            return ToolCall::FargaGet {
                url: concat3(fu, "/signals/recent?project=", project.as_str()),
            };
        }
        if str_eq(name, "farga_project_context") {
            let project = arg(input, "project", "occitan");
            return ToolCall::FargaGet { url: concat3(fu, "/context/project/", project.as_str()) };
        }
        if str_eq(name, "farga_org_context") {
            let org = arg(input, "org", "occitan");
            return ToolCall::FargaGet { url: concat3(fu, "/context/org/", org.as_str()) };
        }
        if str_eq(name, "dispatcher_list_agent_specs") {
            let arguments: Vec<(String, String)> = Vec::new();
            assert(arguments@.map_values(|a: (String, String)| (a.0@, a.1@)) =~= Seq::<
                (Seq<char>, Seq<char>),
            >::empty());
            return ToolCall::Dispatcher { tool: string_from("list_agent_specs"), arguments };
        }
        if str_eq(name, "dispatcher_get_agent_result") {
            let job_id = arg(input, "job_id", "");
            if job_id.as_str().is_empty() {
                return done("ERROR: dispatcher_get_agent_result requires 'job_id'");
            }
            let session_id = arg(input, "session_id", "");
            if session_id.as_str().is_empty() {
                return done("ERROR: dispatcher_get_agent_result requires 'session_id'");
            }
            let mut arguments: Vec<(String, String)> = Vec::new();
            arguments.push(pair("job_id", job_id));
            arguments.push(pair("session_id", session_id));
            assert(arguments@.map_values(|a: (String, String)| (a.0@, a.1@)) =~= seq![
                ("job_id"@, arg_or(input.fields@, "job_id"@, Seq::empty())),
                ("session_id"@, arg_or(input.fields@, "session_id"@, Seq::empty())),
            ]);
            return ToolCall::Dispatcher { tool: string_from("get_agent_result"), arguments };
        }
        if str_eq(name, "dispatcher_invoke_agent") {
            let domain = arg(input, "domain", "");
            if domain.as_str().is_empty() {
                return done("ERROR: dispatcher_invoke_agent requires 'domain'");
            }
            let facet = arg(input, "facet", "");
            if facet.as_str().is_empty() {
                return done("ERROR: dispatcher_invoke_agent requires 'facet'");
            }
            let task = arg(input, "task", "");
            if task.as_str().is_empty() {
                return done("ERROR: dispatcher_invoke_agent requires 'task'");
            }
            let session_id = arg(input, "session_id", "");
            if session_id.as_str().is_empty() {
                return done("ERROR: dispatcher_invoke_agent requires 'session_id'");
            }
            let context = arg(input, "context", "");
            let mut arguments: Vec<(String, String)> = Vec::new();
            arguments.push(pair("domain", domain));
            arguments.push(pair("facet", facet));
            arguments.push(pair("task", task));
            arguments.push(pair("session_id", session_id));
            let ghost base = arguments@.map_values(|a: (String, String)| (a.0@, a.1@));
            if !context.as_str().is_empty() {
                arguments.push(pair("context", context));
            }
            assert(arguments@.map_values(|a: (String, String)| (a.0@, a.1@)) =~= invoke_arguments(
                input.fields@,
            ));
            return ToolCall::Dispatcher { tool: string_from("invoke_agent"), arguments };
        }
        if str_eq(name, "amassada_state") {
            return ToolCall::AmassadaGet { url: concat(au, "/state") };
        }
        if str_eq(name, "amassada_start_session") {
            let goal = arg(input, "goal", "");
            if goal.as_str().is_empty() {
                return done("ERROR: amassada_start_session requires 'goal'");
            }
            let canvas_id = arg(input, "canvas_id", "design-session");
            return ToolCall::AmassadaStart { url: concat(au, "/sessions"), goal, canvas_id };
        }
        ToolCall::Done { text: concat3("ERROR: unknown tool '", name, "'") }
    }
}

} // verus!

verus! {

/// An HTTP answer from a tool service: whether its status is a success, the
/// status code, the status as displayed (`404 Not Found`) and the body.
#[derive(Debug, Clone)]
pub struct HttpReply {
    pub success: bool,
    pub status_code: u16,
    pub status: String,
    pub body: String,
}

/// What the model reads after a Farga GET on `url`, before the length cap; an
/// `Err` is the transport error, as displayed.
pub open spec fn farga_get_text(url: Seq<char>, reply: Result<HttpReply, String>) -> Seq<char> {
    match reply {
        Ok(r) => if r.success {
            r.body@
        } else {
            "ERROR: Farga returned HTTP "@ + r.status@ + " for "@ + url + ": "@ + r.body@
        },
        Err(e) => "ERROR: could not reach Farga at "@ + url + ": "@ + e@,
    }
}

/// The result of a Farga GET on `url` (see [`farga_get_text`]); the length cap
/// is applied by [`cap_tool_result`].
pub fn farga_get_result(url: &str, reply: &Result<HttpReply, String>) -> (s: String)
    ensures
        s@ == farga_get_text(url@, *reply),
{
    match reply {
        Ok(r) => if r.success {
            string_from(r.body.as_str())
        } else {
            let mut s = concat("ERROR: Farga returned HTTP ", r.status.as_str());
            push_str(&mut s, " for ");
            push_str(&mut s, url);
            push_str(&mut s, ": ");
            push_str(&mut s, r.body.as_str());
            s
        },
        Err(e) => {
            let mut s = concat("ERROR: could not reach Farga at ", url);
            push_str(&mut s, ": ");
            push_str(&mut s, e.as_str());
            s
        },
    }
}

/// Whether the first `k` characters of `s` are the longest prefix of at most
/// [`MAX_TOOL_RESULT_BYTES`] bytes: the cut falls on the last character boundary
/// at or before that many bytes.
pub open spec fn is_cap_cut(s: Seq<char>, k: int) -> bool {
    &&& 0 <= k <= s.len()
    &&& utf8_len(s.take(k)) <= MAX_TOOL_RESULT_BYTES
    &&& k < s.len() ==> utf8_len(s.take(k + 1)) > MAX_TOOL_RESULT_BYTES
}

/// A tool result of more than [`MAX_TOOL_RESULT_BYTES`] bytes cut at the last
/// character boundary at or before that many bytes, with a truncation mark; a
/// shorter one as it is.
pub open spec fn capped(s: Seq<char>) -> Seq<char> {
    if utf8_len(s) <= MAX_TOOL_RESULT_BYTES {
        s
    } else {
        s.take(choose|k: int| is_cap_cut(s, k)) + "\n…(truncated)"@
    }
}

/// Cuts a tool result that is longer than [`MAX_TOOL_RESULT_BYTES`] bytes at the
/// last character boundary at or before that many bytes, and marks it as
/// truncated (see [`capped`]).
pub fn cap_tool_result(s: String) -> (r: String)
    ensures
        r@ == capped(s@),
{
    let v = chars_of(s.as_str());
    let (k, bytes) = floor_prefix(&v, MAX_TOOL_RESULT_BYTES);
    proof {
        lemma_cap_prefix(v@, k as int);
    }
    if k == v.len() {
        return s;
    }
    let mut r = String::new();
    push_range(&mut r, &v, 0, k);
    push_str(&mut r, "\n…(truncated)");
    proof {
        assert(v@.subrange(0, k as int) =~= v@.take(k as int));
        assert(is_cap_cut(s@, k as int));
        let c = choose|j: int| is_cap_cut(s@, j);
        assert(c == k);
    }
    r
}

proof fn lemma_cap_prefix(s: Seq<char>, k: int)
    requires
        0 <= k <= s.len(),
        utf8_len(s.take(k)) <= MAX_TOOL_RESULT_BYTES,
        k < s.len() ==> utf8_len(s.take(k + 1)) > MAX_TOOL_RESULT_BYTES,
    ensures
        k == s.len() ==> utf8_len(s) <= MAX_TOOL_RESULT_BYTES,
        k < s.len() ==> utf8_len(s) > MAX_TOOL_RESULT_BYTES,
        forall|j: int| #[trigger] is_cap_cut(s, j) ==> j == k,
{
    assert(s.take(s.len() as int) =~= s);
    if k < s.len() {
        lemma_utf8_len_prefix(s, k + 1, s.len() as int);
    }
    assert forall|j: int| #[trigger] is_cap_cut(s, j) implies j == k by {
        if j < k {
            lemma_utf8_len_prefix(s, j + 1, k);
        } else if j > k {
            lemma_utf8_len_prefix(s, k + 1, j);
        }
    }
}

} // verus!

verus! {

/// What the model reads after posting a chronicle.
pub open spec fn chronicle_text(reply: Result<HttpReply, String>) -> Seq<char> {
    match reply {
        Ok(r) => if r.success {
            "Chronicle posted to Farga (HTTP "@ + crate::text::decimal(r.status_code as nat)
                + "). It is now durable, append-only memory."@
        } else {
            "ERROR: Farga rejected the chronicle: HTTP "@ + r.status@
        },
        Err(e) => "ERROR: could not reach Farga to post chronicle: "@ + e@,
    }
}

/// The result of posting a chronicle (see [`chronicle_text`]).
pub fn chronicle_result(reply: &Result<HttpReply, String>) -> (s: String)
    ensures
        s@ == chronicle_text(*reply),
{
    match reply {
        Ok(r) => if r.success {
            let mut s = string_from("Chronicle posted to Farga (HTTP ");
            push_decimal(&mut s, r.status_code as u64);
            push_str(&mut s, "). It is now durable, append-only memory.");
            s
        } else {
            concat("ERROR: Farga rejected the chronicle: HTTP ", r.status.as_str())
        },
        Err(e) => concat("ERROR: could not reach Farga to post chronicle: ", e.as_str()),
    }
}

/// What the model reads after asking Amassada for its state.
pub open spec fn amassada_state_text(reply: Result<HttpReply, String>) -> Seq<char> {
    match reply {
        Ok(r) => if r.success {
            r.body@
        } else {
            "ERROR: Amassada returned HTTP "@ + r.status@ + " for /state: "@ + r.body@
        },
        Err(e) => "ERROR: could not reach Amassada: "@ + e@,
    }
}

/// The result of asking Amassada for its state (see [`amassada_state_text`]).
pub fn amassada_state_result(reply: &Result<HttpReply, String>) -> (s: String)
    ensures
        s@ == amassada_state_text(*reply),
{
    match reply {
        Ok(r) => if r.success {
            string_from(r.body.as_str())
        } else {
            let mut s = concat("ERROR: Amassada returned HTTP ", r.status.as_str());
            push_str(&mut s, " for /state: ");
            push_str(&mut s, r.body.as_str());
            s
        },
        Err(e) => concat("ERROR: could not reach Amassada: ", e.as_str()),
    }
}

/// What the model reads after starting an Amassada session.
pub open spec fn amassada_start_text(reply: Result<HttpReply, String>) -> Seq<char> {
    match reply {
        Ok(r) => if r.success {
            "Amassada session started (HTTP "@ + crate::text::decimal(r.status_code as nat) + "): "@
                + r.body@
        } else {
            "ERROR: Amassada returned HTTP "@ + r.status@ + " for /sessions: "@ + r.body@
        },
        Err(e) => "ERROR: could not reach Amassada: "@ + e@,
    }
}

/// The result of starting an Amassada session (see [`amassada_start_text`]).
pub fn amassada_start_result(reply: &Result<HttpReply, String>) -> (s: String)
    ensures
        s@ == amassada_start_text(*reply),
{
    match reply {
        Ok(r) => if r.success {
            let mut s = string_from("Amassada session started (HTTP ");
            push_decimal(&mut s, r.status_code as u64);
            push_str(&mut s, "): ");
            push_str(&mut s, r.body.as_str());
            s
        } else {
            let mut s = concat("ERROR: Amassada returned HTTP ", r.status.as_str());
            push_str(&mut s, " for /sessions: ");
            push_str(&mut s, r.body.as_str());
            s
        },
        Err(e) => concat("ERROR: could not reach Amassada: ", e.as_str()),
    }
}

/// How a dispatcher call went.
#[derive(Debug, Clone)]
pub enum DispatcherReply {
    /// The dispatcher could not be reached (the transport error, as displayed).
    Unreachable(String),
    /// Its answer was not JSON (the decoding error, as displayed).
    BadResponse(String),
    /// It answered with an `error` member (that member, as JSON).
    Failed(String),
    /// It answered; the text of the first content item of its result, if any.
    Answered(Option<String>),
}

/// What the model reads after a dispatcher call.
pub open spec fn dispatcher_text(reply: DispatcherReply) -> Seq<char> {
    match reply {
        DispatcherReply::Unreachable(e) => "ERROR: could not reach dispatcher: "@ + e@,
        DispatcherReply::BadResponse(e) => "ERROR: dispatcher bad response: "@ + e@,
        DispatcherReply::Failed(e) => "ERROR: dispatcher: "@ + e@,
        DispatcherReply::Answered(Some(t)) => t@,
        DispatcherReply::Answered(None) => "(no text in dispatcher result)"@,
    }
}

/// The result of a dispatcher call (see [`dispatcher_text`]).
pub fn dispatcher_result(reply: &DispatcherReply) -> (s: String)
    ensures
        s@ == dispatcher_text(*reply),
{
    match reply {
        DispatcherReply::Unreachable(e) => concat("ERROR: could not reach dispatcher: ", e.as_str()),
        DispatcherReply::BadResponse(e) => concat("ERROR: dispatcher bad response: ", e.as_str()),
        DispatcherReply::Failed(e) => concat("ERROR: dispatcher: ", e.as_str()),
        DispatcherReply::Answered(Some(t)) => string_from(t.as_str()),
        DispatcherReply::Answered(None) => string_from("(no text in dispatcher result)"),
    }
}

/// One content block of a model answer: its `type`, and its `text`, `name` and
/// `id` members when they are strings.
#[derive(Debug, Clone)]
pub struct ContentBlock {
    pub block_type: String,
    pub text: Option<String>,
    pub name: Option<String>,
    pub id: Option<String>,
}

/// A tool the model asked for: the index of its block, its id and its name
/// (empty when absent).
#[derive(Debug, Clone)]
pub struct ToolUse {
    pub block: usize,
    pub id: String,
    pub name: String,
}

/// What one model answer leads to.
#[derive(Debug, Clone)]
pub enum RoundOutcome {
    /// Run these tools and ask again.
    UseTools(Vec<ToolUse>),
    /// The reply.
    Answer(String),
}

/// The text of an optional string, empty when absent.
pub open spec fn or_empty(o: Option<String>) -> Seq<char> {
    match o {
        Some(s) => s@,
        None => Seq::empty(),
    }
}

/// The tool requests among the first `n` blocks, in order.
pub open spec fn tool_uses(blocks: Seq<ContentBlock>, n: int) -> Seq<(int, Seq<char>, Seq<char>)>
    decreases n,
{
    if n <= 0 {
        Seq::empty()
    } else {
        let b = blocks[n - 1];
        tool_uses(blocks, n - 1) + if b.block_type@ == "tool_use"@ {
            seq![(n - 1, or_empty(b.id), or_empty(b.name))]
        } else {
            Seq::empty()
        }
    }
}

/// The text of the first `n` blocks: the `text` of each text block, joined.
pub open spec fn answer_text(blocks: Seq<ContentBlock>, n: int) -> Seq<char>
    decreases n,
{
    if n <= 0 {
        Seq::empty()
    } else {
        let b = blocks[n - 1];
        answer_text(blocks, n - 1) + if b.block_type@ == "text"@ {
            or_empty(b.text)
        } else {
            Seq::empty()
        }
    }
}

/// What a model answer with `stop_reason` and `blocks` leads to: the tools it
/// asks for when it stopped for tool use, else its text.
pub open spec fn round_result(stop_reason: Seq<char>, blocks: Seq<ContentBlock>, r: RoundOutcome) -> bool {
    if stop_reason == "tool_use"@ {
        r matches RoundOutcome::UseTools(uses) && uses@.map_values(
            |u: ToolUse| (u.block as int, u.id@, u.name@),
        ) == tool_uses(blocks, blocks.len() as int)
    } else {
        r matches RoundOutcome::Answer(text) && text@ == answer_text(blocks, blocks.len() as int)
    }
}

fn or_empty_exec(o: &Option<String>) -> (s: String)
    ensures
        s@ == or_empty(*o),
{
    match o {
        Some(s) => string_from(s.as_str()),
        None => String::new(),
    }
}

/// What a model answer leads to (see [`round_result`]).
pub fn round_outcome(stop_reason: &str, blocks: &Vec<ContentBlock>) -> (r: RoundOutcome)
    ensures
        round_result(stop_reason@, blocks@, r),
{
    if str_eq(stop_reason, "tool_use") {
        let mut uses: Vec<ToolUse> = Vec::new();
        let mut i: usize = 0;
        while i < blocks.len()
            invariant
                i <= blocks@.len(),
                uses@.map_values(|u: ToolUse| (u.block as int, u.id@, u.name@)) == tool_uses(
                    blocks@,
                    i as int,
                ),
            decreases blocks.len() - i,
        {
            let b = &blocks[i];
            if str_eq(b.block_type.as_str(), "tool_use") {
                let u = ToolUse { block: i, id: or_empty_exec(&b.id), name: or_empty_exec(&b.name) };
                uses.push(u);
            }
            assert(uses@.map_values(|u: ToolUse| (u.block as int, u.id@, u.name@)) =~= tool_uses(
                blocks@,
                i + 1,
            ));
            i = i + 1;
        }
        RoundOutcome::UseTools(uses)
    } else {
        let mut text = String::new();
        let mut i: usize = 0;
        while i < blocks.len()
            invariant
                i <= blocks@.len(),
                text@ == answer_text(blocks@, i as int),
            decreases blocks.len() - i,
        {
            let b = &blocks[i];
            let ghost before = text@;
            if str_eq(b.block_type.as_str(), "text") {
                if let Some(t) = &b.text {
                    push_str(&mut text, t.as_str());
                }
            }
            assert(text@ =~= answer_text(blocks@, i + 1));
            i = i + 1;
        }
        RoundOutcome::Answer(text)
    }
}

} // verus!
