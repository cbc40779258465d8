//! The daemon's configuration, as plain records, with the defaults that apply
//! where the configuration file leaves a value out.

use vstd::prelude::*;
use crate::text::string_from;

verus! {

/// The whole configuration.
#[derive(Debug, Clone)]
pub struct Config {
    pub org: OrgConfig,
    pub backend: BackendConfig,
    pub concierge: ConciergeConfig,
    pub approval: ApprovalConfig,
    pub tasks: TasksConfig,
    pub projects: ProjectsConfig,
    pub agents: AgentsConfig,
    pub component_agents: Vec<ComponentAgentConfig>,
    pub provisioning: ProvisioningConfig,
}

/// A component agent living in one Matrix room.
#[derive(Debug, Clone)]
pub struct ComponentAgentConfig {
    /// Component name, e.g. "amassada". Used as a display label.
    pub name: String,
    /// The Matrix room ID this agent inhabits, e.g. "!abc123:occitane.guilhem".
    pub room_id: String,
    /// System prompt for this agent.
    pub system_prompt: String,
}

/// The organisation: its name, its homeserver's URL and its Matrix server name.
#[derive(Debug, Clone)]
pub struct OrgConfig {
    pub name: String,
    pub homeserver: String,
    pub server_name: String,
}

/// The chat backend in use.
#[derive(Debug, Clone)]
pub struct BackendConfig {
    /// "matrix" or "irc".
    pub backend_type: String,
}

/// How often the concierge sweeps the rooms and looks for convergence, and the
/// tokens it may spend per day.
#[derive(Debug, Clone)]
pub struct ConciergeConfig {
    pub archival_interval_hours: u64,
    pub convergence_interval_hours: u64,
    pub daily_token_budget: u32,
}

/// How long an approval request waits for an answer.
#[derive(Debug, Clone)]
pub struct ApprovalConfig {
    pub timeout_minutes: u64,
}

/// The task tracker, and where it is reached.
#[derive(Debug, Clone)]
pub struct TasksConfig {
    /// "jira" or "none".
    pub tasks_type: String,
    pub base_url: Option<String>,
    pub project_key: Option<String>,
}

/// Whether projects are discovered on their own.
#[derive(Debug, Clone)]
pub struct ProjectsConfig {
    pub autodiscover: bool,
}

/// A project agent backed by an Amassada endpoint, serving a set of rooms.
#[derive(Debug, Clone)]
pub struct ProjectAgentConfig {
    /// The kind of project agent, e.g. "amassada_backed".
    pub agent_type: String,
    /// Matrix room ids routed to this project agent.
    pub rooms: Vec<String>,
    pub project_id: String,
    /// Endpoint template; `{session_id}` and `{room_id}` are substituted per turn.
    pub endpoint: String,
}

impl ProjectAgentConfig {
    /// Whether `other` reads the same as this configuration.
    pub open spec fn same_as(&self, other: ProjectAgentConfig) -> bool {
        &&& self.agent_type@ == other.agent_type@
        &&& crate::text::views(self.rooms@) == crate::text::views(other.rooms@)
        &&& self.project_id@ == other.project_id@
        &&& self.endpoint@ == other.endpoint@
    }

    /// A copy of this configuration.
    pub fn duplicate(&self) -> (c: Self)
        ensures
            c.same_as(*self),
    {
        let rooms = crate::text::copy_strings(&self.rooms);
        assert(crate::text::views(rooms@) =~= crate::text::views(self.rooms@));
        ProjectAgentConfig {
            agent_type: string_from(self.agent_type.as_str()),
            rooms,
            project_id: string_from(self.project_id.as_str()),
            endpoint: string_from(self.endpoint.as_str()),
        }
    }
}

/// Per-room agent routing. Rooms without an explicit route go to `default`.
#[derive(Debug, Clone)]
pub struct AgentsConfig {
    /// Fallback agent URL.
    pub default: Option<String>,
    /// Room id to agent URL overrides.
    pub routes: Vec<(String, String)>,
    /// Project agents.
    pub project: Vec<ProjectAgentConfig>,
}

impl AgentsConfig {
    /// No default, no routes, no project agents.
    pub fn empty() -> (r: Self)
        ensures
            r.default is None,
            r.routes@.len() == 0,
            r.project@.len() == 0,
    {
        AgentsConfig { default: None, routes: Vec::new(), project: Vec::new() }
    }
}

/// Which projects get rooms provisioned, and where Fondament answers.
#[derive(Debug, Clone)]
pub struct ProvisioningConfig {
    pub projects: Vec<String>,
    pub fondament_url: Option<String>,
}

/// The project provisioned when none is configured.
pub open spec fn default_provisioned_project() -> Seq<char> {
    "occitan"@
}

impl Default for ProvisioningConfig {
    fn default() -> (r: Self)
        ensures
            r.projects@.len() == 1,
            r.projects@[0]@ == default_provisioned_project(),
            r.fondament_url is None,
    {
        let mut projects: Vec<String> = Vec::new();
        projects.push(string_from("occitan"));
        ProvisioningConfig { projects, fondament_url: None }
    }
}

/// Server name used when the configuration gives none.
pub fn default_server_name() -> (s: String)
    ensures
        s@ == "occitane.guilhem"@,
{
    string_from("occitane.guilhem")
}

/// Hours between archival sweeps when not configured.
pub const DEFAULT_ARCHIVAL_INTERVAL_HOURS: u64 = 24;

/// Hours between convergence sweeps when not configured.
pub const DEFAULT_CONVERGENCE_INTERVAL_HOURS: u64 = 6;

/// Daily token budget when not configured.
pub const DEFAULT_DAILY_TOKEN_BUDGET: u32 = 50_000;

/// Approval timeout in minutes when not configured.
pub const DEFAULT_APPROVAL_TIMEOUT_MINUTES: u64 = 60;

impl Default for ConciergeConfig {
    fn default() -> (r: Self)
        ensures
            r.archival_interval_hours == DEFAULT_ARCHIVAL_INTERVAL_HOURS,
            r.convergence_interval_hours == DEFAULT_CONVERGENCE_INTERVAL_HOURS,
            r.daily_token_budget == DEFAULT_DAILY_TOKEN_BUDGET,
    {
        ConciergeConfig {
            archival_interval_hours: DEFAULT_ARCHIVAL_INTERVAL_HOURS,
            convergence_interval_hours: DEFAULT_CONVERGENCE_INTERVAL_HOURS,
            daily_token_budget: DEFAULT_DAILY_TOKEN_BUDGET,
        }
    }
}

impl Default for ApprovalConfig {
    fn default() -> (r: Self)
        ensures
            r.timeout_minutes == DEFAULT_APPROVAL_TIMEOUT_MINUTES,
    {
        ApprovalConfig { timeout_minutes: DEFAULT_APPROVAL_TIMEOUT_MINUTES }
    }
}

/// Default appservice webhook listen port.
pub const DEFAULT_LISTEN_PORT: &'static str = "8448";

/// Env var holding the listen port. It is deliberately not `CHARRADISSA_PORT`,
/// which the kubelet sets as a service link (`tcp://<ip>:<port>`).
pub const LISTEN_PORT_ENV: &'static str = "CHARRADISSA_LISTEN_PORT";

/// Env var holding the homeserver token.
pub const HS_TOKEN_ENV: &'static str = "MATRIX_HS_TOKEN";

/// The listen port: the value of [`LISTEN_PORT_ENV`] when set, else
/// [`DEFAULT_LISTEN_PORT`].
pub fn listen_port_from(env_value: Option<&str>) -> (port: String)
    ensures
        port@ == match env_value {
            Some(v) => v@,
            None => DEFAULT_LISTEN_PORT@,
        },
{
    match env_value {
        Some(v) => string_from(v),
        None => string_from(DEFAULT_LISTEN_PORT),
    }
}

/// The homeserver token the appservice expects on transactions: the value of
/// [`HS_TOKEN_ENV`] when set, else the appservice token.
pub fn hs_token_from(env_value: Option<&str>, as_token: &str) -> (token: String)
    ensures
        token@ == match env_value {
            Some(v) => v@,
            None => as_token@,
        },
{
    match env_value {
        Some(v) => string_from(v),
        None => string_from(as_token),
    }
}

} // verus!
