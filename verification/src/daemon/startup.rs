//! How the daemon sets itself up from its configuration and environment: the
//! defaults of each setting, the relay's own identity, the room routes of the
//! project agents, and the appservice registration it prints on request.
//! Reading the environment and serving happen outside the library.

use vstd::prelude::*;
use crate::config::ProjectAgentConfig;
use crate::registration::RegistrationParams;
use crate::text::{push_str, str_eq, string_from, views};

verus! {

/// The appservice token when none is set.
pub const DEFAULT_AS_TOKEN: &'static str = "dev-token";

/// The homeserver token the registration names when none is set.
pub const DEFAULT_REGISTRATION_HS_TOKEN: &'static str = "dev-hs-token";

/// The localpart of the relay's own Matrix identity.
pub const RELAY_LOCALPART: &'static str = "charradissa-relay";

/// The appservice's id in its registration.
pub const APPSERVICE_ID: &'static str = "charradissa";

/// The display name the relay sets for itself.
pub const SELF_DISPLAY_NAME: &'static str = "Charradissa";

/// Farga's URL when none is set.
pub const DEFAULT_FARGA_URL: &'static str = "http://farga:7500";

/// The agent that answers in rooms without a route, when neither the
/// configuration nor the environment names one.
pub const DEFAULT_AGENT_URL: &'static str = "http://guilhem.agents.svc.cluster.local:8080";

/// Fondament's URL when neither the configuration nor the environment names one.
pub const DEFAULT_FONDAMENT_URL: &'static str = "http://fondament:7800";

/// The dispatcher's MCP endpoint when none is set.
pub const DEFAULT_DISPATCHER_URL: &'static str = "http://dispatcher.agents.svc.cluster.local:9090/mcp";

/// Amassada's URL when none is set.
pub const DEFAULT_AMASSADA_URL: &'static str = "http://amassada:7700";

/// The flag that asks the daemon to print its registration and exit.
pub const GENERATE_REGISTRATION_FLAG: &'static str = "--generate-registration";

/// The concierge's archival interval, in hours.
pub const CONCIERGE_ARCHIVAL_HOURS: u64 = 24;

/// The concierge's convergence interval, in hours.
pub const CONCIERGE_CONVERGENCE_HOURS: u64 = 6;

/// The concierge's daily token budget.
pub const CONCIERGE_DAILY_BUDGET: u32 = 50_000;

/// A setting: its value when set, else `default`.
pub fn or_default(value: Option<String>, default: &str) -> (s: String)
    ensures
        s@ == (match value {
            Some(v) => v@,
            None => default@,
        }),
{
    match value {
        Some(v) => v,
        None => string_from(default),
    }
}

/// The first of two settings that is set, else `default`.
pub open spec fn first_set(a: Option<String>, b: Option<String>, default: Seq<char>) -> Seq<char> {
    match a {
        Some(v) => v@,
        None => match b {
            Some(v) => v@,
            None => default,
        },
    }
}

/// A setting taken from the configuration, else from the environment, else
/// `default` (see [`first_set`]).
pub fn config_or_env(config_value: Option<String>, env_value: Option<String>, default: &str) -> (s: String)
    ensures
        s@ == first_set(config_value, env_value, default@),
{
    match config_value {
        Some(v) => v,
        None => or_default(env_value, default),
    }
}

/// The relay's own Matrix user on `server_name`.
pub fn relay_user_id(server_name: &str) -> (u: String)
    ensures
        u@ == "@"@ + RELAY_LOCALPART@ + ":"@ + server_name@,
{
    let mut u = string_from("@");
    push_str(&mut u, RELAY_LOCALPART);
    push_str(&mut u, ":");
    push_str(&mut u, server_name);
    u
}

/// Whether the arguments ask for the registration.
pub fn wants_registration(args: &Vec<String>) -> (b: bool)
    ensures
        b == views(args@).contains(GENERATE_REGISTRATION_FLAG@),
{
    crate::text::contains_str(args, GENERATE_REGISTRATION_FLAG)
}

/// The address the daemon listens on.
pub fn listen_address(port: &str) -> (a: String)
    ensures
        a@ == "0.0.0.0:"@ + port@,
{
    let mut a = string_from("0.0.0.0:");
    push_str(&mut a, port);
    a
}

/// The registration the daemon prints: its own sender and id, the callback URL
/// (the in-cluster service on `listen_port` when none is set), the tokens (the
/// development ones when none is set), and no component identities, the
/// component agents being users of their own.
pub fn registration_params(
    server_name: &str,
    listen_port: &str,
    url: Option<String>,
    as_token: Option<String>,
    hs_token: Option<String>,
) -> (p: RegistrationParams)
    ensures
        p.id@ == APPSERVICE_ID@,
        p.url@ == (match url {
            Some(u) => u@,
            None => "http://charradissa:"@ + listen_port@,
        }),
        p.as_token@ == (match as_token {
            Some(t) => t@,
            None => DEFAULT_AS_TOKEN@,
        }),
        p.hs_token@ == (match hs_token {
            Some(t) => t@,
            None => DEFAULT_REGISTRATION_HS_TOKEN@,
        }),
        p.sender_localpart@ == RELAY_LOCALPART@,
        p.server_name@ == server_name@,
        p.component_localparts@.len() == 0,
{
    let url = match url {
        Some(u) => u,
        None => {
            let mut u = string_from("http://charradissa:");
            push_str(&mut u, listen_port);
            u
        },
    };
    RegistrationParams {
        id: string_from(APPSERVICE_ID),
        url,
        as_token: or_default(as_token, DEFAULT_AS_TOKEN),
        hs_token: or_default(hs_token, DEFAULT_REGISTRATION_HS_TOKEN),
        sender_localpart: string_from(RELAY_LOCALPART),
        server_name: string_from(server_name),
        component_localparts: Vec::new(),
    }
}

/// The room routes of the project agents: each room of each project, in order,
/// with the index of the project that serves it. A room listed twice is served
/// by the last project that lists it (the routes are read last first).
pub open spec fn room_routes(projects: Seq<ProjectAgentConfig>) -> Seq<(Seq<char>, int)>
    decreases projects.len(),
{
    if projects.len() == 0 {
        Seq::empty()
    } else {
        let last = projects.len() - 1;
        room_routes(projects.drop_last()) + views(projects.last().rooms@).map_values(
            |r: Seq<char>| (r, last),
        )
    }
}

proof fn lemma_room_routes_take(projects: Seq<ProjectAgentConfig>, i: int)
    requires
        0 <= i < projects.len(),
    ensures
        room_routes(projects.take(i + 1)) == room_routes(projects.take(i)) + views(
            projects[i].rooms@,
        ).map_values(|r: Seq<char>| (r, i)),
{
    assert(projects.take(i + 1).drop_last() =~= projects.take(i));
}

/// Whether `route` is the route `want` of [`room_routes`]: its room, with a
/// copy of the project `want` names.
pub open spec fn serves(route: (String, ProjectAgentConfig), want: (Seq<char>, int), projects: Seq<
    ProjectAgentConfig,
>) -> bool {
    &&& route.0@ == want.0
    &&& 0 <= want.1 < projects.len()
    &&& route.1.same_as(projects[want.1])
}

/// The routes from room ids to the project agents serving them (see
/// [`room_routes`]).
pub fn project_routes(projects: &Vec<ProjectAgentConfig>) -> (routes: Vec<(String, ProjectAgentConfig)>)
    ensures
        routes@.len() == room_routes(projects@).len(),
        forall|k: int|
            0 <= k < routes@.len() ==> serves(#[trigger] routes@[k], room_routes(projects@)[k], projects@),
{
    let mut routes: Vec<(String, ProjectAgentConfig)> = Vec::new();
    let mut i: usize = 0;
    while i < projects.len()
        invariant
            i <= projects@.len(),
            routes@.len() == room_routes(projects@.take(i as int)).len(),
            forall|k: int|
                0 <= k < routes@.len() ==> serves(
                    #[trigger] routes@[k],
                    room_routes(projects@.take(i as int))[k],
                    projects@,
                ),
        decreases projects.len() - i,
    {
        proof {
            lemma_room_routes_take(projects@, i as int);
        }
        let ghost before = room_routes(projects@.take(i as int));
        let ghost added = views(projects@[i as int].rooms@).map_values(|r: Seq<char>| (r, i as int));
        let proj = &projects[i];
        let mut j: usize = 0;
        while j < proj.rooms.len()
            invariant
                i < projects@.len(),
                proj == projects@[i as int],
                j <= proj.rooms@.len(),
                added == views(proj.rooms@).map_values(|r: Seq<char>| (r, i as int)),
                routes@.len() == before.len() + j,
                forall|k: int|
                    0 <= k < routes@.len() ==> serves(#[trigger] routes@[k], (before + added)[k], projects@),
            decreases proj.rooms.len() - j,
        {
            routes.push((string_from(proj.rooms[j].as_str()), proj.duplicate()));
            j = j + 1;
        }
        i = i + 1;
    }
    assert(projects@.take(i as int) =~= projects@);
    routes
}

} // verus!
