//! What the appservice decides for each event of a homeserver transaction: whether
//! the caller is the homeserver, which events are echoes or belong to migrated
//! rooms, where a message is relayed, and what goes back to the room.
//!
//! The transaction handler itself (HTTP, spawning, retries with sleeps) drives
//! these decisions from outside.

use vstd::prelude::*;
use crate::blocks::{strip_block_markers, stripped};
use crate::config::ProjectAgentConfig;
use crate::matrix::client::{agent_local_parts, mxid, mxid_string, AGENT_LOCAL_PARTS};
use crate::mermaid::{extract_mermaid_blocks, mermaid_blocks};
use crate::pairs::{find_key, last_key_index};
use crate::responder::{responds_to, should_respond};
use crate::routing::{project_session_id, session_handle};
use crate::text::{
    before_char, chars_of, ends_with, ends_with_exec, find, find_char_exec, find_exec,
    lemma_find_from_result, push_decimal, push_str, replace_all, replace_all_exec, splitn,
    splitn_exec, starts_with, starts_with_exec, str_eq, string_from, string_of_range, strip_suffix,
    trim, trim_bounds,
};
use crate::types::{ChatEvent, ChatEventKind, RoomId, UserId};

verus! {

/// Rooms of the agents that run their own Matrix sessions (guilhem and the eight
/// component agents). Messages there are never relayed by the appservice.
pub const MIGRATED_AGENT_ROOM_IDS: [&'static str; 9] = [
    "!iNQRqUAMckCUQrSFHk:occitane.guilhem",
    "!bwuKXFvUXnVZfXcKuz:occitane.guilhem",
    "!KuWBSmYyvyiyTMFKqJ:occitane.guilhem",
    "!CtktMiOTNtSIkdwOxq:occitane.guilhem",
    "!vLjgiURMSlkqTXgaDG:occitane.guilhem",
    "!FgfTbZMpLLVGiISZTj:occitane.guilhem",
    "!ZqGBDioAYnOATihiEU:occitane.guilhem",
    "!qZGQFrjAcKjPinhQnp:occitane.guilhem",
    "!QQeweqsLsOTZYdonXi:occitane.guilhem",
];

/// The room ids of [`MIGRATED_AGENT_ROOM_IDS`].
pub open spec fn migrated_room_ids() -> Seq<Seq<char>> {
    seq![
        "!iNQRqUAMckCUQrSFHk:occitane.guilhem"@,
        "!bwuKXFvUXnVZfXcKuz:occitane.guilhem"@,
        "!KuWBSmYyvyiyTMFKqJ:occitane.guilhem"@,
        "!CtktMiOTNtSIkdwOxq:occitane.guilhem"@,
        "!vLjgiURMSlkqTXgaDG:occitane.guilhem"@,
        "!FgfTbZMpLLVGiISZTj:occitane.guilhem"@,
        "!ZqGBDioAYnOATihiEU:occitane.guilhem"@,
        "!qZGQFrjAcKjPinhQnp:occitane.guilhem"@,
        "!QQeweqsLsOTZYdonXi:occitane.guilhem"@,
    ]
}

/// The migrated room ids, in order.
pub fn migrated_agent_room_ids() -> (v: Vec<&'static str>)
    ensures
        v@.map_values(|s: &str| s@) == migrated_room_ids(),
{
    let mut v: Vec<&'static str> = Vec::new();
    let mut i: usize = 0;
    while i < 9
        invariant
            i <= 9,
            v@.len() == i,
            forall|k: int| 0 <= k < i ==> (#[trigger] v@[k])@ == MIGRATED_AGENT_ROOM_IDS@[k]@,
        decreases 9 - i,
    {
        v.push(MIGRATED_AGENT_ROOM_IDS[i]);
        i = i + 1;
    }
    assert(v@.map_values(|s: &str| s@) =~= migrated_room_ids());
    v
}

/// Whether `room_id` is one of the migrated agent rooms.
pub fn is_migrated_room(room_id: &str) -> (b: bool)
    ensures
        b == migrated_room_ids().contains(room_id@),
{
    let mut i: usize = 0;
    assert(MIGRATED_AGENT_ROOM_IDS@.map_values(|s: &str| s@) =~= migrated_room_ids());
    while i < 9
        invariant
            i <= 9,
            MIGRATED_AGENT_ROOM_IDS@.map_values(|s: &str| s@) == migrated_room_ids(),
            forall|k: int| 0 <= k < i ==> migrated_room_ids()[k] != room_id@,
        decreases 9 - i,
    {
        assert(MIGRATED_AGENT_ROOM_IDS@.map_values(|s: &str| s@)[i as int]
            == MIGRATED_AGENT_ROOM_IDS@[i as int]@);
        if str_eq(MIGRATED_AGENT_ROOM_IDS[i], room_id) {
            assert(migrated_room_ids()[i as int] == room_id@);
            return true;
        }
        i = i + 1;
    }
    false
}

/// Whether the token presented by the caller is the homeserver token. A missing
/// token is refused.
pub fn token_ok(provided: Option<&str>, expected: &str) -> (b: bool)
    ensures
        b == (provided matches Some(p) && p@ == expected@),
{
    match provided {
        Some(p) => str_eq(p, expected),
        None => false,
    }
}

/// The token a transaction carries: the `Authorization: Bearer <token>` header
/// when it has that form, else the `access_token` query parameter.
pub open spec fn resolved_token(authorization: Option<Seq<char>>, access_token: Option<Seq<char>>)
    -> Option<Seq<char>> {
    match authorization {
        Some(a) => if starts_with(a, "Bearer "@) {
            Some(a.skip(7))
        } else {
            access_token
        },
        None => access_token,
    }
}

/// The text of an optional string.
pub open spec fn opt_view(o: Option<String>) -> Option<Seq<char>> {
    match o {
        Some(s) => Some(s@),
        None => None,
    }
}

/// The text of an optional string slice.
pub open spec fn opt_str_view(o: Option<&str>) -> Option<Seq<char>> {
    match o {
        Some(s) => Some(s@),
        None => None,
    }
}

/// Resolves the token of a transaction from its `Authorization` header and its
/// `access_token` query parameter.
pub fn resolve_token(authorization: Option<&str>, access_token: Option<&str>) -> (r: Option<
    String,
>)
    ensures
        opt_view(r) == resolved_token(opt_str_view(authorization), opt_str_view(access_token)),
{
    proof {
        reveal_strlit("Bearer ");
    }
    if let Some(a) = authorization {
        let v = chars_of(a);
        let prefix = chars_of("Bearer ");
        if starts_with_exec(&v, 0, v.len(), &prefix) {
            assert(v@.subrange(0, v.len() as int) =~= v@);
            let t = string_of_range(&v, 7, v.len());
            assert(v@.subrange(7, v.len() as int) =~= a@.skip(7));
            return Some(t);
        }
        assert(v@.subrange(0, v.len() as int) =~= v@);
    }
    match access_token {
        Some(t) => Some(string_from(t)),
        None => None,
    }
}

/// `s.split(sep).nth(1)`: the piece between the first and the second `sep`.
pub open spec fn second_piece(s: Seq<char>, sep: Seq<char>) -> Option<Seq<char>> {
    match find(s, sep) {
        None => None,
        Some(i) => {
            let rest = s.skip(i + sep.len());
            Some(
                match find(rest, sep) {
                    Some(j) => rest.take(j),
                    None => rest,
                },
            )
        },
    }
}

/// The Matrix localpart of the agent served at `url`: the first label of the URL's
/// host, without an `-agent` suffix
/// (`http://farga-agent.agents.svc.cluster.local:8080` gives `farga`). None when
/// the URL has no `://`.
pub open spec fn agent_localpart_of_url(url: Seq<char>) -> Option<Seq<char>> {
    match second_piece(url, "://"@) {
        None => None,
        Some(h) => {
            let first = before_char(before_char(before_char(h, '/'), ':'), '.');
            Some(
                match strip_suffix(first, "-agent"@) {
                    Some(x) => x,
                    None => first,
                },
            )
        },
    }
}

/// The end of `v[lo..hi]` cut before its first `c`.
fn cut_before(v: &Vec<char>, lo: usize, hi: usize, c: char) -> (r: usize)
    requires
        lo <= hi <= v.len(),
    ensures
        lo <= r <= hi,
        v@.subrange(lo as int, r as int) == before_char(v@.subrange(lo as int, hi as int), c),
{
    match find_char_exec(v, lo, hi, c) {
        Some(i) => {
            assert(v@.subrange(lo as int, hi as int).take(i as int) =~= v@.subrange(
                lo as int,
                lo + i,
            ));
            lo + i
        },
        None => hi,
    }
}

/// The bounds, in `v`, of `v[lo..hi].split(sep).nth(1)`.
fn second_piece_bounds(v: &Vec<char>, lo: usize, hi: usize, sep: &Vec<char>) -> (r: Option<
    (usize, usize),
>)
    requires
        lo <= hi <= v.len(),
        sep@.len() > 0,
    ensures
        match r {
            Some((a, b)) => lo <= a <= b <= hi && second_piece(
                v@.subrange(lo as int, hi as int),
                sep@,
            ) == Some(v@.subrange(a as int, b as int)),
            None => second_piece(v@.subrange(lo as int, hi as int), sep@) is None,
        },
{
    let ghost s = v@.subrange(lo as int, hi as int);
    match find_exec(v, lo, hi, sep) {
        None => None,
        Some(i) => {
            proof {
                lemma_find_from_result(s, sep@, 0);
            }
            let a = lo + i + sep.len();
            assert(s.skip(i + sep@.len()) =~= v@.subrange(a as int, hi as int));
            match find_exec(v, a, hi, sep) {
                Some(j) => {
                    proof {
                        lemma_find_from_result(v@.subrange(a as int, hi as int), sep@, 0);
                    }
                    assert(v@.subrange(a as int, hi as int).take(j as int) =~= v@.subrange(
                        a as int,
                        a + j,
                    ));
                    Some((a, a + j))
                },
                None => Some((a, hi)),
            }
        },
    }
}

/// The agent localpart of a service URL (see [`agent_localpart_of_url`]).
pub fn sender_from_agent_url(url: &str) -> (r: Option<String>)
    ensures
        opt_view(r) == agent_localpart_of_url(url@),
{
    let v = chars_of(url);
    let sep = chars_of("://");
    let suffix = chars_of("-agent");
    proof {
        reveal_strlit("://");
        reveal_strlit("-agent");
    }
    assert(v@.subrange(0, v.len() as int) =~= v@);
    match second_piece_bounds(&v, 0, v.len(), &sep) {
        None => None,
        Some((a, b)) => {
            let e1 = cut_before(&v, a, b, '/');
            let e2 = cut_before(&v, a, e1, ':');
            let e3 = cut_before(&v, a, e2, '.');
            if ends_with_exec(&v, a, e3, &suffix) {
                Some(string_of_range(&v, a, e3 - 6))
            } else {
                Some(string_of_range(&v, a, e3))
            }
        },
    }
}

/// The server part of the appservice's own user id: `self_user_id.split(':').nth(1)`.
pub open spec fn server_of(self_user_id: Seq<char>) -> Option<Seq<char>> {
    second_piece(self_user_id, seq![':'])
}

/// Whether `sender` is one of the virtual users the appservice manages on its own
/// server: an echo of the appservice itself.
pub open spec fn appservice_sender(sender: Seq<char>, self_user_id: Seq<char>) -> bool {
    match server_of(self_user_id) {
        None => false,
        Some(server) => ends_with(sender, ":"@ + server) && exists|k: int|
            0 <= k < agent_local_parts().len() && sender == #[trigger] mxid(
                agent_local_parts()[k],
                server,
            ),
    }
}

/// Whether `sender` is a virtual user of this appservice (see [`appservice_sender`]).
pub fn is_appservice_sender(sender: &str, self_user_id: &str) -> (b: bool)
    ensures
        b == appservice_sender(sender@, self_user_id@),
{
    let v = chars_of(self_user_id);
    let colon = chars_of(":");
    proof {
        reveal_strlit(":");
    }
    assert(colon@ =~= seq![':']);
    assert(v@.subrange(0, v.len() as int) =~= v@);
    let (a, b) = match second_piece_bounds(&v, 0, v.len(), &colon) {
        None => {
            return false;
        },
        Some(ab) => ab,
    };
    let server = string_of_range(&v, a, b);
    assert(server_of(self_user_id@) == Some(server@));
    let mut tail = string_from(":");
    push_str(&mut tail, server.as_str());
    assert(tail@ == ":"@ + server@);
    let sv = chars_of(sender);
    let tv = chars_of(tail.as_str());
    assert(sv@.subrange(0, sv.len() as int) =~= sv@);
    if !ends_with_exec(&sv, 0, sv.len(), &tv) {
        return false;
    }
    let mut i: usize = 0;
    assert(AGENT_LOCAL_PARTS@.map_values(|s: &str| s@) =~= agent_local_parts());
    while i < 9
        invariant
            i <= 9,
            AGENT_LOCAL_PARTS@.map_values(|s: &str| s@) == agent_local_parts(),
            server_of(self_user_id@) == Some(server@),
            ends_with(sender@, ":"@ + server@),
            forall|k: int| 0 <= k < i ==> sender@ != #[trigger] mxid(agent_local_parts()[k], server@),
        decreases 9 - i,
    {
        assert(AGENT_LOCAL_PARTS@.map_values(|s: &str| s@)[i as int] == AGENT_LOCAL_PARTS@[i as int]@);
        let candidate = mxid_string(AGENT_LOCAL_PARTS[i], server.as_str());
        if str_eq(candidate.as_str(), sender) {
            assert(sender@ == mxid(agent_local_parts()[i as int], server@));
            assert(0 <= i < agent_local_parts().len());
            assert(ends_with(sender@, ":"@ + server@));
            assert(exists|k: int|
                0 <= k < agent_local_parts().len() && sender@ == #[trigger] mxid(
                    agent_local_parts()[k],
                    server@,
                ));
            return true;
        }
        i = i + 1;
    }
    false
}

/// The fields of a raw homeserver event that the appservice reads; a field is
/// `None` when the event lacks it or it is not a string.
#[derive(Debug, Clone)]
pub struct MatrixEventFields {
    /// `type`
    pub event_type: Option<String>,
    /// `content.membership`
    pub membership: Option<String>,
    /// `state_key`
    pub state_key: Option<String>,
    /// `event_id`
    pub event_id: Option<String>,
    /// `room_id`
    pub room_id: Option<String>,
    /// `sender`
    pub sender: Option<String>,
    /// `content.body`
    pub body: Option<String>,
}

/// The body of an event, empty when absent.
pub open spec fn body_text(raw: MatrixEventFields) -> Seq<char> {
    match raw.body {
        Some(b) => b@,
        None => Seq::empty(),
    }
}

/// What a body says about the kind of event: a body starting with `/` is a slash
/// command (the command word without `/`, then the rest after the first space);
/// any other body is a message.
pub open spec fn kind_of_body(body: Seq<char>, kind: ChatEventKind) -> bool {
    if body.len() > 0 && body[0] == '/' {
        let parts = splitn(body, 2, ' ');
        kind matches ChatEventKind::SlashCommand { command, args } && command@ == parts[0].drop_first()
            && args@ == (if parts.len() > 1 {
            parts[1]
        } else {
            Seq::empty()
        })
    } else {
        kind is Message
    }
}

/// A raw event parses when it has an event id, a room id and a sender.
pub open spec fn parses(raw: MatrixEventFields) -> bool {
    raw.event_id is Some && raw.room_id is Some && raw.sender is Some
}

/// `ev` is the chat event read from `raw` at time `now_ms`.
pub open spec fn parsed_as(raw: MatrixEventFields, ev: ChatEvent, now_ms: i64) -> bool {
    &&& opt_view(raw.event_id) == Some(ev.event_id@)
    &&& opt_view(raw.room_id) == Some(ev.room_id@)
    &&& opt_view(raw.sender) == Some(ev.sender@)
    &&& ev.content@ == body_text(raw)
    &&& ev.timestamp == now_ms
    &&& kind_of_body(ev.content@, ev.kind)
}

proof fn lemma_command_word_nonempty(s: Seq<char>)
    requires
        s.len() > 0,
        s[0] == '/',
    ensures
        splitn(s, 2, ' ').len() >= 1,
        splitn(s, 2, ' ')[0].len() > 0,
{
    lemma_find_from_result(s, seq![' '], 0);
    match find(s, seq![' ']) {
        Some(i) => {
            assert(splitn(s, 2, ' ') == seq![s.take(i)] + splitn(s.skip(i + 1), 1, ' '));
            assert(s.subrange(i, i + 1) =~= seq![s[i]]);
            assert(s.subrange(i, i + 1)[0] == seq![' '][0]);
            assert(i != 0);
        },
        None => {
            assert(splitn(s, 2, ' ') == seq![s]);
        },
    }
}

/// The kind of an event with body `body` (see [`kind_of_body`]).
fn kind_from_body(body: &str) -> (kind: ChatEventKind)
    ensures
        kind_of_body(body@, kind),
{
    let v = chars_of(body);
    if v.len() > 0 && v[0] == '/' {
        let parts = splitn_exec(&v, 0, v.len(), 2, ' ');
        assert(v@.subrange(0, v.len() as int) =~= v@);
        let (p0, p1) = parts[0];
        proof {
            lemma_command_word_nonempty(v@);
            assert(splitn(v@, 2, ' ')[0] == v@.subrange(p0 as int, p1 as int));
        }
        let command = string_of_range(&v, p0 + 1, p1);
        assert(v@.subrange(p0 + 1, p1 as int) =~= v@.subrange(p0 as int, p1 as int).drop_first());
        let args = if parts.len() > 1 {
            let (q0, q1) = parts[1];
            string_of_range(&v, q0, q1)
        } else {
            String::new()
        };
        ChatEventKind::SlashCommand { command, args }
    } else {
        ChatEventKind::Message
    }
}

/// Reads a chat event from the fields of a raw event; `now_ms` is the time of
/// reception (milliseconds since the Unix epoch).
pub fn parse_matrix_event(event: &MatrixEventFields, now_ms: i64) -> (r: Option<ChatEvent>)
    ensures
        r is Some == parses(*event),
        r matches Some(ev) ==> parsed_as(*event, ev, now_ms),
{
    let event_id = match &event.event_id {
        Some(e) => string_from(e.as_str()),
        None => {
            return None;
        },
    };
    let room_id = match &event.room_id {
        Some(r) => RoomId::new(r.as_str()),
        None => {
            return None;
        },
    };
    let sender = match &event.sender {
        Some(s) => UserId::new(s.as_str()),
        None => {
            return None;
        },
    };
    let content = match &event.body {
        Some(b) => string_from(b.as_str()),
        None => String::new(),
    };
    let kind = kind_from_body(content.as_str());
    Some(ChatEvent { event_id, room_id, sender, content, timestamp: now_ms, kind })
}

/// Whether a raw event invites the appservice's own user into a room.
pub open spec fn invites_self(raw: MatrixEventFields, self_user_id: Seq<char>) -> bool {
    &&& opt_view(raw.event_type) == Some("m.room.member"@)
    &&& opt_view(raw.membership) == Some("invite"@)
    &&& opt_view(raw.state_key) == Some(self_user_id)
}

/// What the appservice knows of its routes. Each list of pairs is a map keyed by
/// room id, later pairs overriding earlier ones.
#[derive(Debug, Clone)]
pub struct AppserviceState {
    pub hs_token: String,
    /// Receives messages for rooms without an explicit route.
    pub default_agent_url: String,
    /// Room id to agent URL.
    pub agent_routes: Vec<(String, String)>,
    pub self_user_id: String,
    /// Room id to the Matrix localpart of the component agent that answers there.
    pub component_agents: Vec<(String, String)>,
    /// Room id to the project agent that answers there.
    pub project_routes: Vec<(String, ProjectAgentConfig)>,
    /// Diagram renderer; when absent, Mermaid blocks are not rendered.
    pub kroki_url: Option<String>,
}

/// Where a relayed message goes.
#[derive(Debug, Clone)]
pub enum Route {
    /// A project agent, at `url`, for `project_id`.
    Project { url: String, project_id: String },
    /// A component agent answering in the room as `localpart`.
    Component { localpart: String },
    /// An agent service at `url`, answering as `sender` (the appservice bot when
    /// `None`).
    Agent { url: String, sender: Option<String> },
}

/// The URL of a project agent's turn endpoint for `room_id`: `{session_id}` is
/// replaced by the room's session handle, then `{room_id}` by the room id.
pub open spec fn project_endpoint(template: Seq<char>, room_id: Seq<char>) -> Seq<char> {
    replace_all(
        replace_all(template, "{session_id}"@, session_handle(room_id)),
        "{room_id}"@,
        room_id,
    )
}

/// Fills in an endpoint template for `room_id` (see [`project_endpoint`]).
pub fn project_endpoint_url(template: &str, room_id: &str) -> (url: String)
    ensures
        url@ == project_endpoint(template@, room_id@),
{
    proof {
        reveal_strlit("{session_id}");
        reveal_strlit("{room_id}");
    }
    let session_id = project_session_id(room_id);
    let first = replace_all_exec(template, "{session_id}", session_id.as_str());
    replace_all_exec(first.as_str(), "{room_id}", room_id)
}

/// The agent URL serving `room_id`: its explicit route, else the default.
pub open spec fn agent_url_for(st: AppserviceState, room_id: Seq<char>) -> Seq<char> {
    match last_key_index(st.agent_routes@, room_id) {
        Some(k) => st.agent_routes@[k].1@,
        None => st.default_agent_url@,
    }
}

/// The component agent localpart owning `room_id`, if any.
pub open spec fn component_for(st: AppserviceState, room_id: Seq<char>) -> Option<Seq<char>> {
    match last_key_index(st.component_agents@, room_id) {
        Some(j) => Some(st.component_agents@[j].1@),
        None => None,
    }
}

/// `r` is the route of a message in `room_id`: the project agent of the room if
/// there is one, else its component agent, else the agent service of the room.
pub open spec fn routes_to(st: AppserviceState, room_id: Seq<char>, r: Route) -> bool {
    match last_key_index(st.project_routes@, room_id) {
        Some(i) => r matches Route::Project { url, project_id } && url@ == project_endpoint(
            st.project_routes@[i].1.endpoint@,
            room_id,
        ) && project_id@ == st.project_routes@[i].1.project_id@,
        None => match component_for(st, room_id) {
            Some(lp) => r matches Route::Component { localpart } && localpart@ == lp,
            None => r matches Route::Agent { url, sender } && url@ == agent_url_for(st, room_id)
                && opt_view(sender) == agent_localpart_of_url(agent_url_for(st, room_id)),
        },
    }
}

/// Decides the route of a message in `room_id`.
pub fn route_for(st: &AppserviceState, room_id: &str) -> (r: Route)
    ensures
        routes_to(*st, room_id@, r),
{
    if let Some(i) = find_key(&st.project_routes, room_id) {
        let cfg = &st.project_routes[i].1;
        let url = project_endpoint_url(cfg.endpoint.as_str(), room_id);
        return Route::Project { url, project_id: string_from(cfg.project_id.as_str()) };
    }
    if let Some(j) = find_key(&st.component_agents, room_id) {
        return Route::Component { localpart: string_from(st.component_agents[j].1.as_str()) };
    }
    let url = match find_key(&st.agent_routes, room_id) {
        Some(k) => string_from(st.agent_routes[k].1.as_str()),
        None => string_from(st.default_agent_url.as_str()),
    };
    let sender = sender_from_agent_url(url.as_str());
    Route::Agent { url, sender }
}

/// What the appservice does with one event of a transaction.
#[derive(Debug, Clone)]
pub enum EventAction {
    /// Nothing: not a message for an agent.
    Ignore,
    /// Join the room the appservice was invited to.
    AutoJoin { room_id: RoomId },
    /// Relay the message: render `diagrams` (posted as `diagram_sender`, the
    /// appservice bot when `None`), and hand the event to `route`.
    Relay { event: ChatEvent, diagrams: Vec<String>, diagram_sender: Option<String>, route: Route },
}

/// A raw event that is not an invite is relayed when it parses, is a plain
/// message from someone else than the appservice and its virtual users, and is
/// not in a migrated room.
pub open spec fn relayable(st: AppserviceState, raw: MatrixEventFields) -> bool {
    &&& parses(raw)
    &&& !(body_text(raw).len() > 0 && body_text(raw)[0] == '/')
    &&& opt_view(raw.sender) != Some(st.self_user_id@)
    &&& !appservice_sender(opt_view(raw.sender)->0, st.self_user_id@)
    &&& !migrated_room_ids().contains(opt_view(raw.room_id)->0)
}

/// The diagrams rendered for a message body: its Mermaid blocks when a renderer
/// is configured.
pub open spec fn diagrams_for(st: AppserviceState, body: Seq<char>) -> Seq<Seq<char>> {
    if st.kroki_url is Some {
        mermaid_blocks(body)
    } else {
        Seq::empty()
    }
}

/// Decides what to do with one event of a transaction received at `now_ms`.
pub fn event_action(st: &AppserviceState, raw: &MatrixEventFields, now_ms: i64) -> (a: EventAction)
    ensures
        invites_self(*raw, st.self_user_id@) ==> match a {
            EventAction::AutoJoin { room_id } => opt_view(raw.room_id) == Some(room_id@),
            EventAction::Ignore => raw.room_id is None,
            EventAction::Relay { .. } => false,
        },
        !invites_self(*raw, st.self_user_id@) ==> match a {
            EventAction::AutoJoin { .. } => false,
            EventAction::Ignore => !relayable(*st, *raw),
            EventAction::Relay { event, diagrams, diagram_sender, route } => {
                &&& relayable(*st, *raw)
                &&& parsed_as(*raw, event, now_ms)
                &&& diagrams@.map_values(|d: String| d@) == diagrams_for(*st, event.content@)
                &&& opt_view(diagram_sender) == component_for(*st, event.room_id@)
                &&& routes_to(*st, event.room_id@, route)
            },
        },
{
    let is_member = match &raw.event_type {
        Some(t) => str_eq(t.as_str(), "m.room.member"),
        None => false,
    };
    let is_invite = match &raw.membership {
        Some(m) => str_eq(m.as_str(), "invite"),
        None => false,
    };
    let to_self = match &raw.state_key {
        Some(k) => str_eq(k.as_str(), st.self_user_id.as_str()),
        None => false,
    };
    if is_member && is_invite && to_self {
        return match &raw.room_id {
            Some(r) => EventAction::AutoJoin { room_id: RoomId::new(r.as_str()) },
            None => EventAction::Ignore,
        };
    }
    let ev = match parse_matrix_event(raw, now_ms) {
        Some(ev) => ev,
        None => {
            return EventAction::Ignore;
        },
    };
    proof {
        if ev.content@.len() > 0 && ev.content@[0] == '/' {
            assert(ev.kind is SlashCommand);
        }
    }
    if !should_respond(&ev, st.self_user_id.as_str()) {
        return EventAction::Ignore;
    }
    if is_appservice_sender(ev.sender.as_str(), st.self_user_id.as_str()) {
        return EventAction::Ignore;
    }
    if is_migrated_room(ev.room_id.as_str()) {
        return EventAction::Ignore;
    }
    let diagrams = if st.kroki_url.is_some() {
        extract_mermaid_blocks(ev.content.as_str())
    } else {
        let d: Vec<String> = Vec::new();
        assert(d@.map_values(|d: String| d@) =~= Seq::<Seq<char>>::empty());
        d
    };
    let diagram_sender = match find_key(&st.component_agents, ev.room_id.as_str()) {
        Some(j) => Some(string_from(st.component_agents[j].1.as_str())),
        None => None,
    };
    let route = route_for(st, ev.room_id.as_str());
    EventAction::Relay { event: ev, diagrams, diagram_sender, route }
}

/// The file name of the `i`-th (from zero) of `count` rendered diagrams.
pub open spec fn diagram_file_name(count: nat, i: nat) -> Seq<char> {
    if count == 1 {
        "diagram.svg"@
    } else {
        "diagram-"@ + crate::text::decimal(i + 1) + ".svg"@
    }
}

/// Names a rendered diagram (see [`diagram_file_name`]).
pub fn diagram_name(count: usize, i: usize) -> (name: String)
    requires
        i < count,
    ensures
        name@ == diagram_file_name(count as nat, i as nat),
{
    if count == 1 {
        string_from("diagram.svg")
    } else {
        let mut s = string_from("diagram-");
        push_decimal(&mut s, (i + 1) as u64);
        push_str(&mut s, ".svg");
        s
    }
}

/// The agent whose reply is being handled.
#[derive(Debug, Clone, Copy, PartialEq, Eq, Structural)]
pub enum ReplyPath {
    /// A project agent.
    Project,
    /// A component agent.
    Component,
    /// An agent service answering as its own virtual user.
    NamedAgent,
    /// The default agent, answering as the appservice bot.
    DefaultAgent,
}

/// What the room is told when the agent of `path` cannot be reached.
pub open spec fn unreachable_text(path: ReplyPath) -> Seq<char> {
    match path {
        ReplyPath::Project => "\u{26A0} This project agent is unreachable — please try again in a moment."@,
        ReplyPath::Component => "\u{26A0} This component agent is unreachable right now — please try again in a moment."@,
        ReplyPath::NamedAgent => "\u{26A0} This agent is unreachable right now — please try again in a moment."@,
        ReplyPath::DefaultAgent => "\u{26A0} Guilhem is unreachable right now — please try again in a moment."@,
    }
}

fn unreachable_message(path: ReplyPath) -> (s: String)
    ensures
        s@ == unreachable_text(path),
{
    match path {
        ReplyPath::Project => string_from(
            "\u{26A0} This project agent is unreachable — please try again in a moment.",
        ),
        ReplyPath::Component => string_from(
            "\u{26A0} This component agent is unreachable right now — please try again in a moment.",
        ),
        ReplyPath::NamedAgent => string_from(
            "\u{26A0} This agent is unreachable right now — please try again in a moment.",
        ),
        ReplyPath::DefaultAgent => string_from(
            "\u{26A0} Guilhem is unreachable right now — please try again in a moment.",
        ),
    }
}

/// What goes back to the room after an agent answered with `outcome`: nothing for
/// an empty answer; the answer without its block markers (for a project agent,
/// nothing if that leaves only blanks); and on failure, the unreachable notice.
pub open spec fn reply_text(path: ReplyPath, outcome: Result<Seq<char>, Seq<char>>) -> Option<
    Seq<char>,
> {
    match outcome {
        Ok(raw) => if trim(raw).len() == 0 {
            None
        } else {
            let text = stripped(raw);
            if path == ReplyPath::Project && trim(text).len() == 0 {
                None
            } else {
                Some(text)
            }
        },
        Err(_) => Some(unreachable_text(path)),
    }
}

/// Whatever agent answered, a reply is posted only with its block markers
/// stripped: for every reply path and every answer that is not blank, what is
/// posted, if anything, is the answer as `strip_block_markers` leaves it. Only a
/// project agent's reply that strips down to blanks is dropped; every other
/// agent's reply is posted.
pub proof fn law_replies_posted_stripped(path: ReplyPath, raw: Seq<char>)
    requires
        trim(raw).len() > 0,
    ensures
        reply_text(path, Ok(raw)) is None || reply_text(path, Ok(raw)) == Some(stripped(raw)),
        path != ReplyPath::Project ==> reply_text(path, Ok(raw)) == Some(stripped(raw)),
        path == ReplyPath::Project ==> (reply_text(path, Ok(raw)) is None <==> trim(stripped(raw)).len()
            == 0),
{
}

/// The texts of a call outcome.
pub open spec fn outcome_view(o: Result<String, String>) -> Result<Seq<char>, Seq<char>> {
    match o {
        Ok(s) => Ok(s@),
        Err(e) => Err(e@),
    }
}

fn is_blank(s: &str) -> (b: bool)
    ensures
        b == (trim(s@).len() == 0),
{
    let v = chars_of(s);
    let (a, z) = trim_bounds(&v, 0, v.len());
    assert(v@.subrange(0, v.len() as int) =~= v@);
    a == z
}

/// The message to post in the room after the agent of `path` answered (see
/// [`reply_text`]).
pub fn reply_message(path: ReplyPath, outcome: &Result<String, String>) -> (m: Option<String>)
    ensures
        opt_view(m) == reply_text(path, outcome_view(*outcome)),
{
    match outcome {
        Ok(raw) => {
            if is_blank(raw.as_str()) {
                None
            } else {
                let text = strip_block_markers(raw.as_str());
                if path == ReplyPath::Project && is_blank(text.as_str()) {
                    None
                } else {
                    Some(text)
                }
            }
        },
        Err(_) => Some(unreachable_message(path)),
    }
}

/// The reply path of an agent service answering as `sender`.
pub fn agent_reply_path(sender: &Option<String>) -> (p: ReplyPath)
    ensures
        p == (if sender is Some {
            ReplyPath::NamedAgent
        } else {
            ReplyPath::DefaultAgent
        }),
{
    if sender.is_some() {
        ReplyPath::NamedAgent
    } else {
        ReplyPath::DefaultAgent
    }
}

/// How many times an agent service is called before its failure is reported.
pub const AGENT_MAX_ATTEMPTS: u32 = 3;

/// Seconds between two calls of an agent service.
pub const AGENT_RETRY_DELAY_SECS: u64 = 5;

/// Whether to call the agent service again after `attempt` calls, the last of
/// which `failed`.
pub fn should_retry_agent(attempt: u32, failed: bool) -> (b: bool)
    ensures
        b == (failed && attempt < AGENT_MAX_ATTEMPTS),
{
    failed && attempt < AGENT_MAX_ATTEMPTS
}

/// Whether a typing indicator is shown while the agent answering as `sender`
/// works: only for the appservice's own agent, `charradissa`.
pub fn shows_typing(sender: &Option<String>) -> (b: bool)
    ensures
        b == (opt_view(*sender) == Some("charradissa"@)),
{
    match sender {
        Some(s) => str_eq(s.as_str(), "charradissa"),
        None => false,
    }
}

/// Milliseconds the typing indicator lasts at most.
pub const TYPING_TIMEOUT_MS: u32 = 120_000;

/// How many times a project agent is called on connection errors.
pub const PROJECT_AGENT_ATTEMPTS: u32 = 3;

/// Seconds to wait before call `attempt` (from zero) of a project agent: none
/// before the first, then 1, 2, 4...
pub fn project_retry_delay_secs(attempt: u32) -> (secs: u64)
    requires
        attempt < PROJECT_AGENT_ATTEMPTS,
    ensures
        attempt == 0 ==> secs == 0,
        attempt == 1 ==> secs == 1,
        attempt == 2 ==> secs == 2,
{
    if attempt == 0 {
        0
    } else if attempt == 1 {
        1
    } else {
        2
    }
}

/// The reply endpoint of an agent service.
pub fn agent_reply_url(agent_url: &str) -> (url: String)
    ensures
        url@ == agent_url@ + "/matrix/reply"@,
{
    let mut s = string_from(agent_url);
    push_str(&mut s, "/matrix/reply");
    s
}

/// Every virtual agent user of the appservice, on the appservice's own server,
/// is recognized as an echo of the appservice, and so is never relayed back to
/// an agent.
pub proof fn law_virtual_agents_are_echoes(self_user_id: Seq<char>, server: Seq<char>, k: int)
    requires
        server_of(self_user_id) == Some(server),
        0 <= k < agent_local_parts().len(),
    ensures
        appservice_sender(mxid(agent_local_parts()[k], server), self_user_id),
{
    let sender = mxid(agent_local_parts()[k], server);
    let tail = ":"@ + server;
    assert(sender =~= ("@"@ + agent_local_parts()[k]) + tail);
    assert(sender.skip(sender.len() - tail.len()) =~= tail);
    assert(ends_with(sender, tail));
}

/// A message sent by one of the appservice's virtual agent users is never
/// relayed: the appservice does not answer its own echoes.
pub proof fn law_echoes_not_relayed(st: AppserviceState, raw: MatrixEventFields, server: Seq<char>, k: int)
    requires
        server_of(st.self_user_id@) == Some(server),
        0 <= k < agent_local_parts().len(),
        opt_view(raw.sender) == Some(mxid(agent_local_parts()[k], server)),
    ensures
        !relayable(st, raw),
{
    law_virtual_agents_are_echoes(st.self_user_id@, server, k);
}

/// A message in a room migrated to the agents' own sessions is never relayed.
pub proof fn law_migrated_rooms_not_relayed(st: AppserviceState, raw: MatrixEventFields)
    requires
        raw.room_id matches Some(r) && migrated_room_ids().contains(r@),
    ensures
        !relayable(st, raw),
{
}

} // verus!
