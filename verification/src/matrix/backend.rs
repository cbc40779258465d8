//! The Matrix chat backend's own decisions: which component agent owns a room,
//! what provisioning asks for and reports, which DMs already exist, and how a
//! room's history reads.

use vstd::prelude::*;
use crate::matrix::appservice::opt_view;
use crate::matrix::client::{mxid, mxid_string, opt_string_view, ChunkEvent};
use crate::pairs::{find_key, last_key_index};
use crate::registration::COMPONENT_AGENT_LOCALPARTS;
use crate::responder::{HttpReply, Responder};
use crate::text::{join_strings, joined, push_decimal, push_str, str_eq, string_from, trim_end_char, views};
use crate::types::{ChatEvent, ChatEventKind, RoomId, UserId};

verus! {

/// Number of recent messages given to an agent as context each turn.
pub const HISTORY_LIMIT: u32 = 20;

/// What provisioning a project's rooms needs.
#[derive(Debug, Clone)]
pub struct RoomProvisioningParams {
    pub farga_url: String,
    pub fondament_url: String,
    pub anthropic_api_key: String,
    pub dispatcher_url: String,
    pub amassada_url: String,
}

/// The Matrix localpart of a component's agent: the component name, except for
/// `charradissa`, whose agent is `charradissa-agent` (the bare name is the
/// appservice sender).
pub open spec fn component_localpart(component: Seq<char>) -> Seq<char> {
    if component == "charradissa"@ {
        "charradissa-agent"@
    } else {
        component
    }
}

/// The Matrix localpart of `component`'s agent (see [`component_localpart`]).
pub fn agent_localpart_for_component(component: &str) -> (lp: &str)
    ensures
        lp@ == component_localpart(component@),
{
    if str_eq(component, "charradissa") {
        "charradissa-agent"
    } else {
        component
    }
}

/// Farga's list of the components of `project`.
pub fn components_url(farga_url: &str, project: &str) -> (url: String)
    ensures
        url@ == farga_url@ + "/context/components/"@ + project@,
{
    let mut s = string_from(farga_url);
    push_str(&mut s, "/context/components/");
    push_str(&mut s, project);
    s
}

/// Fondament's resolution of `component`'s agent definition (its system prompt).
pub fn fondament_resolve_url(fondament_url: &str, component: &str) -> (url: String)
    ensures
        url@ == fondament_url@ + "/resolve/fondament/"@ + component@ + "-agent"@,
{
    let mut s = string_from(fondament_url);
    push_str(&mut s, "/resolve/fondament/");
    push_str(&mut s, component);
    push_str(&mut s, "-agent");
    s
}

/// The display name of a room: `name` then a space then `kind` (`project` or
/// `agent`).
pub fn room_display_name(name: &str, kind: &str) -> (s: String)
    ensures
        s@ == name@ + " "@ + kind@,
{
    let mut s = string_from(name);
    push_str(&mut s, " ");
    push_str(&mut s, kind);
    s
}

/// The responder answering in a component room with `system_prompt`: a
/// component agent (Farga tools only) answering with `model`, the model the
/// deployment configures for component agents.
pub fn component_responder(
    params: &RoomProvisioningParams,
    server_name: &str,
    model: &str,
    system_prompt: String,
) -> (r: Responder)
    ensures
        r@.api_key == params.anthropic_api_key@,
        r@.model == model@,
        r@.server_name == server_name@,
        r@.farga_url == trim_end_char(params.farga_url@, '/'),
        r@.dispatcher_url == trim_end_char(params.dispatcher_url@, '/'),
        r@.amassada_url == trim_end_char(params.amassada_url@, '/'),
        r@.system_prompt == system_prompt@,
        !r@.is_org_agent,
{
    Responder::with_config(
        string_from(params.anthropic_api_key.as_str()),
        string_from(model),
        string_from(server_name),
        string_from(params.farga_url.as_str()),
        string_from(params.dispatcher_url.as_str()),
        string_from(params.amassada_url.as_str()),
        system_prompt,
        false,
    )
}

/// The provisioning report of the component rooms `rooms`.
pub fn provisioning_summary(rooms: &Vec<String>) -> (s: String)
    ensures
        s@ == "provisioned "@ + crate::text::decimal(rooms@.len()) + " component rooms: "@ + joined(views(rooms@), ", "@),
{
    let mut s = string_from("provisioned ");
    push_decimal(&mut s, rooms.len() as u64);
    push_str(&mut s, " component rooms: ");
    let j = join_strings(rooms, ", ");
    push_str(&mut s, j.as_str());
    s
}

/// The localparts of the agents the org agent keeps a DM with: every component
/// agent but the org agent itself.
pub open spec fn dm_partner_localparts() -> Seq<Seq<char>> {
    seq!["gardian"@, "fondament"@, "farga"@, "amassada"@, "cor"@, "caissa"@, "nervi"@]
}

/// The Matrix ids of the DM partners on `server`, in order.
pub fn dm_partners(server: &str) -> (v: Vec<String>)
    ensures
        v@.map_values(|x: String| x@) == dm_partner_localparts().map_values(
            |lp: Seq<char>| mxid(lp, server@),
        ),
{
    let mut v: Vec<String> = Vec::new();
    let ghost want = dm_partner_localparts().map_values(|lp: Seq<char>| mxid(lp, server@));
    let mut i: usize = 0;
    assert(want.len() == 7);
    while i < 8
        invariant
            1 <= i + 1,
            i <= 8,
            want == dm_partner_localparts().map_values(|lp: Seq<char>| mxid(lp, server@)),
            want.len() == 7,
            i > 0 ==> v@.len() == i - 1 && v@.map_values(|x: String| x@) == want.take(i - 1),
            i == 0 ==> v@.len() == 0,
        decreases 8 - i,
    {
        if i > 0 {
            let m = mxid_string(COMPONENT_AGENT_LOCALPARTS[i], server);
            assert(COMPONENT_AGENT_LOCALPARTS@[i as int]@ == dm_partner_localparts()[i - 1]);
            let ghost before = v@;
            v.push(m);
            assert(want[i - 1] == mxid(dm_partner_localparts()[i - 1], server@));
            assert(v@.map_values(|x: String| x@) =~= want.take(i as int));
        }
        i = i + 1;
    }
    assert(want.take(7) =~= want);
    v
}

/// The DM room recorded for `partner` in the bot's `m.direct` (partner to the
/// first room id listed for it, when any; later pairs override earlier ones).
pub open spec fn recorded_dm(direct: Seq<(String, Option<String>)>, partner: Seq<char>) -> Option<Seq<char>> {
    match last_key_index(direct, partner) {
        Some(i) => opt_view(direct[i].1),
        None => None,
    }
}

/// DM provisioning is idempotent: once a room is recorded for a partner in
/// `m.direct`, the next provisioning finds that room and reuses it.
pub proof fn law_recorded_dm_reused(direct: Seq<(String, Option<String>)>, partner: String, room: String)
    ensures
        recorded_dm(direct.push((partner, Some(room))), partner@) == Some(room@),
{
    let d = direct.push((partner, Some(room)));
    assert(d.last() == (partner, Some(room)));
}

/// The DM room already recorded for `partner`, reused instead of creating one.
pub fn existing_dm(direct: &Vec<(String, Option<String>)>, partner: &str) -> (r: Option<String>)
    ensures
        opt_view(r) == recorded_dm(direct@, partner@),
{
    match find_key(direct, partner) {
        Some(i) => match &direct[i].1 {
            Some(room) => Some(string_from(room.as_str())),
            None => None,
        },
        None => None,
    }
}

/// The system prompt Fondament gives for a component: the body of a successful,
/// non-empty answer. Otherwise none, and the component gets no room.
pub fn component_prompt(reply: &Result<HttpReply, String>) -> (p: Option<String>)
    ensures
        p is Some <==> (reply matches Ok(r) && r.success && r.body@.len() > 0),
        p matches Some(t) ==> (reply matches Ok(r) && t@ == r.body@),
{
    match reply {
        Ok(r) => if r.success && !r.body.as_str().is_empty() {
            Some(string_from(r.body.as_str()))
        } else {
            None
        },
        Err(_) => None,
    }
}

/// The text of the DM records `direct` (partner, first room).
pub open spec fn records_view(direct: Seq<(String, Option<String>)>) -> Seq<(Seq<char>, Option<Seq<char>>)> {
    direct.map_values(|e: (String, Option<String>)| (e.0@, opt_view(e.1)))
}

/// The DM records after a provisioning that created the rooms `created`
/// (partner, room), each recorded after the earlier records; and whether
/// `m.direct` must be written back, which is when a room was created.
pub fn dm_record_after(direct: Vec<(String, Option<String>)>, created: &Vec<(String, String)>) -> (r: (
    Vec<(String, Option<String>)>,
    bool,
))
    ensures
        records_view(r.0@) == records_view(direct@) + created@.map_values(
            |c: (String, String)| (c.0@, Some(c.1@)),
        ),
        r.1 == (created@.len() > 0),
{
    let mut out = direct;
    let ghost start = records_view(out@);
    let mut i: usize = 0;
    while i < created.len()
        invariant
            i <= created@.len(),
            records_view(out@) == start + created@.take(i as int).map_values(
                |c: (String, String)| (c.0@, Some(c.1@)),
            ),
        decreases created.len() - i,
    {
        let ghost before = out@;
        out.push((string_from(created[i].0.as_str()), Some(string_from(created[i].1.as_str()))));
        assert(records_view(out@) =~= records_view(before).push((created@[i as int].0@, Some(created@[i as int].1@))));
        assert(created@.take(i + 1).map_values(|c: (String, String)| (c.0@, Some(c.1@))) =~= created@.take(
            i as int,
        ).map_values(|c: (String, String)| (c.0@, Some(c.1@))).push((created@[i as int].0@, Some(created@[i as int].1@))));
        i = i + 1;
    }
    assert(created@.take(created@.len() as int) =~= created@);
    (out, created.len() > 0)
}

/// The report of the DM provisioning: `partner → room` for each DM.
pub fn dm_summary(dms: &Vec<(String, String)>) -> (s: String)
    ensures
        s@ == "provisioned "@ + crate::text::decimal(dms@.len())
            + " DM rooms (Guilhem ↔ component agents): "@ + joined(
            dms@.map_values(|d: (String, String)| d.0@ + " → "@ + d.1@),
            ", "@,
        ),
{
    let mut items: Vec<String> = Vec::new();
    let mut i: usize = 0;
    while i < dms.len()
        invariant
            i <= dms@.len(),
            items@.len() == i,
            forall|k: int| 0 <= k < i ==> (#[trigger] items@[k])@ == dms@[k].0@ + " → "@ + dms@[k].1@,
        decreases dms.len() - i,
    {
        let mut item = string_from(dms[i].0.as_str());
        push_str(&mut item, " → ");
        push_str(&mut item, dms[i].1.as_str());
        items.push(item);
        i = i + 1;
    }
    assert(views(items@) =~= dms@.map_values(
        |d: (String, String)| d.0@ + " → "@ + d.1@,
    ));
    let mut s = string_from("provisioned ");
    push_decimal(&mut s, dms.len() as u64);
    push_str(&mut s, " DM rooms (Guilhem ↔ component agents): ");
    let j = join_strings(&items, ", ");
    push_str(&mut s, j.as_str());
    s
}

/// Whether a chunk event reads as a history message: a message with an event id
/// and a sender.
pub open spec fn is_history_message(e: ChunkEvent) -> bool {
    opt_string_view(e.event_type) == Some("m.room.message"@) && e.event_id is Some && e.sender
        is Some
}

/// `ev` is the history event read from `e` in `room` at `now_ms`.
pub open spec fn history_event(e: ChunkEvent, room: RoomId, now_ms: i64, ev: ChatEvent) -> bool {
    &&& Some(ev.event_id@) == opt_string_view(e.event_id)
    &&& ev.room_id@ == room@
    &&& Some(ev.sender@) == opt_string_view(e.sender)
    &&& ev.content@ == match e.body {
        Some(b) => b@,
        None => Seq::empty(),
    }
    &&& ev.timestamp == now_ms
    &&& ev.kind is Message
}

/// The indices of the history messages among the first `n` events of a chunk.
pub open spec fn history_indices(chunk: Seq<ChunkEvent>, n: int) -> Seq<int>
    decreases n,
{
    if n <= 0 {
        Seq::empty()
    } else {
        history_indices(chunk, n - 1) + if is_history_message(chunk[n - 1]) {
            seq![n - 1]
        } else {
            Seq::empty()
        }
    }
}

/// The messages of a newest-first `/messages` chunk of `room`, oldest first, read
/// at `now_ms`.
pub fn parse_messages_chunk(chunk: &Vec<ChunkEvent>, room: &RoomId, now_ms: i64) -> (evs: Vec<ChatEvent>)
    ensures
        evs@.len() == history_indices(chunk@, chunk@.len() as int).len(),
        forall|k: int|
            0 <= k < evs@.len() ==> history_event(
                chunk@[history_indices(chunk@, chunk@.len() as int).reverse()[k]],
                *room,
                now_ms,
                #[trigger] evs@[k],
            ),
{
    let mut evs: Vec<ChatEvent> = Vec::new();
    let mut i: usize = chunk.len();
    let ghost all = history_indices(chunk@, chunk@.len() as int);
    while i > 0
        invariant
            i <= chunk@.len(),
            all == history_indices(chunk@, chunk@.len() as int),
            evs@.len() + history_indices(chunk@, i as int).len() == all.len(),
            forall|k: int|
                0 <= k < evs@.len() ==> history_event(
                    chunk@[all.reverse()[k]],
                    *room,
                    now_ms,
                    #[trigger] evs@[k],
                ),
            history_indices(chunk@, i as int) == all.take(all.len() - evs@.len()),
        decreases i,
    {
        let e = &chunk[i - 1];
        let is_msg = match &e.event_type {
            Some(t) => str_eq(t.as_str(), "m.room.message"),
            None => false,
        };
        let ghost prev = history_indices(chunk@, i - 1);
        if is_msg {
            match (&e.event_id, &e.sender) {
                (Some(id), Some(s)) => {
                    let content = match &e.body {
                        Some(b) => string_from(b.as_str()),
                        None => String::new(),
                    };
                    let ev = ChatEvent {
                        event_id: string_from(id.as_str()),
                        room_id: RoomId::new(room.as_str()),
                        sender: UserId::new(s.as_str()),
                        content,
                        timestamp: now_ms,
                        kind: ChatEventKind::Message,
                    };
                    proof {
                        assert(history_indices(chunk@, i as int) == prev + seq![i - 1]);
                        assert(all.take(all.len() - evs@.len()) == prev.push(i - 1));
                        assert(all[all.len() - evs@.len() - 1] == i - 1) by {
                            assert(prev.push(i - 1).last() == i - 1);
                        }
                        assert(all.reverse()[evs@.len() as int] == i - 1);
                        assert(all.take(all.len() - evs@.len() - 1) =~= prev) by {
                            assert(all.take(all.len() - evs@.len()).drop_last() =~= all.take(
                                all.len() - evs@.len() - 1,
                            ));
                        }
                    }
                    evs.push(ev);
                },
                _ => {
                    assert(history_indices(chunk@, i as int) =~= prev);
                },
            }
        } else {
            assert(history_indices(chunk@, i as int) =~= prev);
        }
        i = i - 1;
    }
    evs
}

} // verus!
