//! What the appservice client computes before it talks to the homeserver: escaped
//! path segments, user ids, message bodies and room power levels.

use vstd::prelude::*;
use crate::text::{chars_of, push_char, push_str, starts_with, str_eq, string_from, trim, trim_bounds};
use crate::types::UserId;

verus! {

/// Component agent localparts in the appservice namespace. The appservice sets
/// these users to power level 50 (kick power) in every room it creates or joins.
pub const AGENT_LOCAL_PARTS: [&'static str; 9] = [
    "guilhem",
    "gardian",
    "fondament",
    "farga",
    "amassada",
    "cor",
    "caissa",
    "charradissa",
    "nervi",
];

/// The localparts of [`AGENT_LOCAL_PARTS`].
pub open spec fn agent_local_parts() -> Seq<Seq<char>> {
    seq![
        "guilhem"@,
        "gardian"@,
        "fondament"@,
        "farga"@,
        "amassada"@,
        "cor"@,
        "caissa"@,
        "charradissa"@,
        "nervi"@,
    ]
}

/// The agents' localparts, in order (see [`agent_local_parts`]).
pub fn agent_local_parts_exec() -> (v: Vec<&'static str>)
    ensures
        v@.map_values(|s: &str| s@) == agent_local_parts(),
{
    let mut v: Vec<&'static str> = Vec::new();
    let mut i: usize = 0;
    while i < 9
        invariant
            i <= 9,
            v@.len() == i,
            forall|k: int| 0 <= k < i ==> (#[trigger] v@[k])@ == AGENT_LOCAL_PARTS@[k]@,
        decreases 9 - i,
    {
        v.push(AGENT_LOCAL_PARTS[i]);
        i = i + 1;
    }
    assert(v@.map_values(|s: &str| s@) =~= agent_local_parts());
    v
}

/// Characters that [`pct`] escapes.
pub open spec fn is_reserved(c: char) -> bool {
    c == '!' || c == '#' || c == '@' || c == ':' || c == '/' || c == '?' || c == '&' || c == '='
        || c == '+' || c == ' '
}

/// Uppercase hexadecimal digit.
pub open spec fn upper_hex(d: nat) -> char {
    seq!['0', '1', '2', '3', '4', '5', '6', '7', '8', '9', 'A', 'B', 'C', 'D', 'E', 'F'][d as int]
}

fn upper_hex_exec(d: u32) -> (c: char)
    requires
        d < 16,
    ensures
        c == upper_hex(d as nat),
{
    match d {
        0 => '0',
        1 => '1',
        2 => '2',
        3 => '3',
        4 => '4',
        5 => '5',
        6 => '6',
        7 => '7',
        8 => '8',
        9 => '9',
        10 => 'A',
        11 => 'B',
        12 => 'C',
        13 => 'D',
        14 => 'E',
        _ => 'F',
    }
}

/// The percent-encoding of `s`: each reserved character as `%XX`.
pub open spec fn pct_text(s: Seq<char>) -> Seq<char>
    decreases s.len(),
{
    if s.len() == 0 {
        Seq::empty()
    } else {
        let c = s.last();
        pct_text(s.drop_last()) + if is_reserved(c) {
            seq!['%', upper_hex(c as nat / 16), upper_hex(c as nat % 16)]
        } else {
            seq![c]
        }
    }
}

/// No reserved character survives percent-encoding: whatever `s` holds, its
/// encoding is a single path segment with no `! # @ : / ? & = +` or space.
pub proof fn law_pct_leaves_no_reserved(s: Seq<char>)
    ensures
        forall|i: int| 0 <= i < pct_text(s).len() ==> !is_reserved(#[trigger] pct_text(s)[i]),
    decreases s.len(),
{
    if s.len() > 0 {
        law_pct_leaves_no_reserved(s.drop_last());
        let prev = pct_text(s.drop_last());
        let c = s.last();
        let t = seq!['0', '1', '2', '3', '4', '5', '6', '7', '8', '9', 'A', 'B', 'C', 'D', 'E', 'F'];
        assert(forall|k: int| 0 <= k < 16 ==> !is_reserved(#[trigger] t[k]));
        assert forall|i: int| 0 <= i < pct_text(s).len() implies !is_reserved(#[trigger] pct_text(s)[i]) by {
            if i < prev.len() {
                assert(pct_text(s)[i] == prev[i]);
            } else if is_reserved(c) {
                assert((c as nat) < 128);
                assert(upper_hex(c as nat / 16) == t[(c as nat / 16) as int]);
                assert(upper_hex(c as nat % 16) == t[(c as nat % 16) as int]);
            }
        }
    }
}

/// Percent-encodes a Matrix path segment (room id, user id or alias), escaping
/// `! # @ : / ? & = +` and space so they survive as a URL path component.
pub fn pct(s: &str) -> (r: String)
    ensures
        r@ == pct_text(s@),
{
    let v = chars_of(s);
    let mut out = String::new();
    let mut i: usize = 0;
    assert(v@.take(0) =~= Seq::<char>::empty());
    while i < v.len()
        invariant
            i <= v@.len(),
            out@ == pct_text(v@.take(i as int)),
        decreases v.len() - i,
    {
        let c = v[i];
        assert(v@.take(i + 1).drop_last() =~= v@.take(i as int));
        if c == '!' || c == '#' || c == '@' || c == ':' || c == '/' || c == '?' || c == '&' || c
            == '=' || c == '+' || c == ' ' {
            let code = c as u32;
            push_char(&mut out, '%');
            push_char(&mut out, upper_hex_exec(code / 16));
            push_char(&mut out, upper_hex_exec(code % 16));
            assert(out@ =~= pct_text(v@.take(i + 1)));
        } else {
            push_char(&mut out, c);
            assert(out@ =~= pct_text(v@.take(i + 1)));
        }
        i = i + 1;
    }
    assert(v@.take(v@.len() as int) =~= v@);
    out
}

/// The Matrix id `@<local_part>:<server_name>`.
pub open spec fn mxid(local_part: Seq<char>, server_name: Seq<char>) -> Seq<char> {
    "@"@ + local_part + ":"@ + server_name
}

/// The Matrix user id of `local_part` on `server_name` (the server name, not the
/// homeserver's URL).
pub fn user_id(local_part: &str, server_name: &str) -> (u: UserId)
    ensures
        u@ == mxid(local_part@, server_name@),
{
    UserId::new(mxid_string(local_part, server_name).as_str())
}

/// The Matrix id of `local_part` on `server_name` (see [`mxid`]).
pub fn mxid_string(local_part: &str, server_name: &str) -> (s: String)
    ensures
        s@ == mxid(local_part@, server_name@),
{
    let mut s = String::new();
    push_str(&mut s, "@");
    push_str(&mut s, local_part);
    push_str(&mut s, ":");
    push_str(&mut s, server_name);
    assert(s@ =~= mxid(local_part@, server_name@));
    s
}

/// What `html` reads as once the outer `<p>…</p>` of a single paragraph is removed.
pub open spec fn unwrapped_html(html: Seq<char>) -> Seq<char> {
    let t = trim(html);
    if starts_with(t, "<p>"@) && t.len() >= 7 && t.subrange(t.len() - 4, t.len() as int)
        == "</p>"@ {
        t.subrange(3, t.len() - 4)
    } else {
        t
    }
}

/// Whether `a` from `i` and `b` from `j` hold the same character at offset `m`.
pub open spec fn agree_at(a: Seq<char>, i: int, b: Seq<char>, j: int, m: int) -> bool {
    a[i + m] == b[j + m]
}

/// Whether the rendered `html` adds something beyond the plain paragraph that a
/// renderer wraps around any bare text.
pub fn html_differs_from_plain(plain: &str, html: &str) -> (b: bool)
    ensures
        b == (unwrapped_html(html@) != trim(plain@)),
{
    let h = chars_of(html);
    let (a, z) = trim_bounds(&h, 0, h.len());
    assert(h@.subrange(0, h.len() as int) =~= h@);
    let ghost t = h@.subrange(a as int, z as int);
    let open = chars_of("<p>");
    let close = chars_of("</p>");
    proof {
        reveal_strlit("<p>");
        reveal_strlit("</p>");
    }
    let (u0, u1) = if crate::text::starts_with_exec(&h, a, z, &open) && z - a >= 7
        && crate::text::eq_range(&h, z - 4, z, &close) {
        assert(t.subrange(t.len() - 4, t.len() as int) =~= h@.subrange(z - 4, z as int));
        assert(t.subrange(3, t.len() - 4) =~= h@.subrange(a + 3, z - 4));
        (a + 3, z - 4)
    } else {
        proof {
            if starts_with(t, "<p>"@) && t.len() >= 7 {
                assert(t.subrange(t.len() - 4, t.len() as int) =~= h@.subrange(z - 4, z as int));
            }
        }
        (a, z)
    };
    let p = chars_of(plain);
    let (p0, p1) = trim_bounds(&p, 0, p.len());
    assert(p@.subrange(0, p.len() as int) =~= p@);
    let same = if u1 - u0 == p1 - p0 {
        let mut k: usize = 0;
        let mut eq = true;
        while k < u1 - u0
            invariant
                u0 <= u1 <= h.len(),
                p0 <= p1 <= p.len(),
                u1 - u0 == p1 - p0,
                k <= u1 - u0,
                eq == (forall|m: int| 0 <= m < k ==> #[trigger] agree_at(h@, u0 as int, p@, p0 as int, m)),
            decreases u1 - u0 - k,
        {
            if h[u0 + k] != p[p0 + k] {
                eq = false;
            }
            assert(agree_at(h@, u0 as int, p@, p0 as int, k as int) == (h@[u0 + k] == p@[p0 + k]));
            k = k + 1;
        }
        proof {
            if eq {
                assert forall|m: int| 0 <= m < k implies h@.subrange(u0 as int, u1 as int)[m]
                    == p@.subrange(p0 as int, p1 as int)[m] by {
                    assert(agree_at(h@, u0 as int, p@, p0 as int, m));
                }
                assert(h@.subrange(u0 as int, u1 as int) =~= p@.subrange(p0 as int, p1 as int));
            } else {
                let m = choose|m: int| 0 <= m < k && !agree_at(h@, u0 as int, p@, p0 as int, m);
                assert(h@.subrange(u0 as int, u1 as int)[m] != p@.subrange(
                    p0 as int,
                    p1 as int,
                )[m]);
            }
        }
        eq
    } else {
        false
    };
    !same
}

/// The Markdown rendering of `content` as HTML, as the Markdown renderer gives it
/// (tables, strikethrough and task lists enabled).
pub uninterp spec fn markdown_html(content: Seq<char>) -> Seq<char>;

/// Renders `content` with `pulldown_cmark` (tables, strikethrough, task lists) to HTML.
/// The result is named, not stated: it is what the renderer gives for `content`.
#[verifier::external_body]
fn render_markdown(content: &str) -> (html: String)
    ensures
        html@ == markdown_html(content@),
{
    let opts = pulldown_cmark::Options::ENABLE_TABLES | pulldown_cmark::Options::ENABLE_STRIKETHROUGH
        | pulldown_cmark::Options::ENABLE_TASKLISTS;
    let mut html = String::new();
    pulldown_cmark::html::push_html(&mut html, pulldown_cmark::Parser::new_ext(content, opts));
    html
}

/// The body of an `m.room.message`: the plain text, and the HTML rendering when
/// the text holds Markdown.
pub struct MessageBody {
    pub body: String,
    pub formatted_body: Option<String>,
}

/// The formatted part of a message body, given the rendering `html` of `content`:
/// present exactly when the rendering adds markup.
pub open spec fn formatted_part(content: Seq<char>, html: Seq<char>) -> Option<Seq<char>> {
    if unwrapped_html(html) != trim(content) {
        Some(html)
    } else {
        None
    }
}

/// The message body for `content` given its HTML rendering `html`.
pub fn message_body_from(content: &str, html: String) -> (m: MessageBody)
    ensures
        m.body@ == content@,
        match m.formatted_body {
            Some(f) => formatted_part(content@, html@) == Some(f@),
            None => formatted_part(content@, html@) is None,
        },
{
    let differs = html_differs_from_plain(content, html.as_str());
    MessageBody {
        body: string_from(content),
        formatted_body: if differs {
            Some(html)
        } else {
            None
        },
    }
}

/// The message body for `content`: the HTML rendering is attached only when it
/// adds markup to the plain text.
pub fn markdown_body(content: &str) -> (m: MessageBody)
    ensures
        m.body@ == content@,
        match m.formatted_body {
            Some(f) => formatted_part(content@, markdown_html(content@)) == Some(f@),
            None => formatted_part(content@, markdown_html(content@)) is None,
        },
{
    message_body_from(content, render_markdown(content))
}

} // verus!

verus! {

/// The appservice's client-server API client: the homeserver it talks to, the
/// appservice token, the bot's user id and the server name. The HTTP exchanges
/// are made outside; the requests are built here.
pub struct AppserviceClient {
    homeserver: String,
    as_token: String,
    bot_user_id: String,
    server_name: String,
}

/// What an [`AppserviceClient`] holds.
pub struct ClientView {
    pub homeserver: Seq<char>,
    pub as_token: Seq<char>,
    pub bot_user_id: Seq<char>,
    pub server_name: Seq<char>,
}

impl View for AppserviceClient {
    type V = ClientView;

    closed spec fn view(&self) -> ClientView {
        ClientView {
            homeserver: self.homeserver@,
            as_token: self.as_token@,
            bot_user_id: self.bot_user_id@,
            server_name: self.server_name@,
        }
    }
}

/// `homeserver` then the client-server API path `/_matrix/client/v3/`.
pub open spec fn api(homeserver: Seq<char>) -> Seq<char> {
    homeserver + "/_matrix/client/v3/"@
}

/// The URL of `rooms/<room>/<suffix>`, the room id escaped.
pub open spec fn room_url(homeserver: Seq<char>, room: Seq<char>, suffix: Seq<char>) -> Seq<char> {
    api(homeserver) + "rooms/"@ + pct_text(room) + "/"@ + suffix
}

/// The URL of a message send into `room` under transaction `txn`, as the virtual
/// user `sender` when given.
pub open spec fn send_url(
    homeserver: Seq<char>,
    room: Seq<char>,
    txn: Seq<char>,
    sender: Option<Seq<char>>,
    server: Seq<char>,
) -> Seq<char> {
    room_url(homeserver, room, "send/m.room.message/"@ + txn) + match sender {
        Some(lp) => "?user_id="@ + pct_text(mxid(lp, server)),
        None => Seq::empty(),
    }
}

/// Whether a power-level entry is not the bot's.
pub open spec fn not_bot(bot: Seq<char>) -> spec_fn((Seq<char>, i64)) -> bool {
    |u: (Seq<char>, i64)| u.0 != bot
}

/// The Matrix users of a new room with their power levels, later pairs
/// overriding earlier ones. In a component room: every component agent at 50,
/// then the owner at 100 and the bot at 50. In a room without an owner: every
/// component agent at 50 except the bot itself, which is left out and so keeps
/// the creator's level 100.
pub open spec fn room_power_users(server: Seq<char>, bot: Seq<char>, owner: Option<Seq<char>>) -> Seq<
    (Seq<char>, i64),
> {
    let agents = agent_local_parts().map_values(|lp: Seq<char>| (mxid(lp, server), 50i64));
    match owner {
        Some(o) => agents + seq![(mxid(o, server), 100i64), (bot, 50i64)],
        None => agents.filter(not_bot(bot)),
    }
}

/// What a scan of a joined room's members says: it is the DM with `target` when
/// its members are exactly the bot and `target`.
pub open spec fn is_dm_room(members: Seq<Seq<char>>, target: Seq<char>, bot: Seq<char>) -> bool {
    members.len() == 2 && members.contains(target) && members.contains(bot)
}

/// An event of a `/messages` chunk: its `type`, `event_id`, `sender` and
/// `content.body` when they are strings.
#[derive(Debug, Clone)]
pub struct ChunkEvent {
    pub event_type: Option<String>,
    pub event_id: Option<String>,
    pub sender: Option<String>,
    pub body: Option<String>,
}

/// Whether a chunk event is a message with a sender and a text body.
pub open spec fn is_text_message(e: ChunkEvent) -> bool {
    opt_string_view(e.event_type) == Some("m.room.message"@) && e.sender is Some && e.body is Some
}

/// The text of an optional string.
pub open spec fn opt_string_view(o: Option<String>) -> Option<Seq<char>> {
    match o {
        Some(s) => Some(s@),
        None => None,
    }
}

/// The (sender, body) of the text messages among the first `n` events of a chunk,
/// in chunk order.
pub open spec fn chunk_messages(chunk: Seq<ChunkEvent>, n: int) -> Seq<(Seq<char>, Seq<char>)>
    decreases n,
{
    if n <= 0 {
        Seq::empty()
    } else {
        let e = chunk[n - 1];
        chunk_messages(chunk, n - 1) + if is_text_message(e) {
            seq![(e.sender->0@, e.body->0@)]
        } else {
            Seq::empty()
        }
    }
}

/// The text messages of a newest-first `/messages` chunk, oldest first.
pub fn messages_from_chunk(chunk: &Vec<ChunkEvent>) -> (msgs: Vec<(String, String)>)
    ensures
        msgs@.map_values(|m: (String, String)| (m.0@, m.1@)) == chunk_messages(
            chunk@,
            chunk@.len() as int,
        ).reverse(),
{
    let mut msgs: Vec<(String, String)> = Vec::new();
    let mut i: usize = chunk.len();
    assert(chunk_messages(chunk@, chunk@.len() as int).subrange(
        chunk_messages(chunk@, chunk@.len() as int).len() as int,
        chunk_messages(chunk@, chunk@.len() as int).len() as int,
    ).reverse() =~= Seq::<(Seq<char>, Seq<char>)>::empty());
    while i > 0
        invariant
            i <= chunk@.len(),
            msgs@.map_values(|m: (String, String)| (m.0@, m.1@)) + chunk_messages(
                chunk@,
                i as int,
            ).reverse() == chunk_messages(chunk@, chunk@.len() as int).reverse(),
        decreases i,
    {
        let e = &chunk[i - 1];
        let ghost before = msgs@.map_values(|m: (String, String)| (m.0@, m.1@));
        let is_msg = match &e.event_type {
            Some(t) => crate::text::str_eq(t.as_str(), "m.room.message"),
            None => false,
        };
        if is_msg {
            match (&e.sender, &e.body) {
                (Some(s), Some(b)) => {
                    msgs.push((string_from(s.as_str()), string_from(b.as_str())));
                },
                _ => {},
            }
        }
        proof {
            let prev = chunk_messages(chunk@, i - 1);
            if is_text_message(*e) {
                assert(chunk_messages(chunk@, i as int) == prev + seq![(e.sender->0@, e.body->0@)]);
                assert((prev + seq![(e.sender->0@, e.body->0@)]).reverse() =~= seq![
                    (e.sender->0@, e.body->0@),
                ] + prev.reverse());
                assert(msgs@.map_values(|m: (String, String)| (m.0@, m.1@)) =~= before + seq![
                    (e.sender->0@, e.body->0@),
                ]);
            } else {
                assert(chunk_messages(chunk@, i as int) =~= prev);
                assert(msgs@.map_values(|m: (String, String)| (m.0@, m.1@)) =~= before);
            }
        }
        i = i - 1;
    }
    msgs
}

/// The localpart the appservice registers for its own user: the bot id without
/// leading `@`s and without its server part.
pub open spec fn bot_localpart(bot: Seq<char>) -> Seq<char> {
    crate::text::before_char(crate::text::strip_start_by(bot, crate::text::char_is('@')), ':')
}

/// What a join of an alias that may not exist comes to.
#[derive(Debug, Clone, Copy, PartialEq, Eq, Structural)]
pub enum JoinOutcome {
    /// The room exists and was joined.
    Joined,
    /// The alias does not exist: create the room.
    Create,
    /// Another failure.
    Failed,
}

/// What a join answered with `success` and `status_code` comes to: 404 or 400
/// mean the alias does not exist.
pub fn join_outcome(success: bool, status_code: u16) -> (o: JoinOutcome)
    ensures
        o == (if success {
            JoinOutcome::Joined
        } else if status_code == 404 || status_code == 400 {
            JoinOutcome::Create
        } else {
            JoinOutcome::Failed
        }),
{
    if success {
        JoinOutcome::Joined
    } else if status_code == 404 || status_code == 400 {
        JoinOutcome::Create
    } else {
        JoinOutcome::Failed
    }
}

/// The mimetype announced for an image file: SVG for `.svg`, else PNG.
pub fn image_mimetype(filename: &str) -> (m: &'static str)
    ensures
        m@ == (if crate::text::ends_with(filename@, ".svg"@) {
            "image/svg+xml"@
        } else {
            "image/png"@
        }),
{
    let v = crate::text::chars_of(filename);
    let svg = crate::text::chars_of(".svg");
    assert(v@.subrange(0, v.len() as int) =~= v@);
    if crate::text::ends_with_exec(&v, 0, v.len(), &svg) {
        "image/svg+xml"
    } else {
        "image/png"
    }
}

/// The error of a request `op` answered with a failure status (as displayed).
pub fn failure(op: &str, status: &str) -> (e: crate::error::CharradissaError)
    ensures
        e matches crate::error::CharradissaError::Backend(m) && m@ == op@ + " failed: "@ + status@,
{
    let mut s = string_from(op);
    push_str(&mut s, " failed: ");
    push_str(&mut s, status);
    crate::error::CharradissaError::Backend(s)
}

impl AppserviceClient {
    pub fn new(homeserver: String, as_token: String, bot_user_id: String, server_name: String) -> (c:
        Self)
        ensures
            c@.homeserver == homeserver@,
            c@.as_token == as_token@,
            c@.bot_user_id == bot_user_id@,
            c@.server_name == server_name@,
    {
        AppserviceClient { homeserver, as_token, bot_user_id, server_name }
    }

    /// The `Authorization` header value.
    pub fn auth_header(&self) -> (h: String)
        ensures
            h@ == "Bearer "@ + self@.as_token,
    {
        let mut s = string_from("Bearer ");
        push_str(&mut s, self.as_token.as_str());
        s
    }

    pub fn bot_user_id(&self) -> (s: &str)
        ensures
            s@ == self@.bot_user_id,
    {
        self.bot_user_id.as_str()
    }

    pub fn server_name(&self) -> (s: &str)
        ensures
            s@ == self@.server_name,
    {
        self.server_name.as_str()
    }

    pub fn homeserver(&self) -> (s: &str)
        ensures
            s@ == self@.homeserver,
    {
        self.homeserver.as_str()
    }

    /// The URL of an API `path` (relative to `/_matrix/client/v3/`).
    pub fn api_url(&self, path: &str) -> (url: String)
        ensures
            url@ == api(self@.homeserver) + path@,
    {
        let mut s = string_from(self.homeserver.as_str());
        push_str(&mut s, "/_matrix/client/v3/");
        push_str(&mut s, path);
        s
    }

    /// The URL of `rooms/<room>/<suffix>`.
    pub fn room_url(&self, room: &str, suffix: &str) -> (url: String)
        ensures
            url@ == room_url(self@.homeserver, room@, suffix@),
    {
        let mut s = self.api_url("rooms/");
        push_str(&mut s, pct(room).as_str());
        push_str(&mut s, "/");
        push_str(&mut s, suffix);
        s
    }

    /// The URL of a message send into `room`, under a fresh transaction id, as the
    /// virtual user `sender` when given.
    pub fn send_message_url(&self, room: &str, sender: Option<&str>) -> (url: String)
        ensures
            exists|txn: Seq<char>|
                crate::clock::is_uuid_text(txn) && url@ == send_url(
                    self@.homeserver,
                    room@,
                    txn,
                    match sender {
                        Some(s) => Some(s@),
                        None => None,
                    },
                    self@.server_name,
                ),
    {
        let txn = crate::clock::new_uuid();
        let mut suffix = string_from("send/m.room.message/");
        push_str(&mut suffix, txn.as_str());
        let mut url = self.room_url(room, suffix.as_str());
        if let Some(lp) = sender {
            push_str(&mut url, "?user_id=");
            let m = mxid_string(lp, self.server_name.as_str());
            push_str(&mut url, pct(m.as_str()).as_str());
        }
        url
    }

    /// The users and power levels of a new room (see [`room_power_users`]).
    pub fn room_power_users(&self, owner: Option<&str>) -> (users: Vec<(String, i64)>)
        ensures
            users@.map_values(|u: (String, i64)| (u.0@, u.1)) == room_power_users(
                self@.server_name,
                self@.bot_user_id,
                match owner {
                    Some(o) => Some(o@),
                    None => None,
                },
            ),
    {
        let mut users: Vec<(String, i64)> = Vec::new();
        let mut i: usize = 0;
        let ghost agents = agent_local_parts().map_values(
            |lp: Seq<char>| (mxid(lp, self@.server_name), 50i64),
        );
        let ghost keep = not_bot(self@.bot_user_id);
        let skip_bot = owner.is_none();
        assert(AGENT_LOCAL_PARTS@.map_values(|s: &str| s@) =~= agent_local_parts());
        assert(agents.len() == 9);
        proof {
            reveal(Seq::filter);
            assert(agents.take(0).filter(keep) =~= Seq::<(Seq<char>, i64)>::empty());
        }
        while i < 9
            invariant
                i <= 9,
                AGENT_LOCAL_PARTS@.map_values(|s: &str| s@) == agent_local_parts(),
                agents == agent_local_parts().map_values(
                    |lp: Seq<char>| (mxid(lp, self@.server_name), 50i64),
                ),
                keep == not_bot(self@.bot_user_id),
                agents.len() == 9,
                users@.map_values(|u: (String, i64)| (u.0@, u.1)) == if skip_bot {
                    agents.take(i as int).filter(keep)
                } else {
                    agents.take(i as int)
                },
            decreases 9 - i,
        {
            assert(AGENT_LOCAL_PARTS@.map_values(|s: &str| s@)[i as int]
                == AGENT_LOCAL_PARTS@[i as int]@);
            let ghost before = users@.map_values(|u: (String, i64)| (u.0@, u.1));
            let m = mxid_string(AGENT_LOCAL_PARTS[i], self.server_name.as_str());
            assert(m@ == mxid(agent_local_parts()[i as int], self@.server_name));
            assert(agents[i as int] == (mxid(agent_local_parts()[i as int], self@.server_name), 50i64));
            proof {
                reveal(Seq::filter);
                assert(agents.take(i + 1).drop_last() =~= agents.take(i as int));
                assert(agents.take(i + 1).last() == agents[i as int]);
            }
            let is_bot = str_eq(m.as_str(), self.bot_user_id.as_str());
            if !(skip_bot && is_bot) {
                users.push((m, 50));
                assert(users@.map_values(|u: (String, i64)| (u.0@, u.1)) =~= before.push(agents[i as int]));
            }
            i = i + 1;
        }
        assert(agents.take(9) =~= agents);
        if let Some(o) = owner {
            users.push((mxid_string(o, self.server_name.as_str()), 100));
            users.push((string_from(self.bot_user_id.as_str()), 50));
            assert(users@.map_values(|u: (String, i64)| (u.0@, u.1)) =~= agents + seq![
                (mxid(o@, self@.server_name), 100i64),
                (self@.bot_user_id, 50i64),
            ]);
        }
        users
    }

    /// The component agents whose power level in a room must be raised to 50 (kick
    /// power), given the room's current integer levels (later pairs override
    /// earlier ones; a user without one is at 0). Empty when nothing changes.
    pub fn kick_power_grants(&self, levels: &Vec<(String, i64)>) -> (grants: Vec<String>)
        ensures
            grants@.map_values(|g: String| g@) == agent_local_parts().map_values(
                |lp: Seq<char>| mxid(lp, self@.server_name),
            ).filter(|uid: Seq<char>| below_kick(levels@, uid)),
    {
        let mut grants: Vec<String> = Vec::new();
        let mut i: usize = 0;
        let ghost uids = agent_local_parts().map_values(|lp: Seq<char>| mxid(lp, self@.server_name));
        let ghost keep = |uid: Seq<char>| below_kick(levels@, uid);
        assert(AGENT_LOCAL_PARTS@.map_values(|s: &str| s@) =~= agent_local_parts());
        proof {
            reveal(Seq::filter);
            assert(uids.take(0).filter(keep) =~= Seq::<Seq<char>>::empty());
        }
        while i < 9
            invariant
                i <= 9,
                AGENT_LOCAL_PARTS@.map_values(|s: &str| s@) == agent_local_parts(),
                uids == agent_local_parts().map_values(|lp: Seq<char>| mxid(lp, self@.server_name)),
                keep == (|uid: Seq<char>| below_kick(levels@, uid)),
                grants@.map_values(|g: String| g@) == uids.take(i as int).filter(keep),
            decreases 9 - i,
        {
            assert(AGENT_LOCAL_PARTS@.map_values(|s: &str| s@)[i as int]
                == AGENT_LOCAL_PARTS@[i as int]@);
            let uid = mxid_string(AGENT_LOCAL_PARTS[i], self.server_name.as_str());
            let current: i64 = match crate::pairs::find_key(levels, uid.as_str()) {
                Some(k) => levels[k].1,
                None => 0,
            };
            let ghost before = grants@.map_values(|g: String| g@);
            proof {
                reveal(Seq::filter);
                assert(uids.take(i + 1).drop_last() =~= uids.take(i as int));
                assert(uids.take(i + 1).last() == uid@);
                assert(keep(uid@) == (current < 50));
            }
            if current < 50 {
                grants.push(uid);
                assert(grants@.map_values(|g: String| g@) =~= before.push(uids[i as int]));
            }
            i = i + 1;
        }
        assert(uids.take(9) =~= uids);
        grants
    }

    /// The localpart under which the appservice registers its own user.
    pub fn self_localpart(&self) -> (lp: String)
        ensures
            lp@ == bot_localpart(self@.bot_user_id),
    {
        let v = crate::text::chars_of(self.bot_user_id.as_str());
        let mut a: usize = 0;
        while a < v.len() && v[a] == '@'
            invariant
                a <= v@.len(),
                forall|k: int| 0 <= k < a ==> #[trigger] v@[k] == '@',
            decreases v.len() - a,
        {
            a = a + 1;
        }
        proof {
            assert forall|k: int| 0 <= k < a implies (crate::text::char_is('@'))(#[trigger] v@[k]) by {}
            crate::text::lemma_strip_start_skip(v@, crate::text::char_is('@'), a as int);
            assert(v@.skip(a as int) =~= v@.subrange(a as int, v.len() as int));
        }
        let end = match crate::text::find_char_exec(&v, a, v.len(), ':') {
            Some(k) => {
                assert(v@.subrange(a as int, v.len() as int).take(k as int) =~= v@.subrange(
                    a as int,
                    a + k,
                ));
                a + k
            },
            None => v.len(),
        };
        crate::text::string_of_range(&v, a, end)
    }

    /// The alias `#<alias_local>:<server>` of a component or project room.
    pub fn room_alias(&self, alias_local: &str) -> (alias: String)
        ensures
            alias@ == "#"@ + alias_local@ + ":"@ + self@.server_name,
    {
        let mut s = string_from("#");
        push_str(&mut s, alias_local);
        push_str(&mut s, ":");
        push_str(&mut s, self.server_name.as_str());
        s
    }

    /// Whether a joined room with `members` is the DM with `target`.
    pub fn is_dm_with(&self, members: &Vec<String>, target: &str) -> (b: bool)
        ensures
            b == is_dm_room(members@.map_values(|m: String| m@), target@, self@.bot_user_id),
    {
        let ghost ms = members@.map_values(|m: String| m@);
        if members.len() != 2 {
            return false;
        }
        let has_target = crate::text::str_eq(members[0].as_str(), target) || crate::text::str_eq(
            members[1].as_str(),
            target,
        );
        let has_bot = crate::text::str_eq(members[0].as_str(), self.bot_user_id.as_str())
            || crate::text::str_eq(members[1].as_str(), self.bot_user_id.as_str());
        proof {
            assert(ms[0] == members@[0]@ && ms[1] == members@[1]@);
            if ms.contains(target@) {
                let k = choose|k: int| 0 <= k < ms.len() && ms[k] == target@;
                assert(k == 0 || k == 1);
            }
            if ms.contains(self@.bot_user_id) {
                let k = choose|k: int| 0 <= k < ms.len() && ms[k] == self@.bot_user_id;
                assert(k == 0 || k == 1);
            }
        }
        has_target && has_bot
    }
}

/// Whether `uid` is below kick power (50) by `levels`, absent meaning 0.
pub open spec fn below_kick(levels: Seq<(String, i64)>, uid: Seq<char>) -> bool {
    match crate::pairs::last_key_index(levels, uid) {
        Some(k) => levels[k].1 < 50,
        None => true,
    }
}

/// The component agents' user ids on `server`, in order.
pub open spec fn agent_uids(server: Seq<char>) -> Seq<Seq<char>> {
    agent_local_parts().map_values(|lp: Seq<char>| mxid(lp, server))
}

/// Granting kick power is idempotent: once the grants computed for a room's
/// levels (see [`AppserviceClient::kick_power_grants`]) are written after them,
/// each granted agent at 50, the room needs no further grant.
pub proof fn law_kick_power_idempotent(levels: Seq<(String, i64)>, written: Seq<(String, i64)>, server: Seq<char>)
    requires
        written.map_values(|e: (String, i64)| e.0@) == agent_uids(server).filter(
            |uid: Seq<char>| below_kick(levels, uid),
        ),
        forall|k: int| 0 <= k < written.len() ==> (#[trigger] written[k]).1 == 50,
    ensures
        agent_uids(server).filter(|uid: Seq<char>| below_kick(levels + written, uid)).len() == 0,
{
    let uids = agent_uids(server);
    let before = |uid: Seq<char>| below_kick(levels, uid);
    let after = |uid: Seq<char>| below_kick(levels + written, uid);
    let keys = written.map_values(|e: (String, i64)| e.0@);
    assert forall|i: int| 0 <= i < uids.len() implies !after(#[trigger] uids[i]) by {
        let uid = uids[i];
        let all = levels + written;
        crate::pairs::lemma_last_key_concat(levels, written, uid);
        crate::pairs::lemma_last_key_index(written, uid);
        if before(uid) {
            uids.lemma_filter_contains(before, i);
            assert(keys.contains(uid));
            let k = choose|k: int| 0 <= k < keys.len() && keys[k] == uid;
            assert(written[k].0@ == uid);
            match crate::pairs::last_key_index(written, uid) {
                Some(j) => {
                    assert(all[levels.len() + j] == written[j]);
                    assert(crate::pairs::last_key_index(all, uid) == Some(levels.len() + j));
                },
                None => {
                    assert(false);
                },
            }
        } else {
            assert forall|j: int| 0 <= j < written.len() implies (#[trigger] written[j]).0@ != uid by {
                if written[j].0@ == uid {
                    assert(keys[j] == uid);
                    uids.lemma_filter_pred(before, j);
                }
            }
            match crate::pairs::last_key_index(written, uid) {
                Some(j) => {
                    assert(false);
                },
                None => {
                    match crate::pairs::last_key_index(levels, uid) {
                        Some(k) => {
                            crate::pairs::lemma_last_key_index(levels, uid);
                            assert(all[k] == levels[k]);
                        },
                        None => {},
                    }
                },
            }
        }
    }
    assert(uids.all(|x: Seq<char>| !after(x)));
    uids.lemma_all_neg_filter_empty(after);
}

} // verus!
