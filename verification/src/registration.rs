//! The Matrix appservice registration file.
//!
//! The homeserver loads the appservice registration from a YAML file; this module
//! is the single source of truth for its contents. The user namespace covers the
//! appservice's own sender, its specialist virtual users (`@<sender>-<project>`),
//! and any component agent that speaks as its own Matrix identity.

use vstd::prelude::*;
use crate::text::{push_char, push_str};

verus! {

/// The eight component agents of the stack. Each needs its own exclusive entry in
/// the appservice user namespace to speak as itself in its room.
pub const COMPONENT_AGENT_LOCALPARTS: [&'static str; 8] = [
    "guilhem",
    "gardian",
    "fondament",
    "farga",
    "amassada",
    "cor",
    "caissa",
    "nervi",
];

/// Inputs for [`generate_registration`].
pub struct RegistrationParams {
    /// Appservice id (`id:` field).
    pub id: String,
    /// URL the homeserver posts transactions to (`url:` field).
    pub url: String,
    /// Appservice token.
    pub as_token: String,
    /// Homeserver token sent back on inbound requests.
    pub hs_token: String,
    /// Localpart of the appservice's own sender user.
    pub sender_localpart: String,
    /// Matrix server name, used to anchor the regexes.
    pub server_name: String,
    /// Component agent localparts to grant their own identity.
    pub component_localparts: Vec<String>,
}

/// `s` with every `.` escaped as `\.`, so that a regex matches it literally.
pub open spec fn escape_dots(s: Seq<char>) -> Seq<char>
    decreases s.len(),
{
    if s.len() == 0 {
        Seq::empty()
    } else if s.last() == '.' {
        escape_dots(s.drop_last()) + seq!['\\', '.']
    } else {
        escape_dots(s.drop_last()).push(s.last())
    }
}

/// The user-namespace regexes, in order: the sender itself, the sender's
/// specialist users, then each component agent.
pub open spec fn namespace_regexes(sender: Seq<char>, server: Seq<char>, components: Seq<
    Seq<char>,
>) -> Seq<Seq<char>> {
    seq!["@"@ + sender + ":"@ + escape_dots(server), "@"@ + sender + "-.*"@] + components.map_values(
        |lp: Seq<char>| "@"@ + lp + ":"@ + escape_dots(server),
    )
}

/// The YAML entries of the user namespace for `regexes`.
pub open spec fn users_yaml(regexes: Seq<Seq<char>>) -> Seq<char>
    decreases regexes.len(),
{
    if regexes.len() == 0 {
        Seq::empty()
    } else {
        users_yaml(regexes.drop_last()) + "    - exclusive: true\n"@ + "      regex: '"@
            + regexes.last() + "'\n"@
    }
}

/// The registration YAML for `p`.
pub open spec fn registration_yaml(p: RegistrationParams) -> Seq<char> {
    "id: "@ + p.id@ + "\n"@ + "url: "@ + p.url@ + "\n"@ + "as_token: "@ + p.as_token@ + "\n"@
        + "hs_token: "@ + p.hs_token@ + "\n"@ + "sender_localpart: "@ + p.sender_localpart@
        + "\n"@ + "namespaces:\n"@ + "  users:\n"@ + users_yaml(
        namespace_regexes(
            p.sender_localpart@,
            p.server_name@,
            p.component_localparts@.map_values(|s: String| s@),
        ),
    ) + "  rooms: []\n"@ + "  aliases: []\n"@
}

fn escape_dots_exec(s: &str) -> (r: String)
    ensures
        r@ == escape_dots(s@),
{
    let v = crate::text::chars_of(s);
    let mut out = String::new();
    let mut i: usize = 0;
    assert(v@.take(0) =~= Seq::<char>::empty());
    while i < v.len()
        invariant
            i <= v@.len(),
            out@ == escape_dots(v@.take(i as int)),
        decreases v.len() - i,
    {
        assert(v@.take(i + 1).drop_last() =~= v@.take(i as int));
        if v[i] == '.' {
            push_char(&mut out, '\\');
            push_char(&mut out, '.');
            assert(out@ =~= escape_dots(v@.take(i + 1)));
        } else {
            push_char(&mut out, v[i]);
        }
        i = i + 1;
    }
    assert(v@.take(v@.len() as int) =~= v@);
    out
}

fn push_user_entry(out: &mut String, regex: &String, Ghost(done): Ghost<Seq<Seq<char>>>)
    requires
        old(out)@ == users_yaml(done),
    ensures
        final(out)@ == users_yaml(done.push(regex@)),
{
    push_str(out, "    - exclusive: true\n");
    push_str(out, "      regex: '");
    push_str(out, regex.as_str());
    push_str(out, "'\n");
    assert(done.push(regex@).drop_last() =~= done);
    assert(out@ =~= users_yaml(done.push(regex@)));
}

/// Renders the appservice registration YAML for `p`.
///
/// Each user-namespace regex is exclusive; the server name's dots are escaped so
/// that it matches literally.
pub fn generate_registration(p: &RegistrationParams) -> (yaml: String)
    ensures
        yaml@ == registration_yaml(*p),
{
    let server = escape_dots_exec(p.server_name.as_str());
    let mut regexes: Vec<String> = Vec::new();
    let mut r0 = String::new();
    push_str(&mut r0, "@");
    push_str(&mut r0, p.sender_localpart.as_str());
    push_str(&mut r0, ":");
    push_str(&mut r0, server.as_str());
    regexes.push(r0);
    let mut r1 = String::new();
    push_str(&mut r1, "@");
    push_str(&mut r1, p.sender_localpart.as_str());
    push_str(&mut r1, "-.*");
    regexes.push(r1);
    let ghost comps = p.component_localparts@.map_values(|s: String| s@);
    let ghost expected = namespace_regexes(p.sender_localpart@, p.server_name@, comps);
    let mut k: usize = 0;
    while k < p.component_localparts.len()
        invariant
            server@ == escape_dots(p.server_name@),
            comps == p.component_localparts@.map_values(|s: String| s@),
            expected == namespace_regexes(p.sender_localpart@, p.server_name@, comps),
            k <= p.component_localparts.len(),
            regexes@.len() == k + 2,
            forall|m: int| 0 <= m < k + 2 ==> (#[trigger] regexes@[m])@ == expected[m],
        decreases p.component_localparts.len() - k,
    {
        let mut r = String::new();
        push_str(&mut r, "@");
        push_str(&mut r, p.component_localparts[k].as_str());
        push_str(&mut r, ":");
        push_str(&mut r, server.as_str());
        regexes.push(r);
        proof {
            assert(expected[k + 2] == "@"@ + comps[k as int] + ":"@ + escape_dots(p.server_name@));
            assert(regexes@[k + 2]@ =~= expected[k + 2]);
        }
        k = k + 1;
    }
    assert(regexes@.map_values(|r: String| r@) =~= expected);
    let mut out = String::new();
    push_str(&mut out, "id: ");
    push_str(&mut out, p.id.as_str());
    push_str(&mut out, "\n");
    push_str(&mut out, "url: ");
    push_str(&mut out, p.url.as_str());
    push_str(&mut out, "\n");
    push_str(&mut out, "as_token: ");
    push_str(&mut out, p.as_token.as_str());
    push_str(&mut out, "\n");
    push_str(&mut out, "hs_token: ");
    push_str(&mut out, p.hs_token.as_str());
    push_str(&mut out, "\n");
    push_str(&mut out, "sender_localpart: ");
    push_str(&mut out, p.sender_localpart.as_str());
    push_str(&mut out, "\n");
    push_str(&mut out, "namespaces:\n");
    push_str(&mut out, "  users:\n");
    let ghost head = out@;
    let mut users = String::new();
    let mut j: usize = 0;
    assert(expected.take(0) =~= Seq::<Seq<char>>::empty());
    while j < regexes.len()
        invariant
            j <= regexes@.len(),
            regexes@.map_values(|r: String| r@) == expected,
            users@ == users_yaml(expected.take(j as int)),
        decreases regexes.len() - j,
    {
        assert(expected[j as int] == regexes@[j as int]@);
        push_user_entry(&mut users, &regexes[j], Ghost(expected.take(j as int)));
        assert(expected.take(j as int).push(expected[j as int]) =~= expected.take(j + 1));
        j = j + 1;
    }
    assert(expected.take(regexes@.len() as int) =~= expected);
    push_str(&mut out, users.as_str());
    push_str(&mut out, "  rooms: []\n");
    push_str(&mut out, "  aliases: []\n");
    assert(out@ =~= registration_yaml(*p));
    out
}

/// Every dot of an escaped server name is escaped: each `.` in
/// `escape_dots(s)` comes right after a `\\`, so the regex matches the name
/// literally.
pub proof fn law_escaped_dots(s: Seq<char>)
    ensures
        forall|i: int|
            0 <= i < escape_dots(s).len() && #[trigger] escape_dots(s)[i] == '.' ==> i > 0
                && escape_dots(s)[i - 1] == '\\',
    decreases s.len(),
{
    if s.len() > 0 {
        law_escaped_dots(s.drop_last());
        let e = escape_dots(s.drop_last());
        assert forall|i: int| 0 <= i < escape_dots(s).len() && #[trigger] escape_dots(s)[i] == '.' implies i > 0
            && escape_dots(s)[i - 1] == '\\' by {
            if i < e.len() {
                assert(escape_dots(s)[i] == e[i]);
                assert(escape_dots(s)[i - 1] == e[i - 1]);
            }
        }
    }
}

/// The YAML entry of one namespace regex.
pub open spec fn user_entry(regex: Seq<char>) -> Seq<char> {
    "    - exclusive: true\n"@ + "      regex: '"@ + regex + "'\n"@
}

proof fn lemma_users_yaml_holds(regexes: Seq<Seq<char>>, k: int) -> (at: int)
    requires
        0 <= k < regexes.len(),
    ensures
        crate::text::matches_at(users_yaml(regexes), user_entry(regexes[k]), at),
    decreases regexes.len(),
{
    let y = users_yaml(regexes);
    let prev = users_yaml(regexes.drop_last());
    assert(y =~= prev + user_entry(regexes.last()));
    if k == regexes.len() - 1 {
        let at = prev.len() as int;
        assert(y.subrange(at, at + user_entry(regexes[k]).len()) =~= user_entry(regexes[k]));
        at
    } else {
        let at = lemma_users_yaml_holds(regexes.drop_last(), k);
        assert(regexes.drop_last()[k] == regexes[k]);
        let n = user_entry(regexes[k]).len();
        assert(y.subrange(at, at + n) =~= prev.subrange(at, at + n));
        at
    }
}

/// The registration claims every component agent it is given: for each, its
/// YAML holds an exclusive entry whose regex is the agent's id on the server,
/// with the server's dots escaped.
pub proof fn law_registration_claims_components(p: RegistrationParams, k: int)
    requires
        0 <= k < p.component_localparts@.len(),
    ensures
        crate::text::contains(
            registration_yaml(p),
            user_entry("@"@ + p.component_localparts@[k]@ + ":"@ + escape_dots(p.server_name@)),
        ),
{
    let comps = p.component_localparts@.map_values(|s: String| s@);
    let regexes = namespace_regexes(p.sender_localpart@, p.server_name@, comps);
    assert(regexes[k + 2] == "@"@ + p.component_localparts@[k]@ + ":"@ + escape_dots(p.server_name@));
    let at = lemma_users_yaml_holds(regexes, k + 2);
    let head = "id: "@ + p.id@ + "\n"@ + "url: "@ + p.url@ + "\n"@ + "as_token: "@ + p.as_token@ + "\n"@
        + "hs_token: "@ + p.hs_token@ + "\n"@ + "sender_localpart: "@ + p.sender_localpart@
        + "\n"@ + "namespaces:\n"@ + "  users:\n"@;
    let y = registration_yaml(p);
    let u = users_yaml(regexes);
    let entry = user_entry(regexes[k + 2]);
    assert(y =~= head + u + ("  rooms: []\n"@ + "  aliases: []\n"@));
    let pos = head.len() + at;
    assert(y.subrange(pos, pos + entry.len()) =~= u.subrange(at, at + entry.len()));
    assert(crate::text::matches_at(y, entry, pos));
    crate::text::lemma_find_from_result(y, entry, 0);
    assert(crate::text::find(y, entry) is Some);
}

} // verus!
