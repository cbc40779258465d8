//! The registry of direct-message rooms between the org agent and each component agent.
//!
//! It maps a component agent's *localpart* to the Matrix room id of its DM, e.g.
//! `farga -> !abc:occitane.guilhem`. A lookup accepts either the bare localpart or
//! the full Matrix id (`@farga:occitane.guilhem`).

use vstd::prelude::*;
use crate::pairs::{lemma_pairs_map, pairs_map};
use crate::text::{chars_of, find, find_char_exec, string_of_range};

verus! {

/// Env var naming the DM registry file path.
pub const DM_REGISTRY_ENV: &'static str = "CHARRADISSA_DM_REGISTRY";

/// Default registry file path used when [`DM_REGISTRY_ENV`] is unset.
pub const DEFAULT_DM_REGISTRY_PATH: &'static str = "charradissa-dm-registry.json";

/// The localpart key of an agent identity: without a leading `@` and without any
/// `:server` suffix.
pub open spec fn agent_key(agent: Seq<char>) -> Seq<char> {
    let a = if agent.len() > 0 && agent[0] == '@' {
        agent.drop_first()
    } else {
        agent
    };
    match find(a, seq![':']) {
        Some(i) => a.take(i),
        None => a,
    }
}

/// Normalizes an agent identity to its localpart key: `@farga:occitane.guilhem`
/// and `farga` both give `farga`.
pub fn normalize_agent(agent: &str) -> (r: String)
    ensures
        r@ == agent_key(agent@),
{
    let v = chars_of(agent);
    let lo: usize = if v.len() > 0 && v[0] == '@' {
        1
    } else {
        0
    };
    let ghost a = if agent@.len() > 0 && agent@[0] == '@' {
        agent@.drop_first()
    } else {
        agent@
    };
    assert(v@.subrange(lo as int, v.len() as int) =~= a);
    match find_char_exec(&v, lo, v.len(), ':') {
        Some(i) => {
            assert(a.take(i as int) =~= v@.subrange(lo as int, lo + i));
            string_of_range(&v, lo, lo + i)
        },
        None => string_of_range(&v, lo, v.len()),
    }
}

/// Registry of DM room ids between the org agent and each component agent, keyed by localpart.
pub struct DmRegistry {
    rooms: Vec<(String, String)>,
}

impl View for DmRegistry {
    type V = Map<Seq<char>, Seq<char>>;

    closed spec fn view(&self) -> Map<Seq<char>, Seq<char>> {
        pairs_map(self.rooms@)
    }
}

impl DmRegistry {
    /// Keys occur at most once.
    pub closed spec fn wf(&self) -> bool {
        crate::pairs::distinct_keys(self.rooms@)
    }

    proof fn lemma_view_len(&self)
        requires
            self.wf(),
        ensures
            self@.dom().finite(),
            self@.dom().len() == self.rooms@.len(),
            forall|i: int|
                0 <= i < self.rooms@.len() ==> self@.contains_key(#[trigger] self.rooms@[i].0@)
                    && self@[self.rooms@[i].0@] == self.rooms@[i].1@,
            forall|k: Seq<char>|
                self@.contains_key(k) ==> exists|i: int|
                    0 <= i < self.rooms@.len() && #[trigger] self.rooms@[i].0@ == k,
    {
        lemma_pairs_map(self.rooms@);
    }

    /// An empty registry.
    pub fn empty() -> (r: Self)
        ensures
            r.wf(),
            r@ == Map::<Seq<char>, Seq<char>>::empty(),
    {
        DmRegistry { rooms: Vec::new() }
    }

    /// A registry of the localpart → room id pairs `rooms`; for a localpart listed
    /// twice, the later room id is the one kept.
    pub fn from_map(rooms: Vec<(String, String)>) -> (r: Self)
        ensures
            r.wf(),
            r@ == pairs_map(rooms@),
    {
        let mut reg = DmRegistry::empty();
        let mut i: usize = 0;
        let ghost src = rooms@;
        assert(src.take(0) =~= Seq::<(String, String)>::empty());
        while i < rooms.len()
            invariant
                i <= rooms@.len(),
                src == rooms@,
                reg.wf(),
                reg@ == pairs_map(src.take(i as int)),
            decreases rooms.len() - i,
        {
            let (k, v) = &rooms[i];
            reg.set(string_from_ref(k), string_from_ref(v));
            assert(src.take(i + 1).drop_last() =~= src.take(i as int));
            i = i + 1;
        }
        assert(src.take(rooms@.len() as int) =~= src);
        reg
    }

    fn set(&mut self, key: String, value: String)
        requires
            old(self).wf(),
        ensures
            final(self).wf(),
            final(self)@ == old(self)@.insert(key@, value@),
    {
        let ghost before = self.rooms@;
        let mut i: usize = 0;
        while i < self.rooms.len()
            invariant
                i <= self.rooms@.len(),
                self.rooms@ == before,
                before == old(self).rooms@,
                crate::pairs::distinct_keys(before),
                forall|j: int| 0 <= j < i ==> (#[trigger] self.rooms@[j]).0@ != key@,
            decreases self.rooms.len() - i,
        {
            if self.rooms[i].0 == key {
                let ghost e = (key, value);
                proof {
                    crate::pairs::lemma_pairs_map_replace(before, i as int, e);
                }
                self.rooms.set(i, (key, value));
                assert(self.rooms@ =~= before.update(i as int, e));
                return;
            }
            i = i + 1;
        }
        proof {
            crate::pairs::lemma_pairs_map_push(before, (key, value));
        }
        self.rooms.push((key, value));
    }

    /// The DM room id for an agent identity, given as a bare localpart (`farga`) or
    /// a full Matrix id (`@farga:occitane.guilhem`).
    pub fn resolve(&self, agent: &str) -> (r: Option<&str>)
        requires
            self.wf(),
        ensures
            match r {
                Some(room) => self@.contains_key(agent_key(agent@)) && room@ == self@[agent_key(
                    agent@,
                )],
                None => !self@.contains_key(agent_key(agent@)),
            },
    {
        let key = normalize_agent(agent);
        let mut i: usize = 0;
        while i < self.rooms.len()
            invariant
                self.wf(),
                i <= self.rooms@.len(),
                key@ == agent_key(agent@),
                forall|j: int| 0 <= j < i ==> (#[trigger] self.rooms@[j]).0@ != key@,
            decreases self.rooms.len() - i,
        {
            if self.rooms[i].0 == key {
                proof {
                    self.lemma_view_len();
                }
                return Some(self.rooms[i].1.as_str());
            }
            i = i + 1;
        }
        proof {
            self.lemma_view_len();
        }
        None
    }

    /// Number of registered agents.
    pub fn len(&self) -> (n: usize)
        requires
            self.wf(),
        ensures
            n == self@.dom().len(),
    {
        proof {
            self.lemma_view_len();
        }
        self.rooms.len()
    }

    /// Whether no agent is registered.
    pub fn is_empty(&self) -> (b: bool)
        requires
            self.wf(),
        ensures
            b == (self@.dom().len() == 0),
    {
        proof {
            self.lemma_view_len();
        }
        self.rooms.len() == 0
    }
}

fn string_from_ref(s: &String) -> (r: String)
    ensures
        r@ == s@,
{
    crate::text::string_from(s.as_str())
}

/// An agent named by its full Matrix id resolves to the same DM room as its
/// bare localpart: for a localpart `lp` (no `:`, not starting with `@`) on any
/// server, `@lp:server` and `lp` both have the key `lp`.
pub proof fn law_mxid_resolves_as_localpart(lp: Seq<char>, server: Seq<char>)
    requires
        forall|j: int| 0 <= j < lp.len() ==> lp[j] != ':',
        lp.len() > 0 ==> lp[0] != '@',
    ensures
        agent_key("@"@ + lp + ":"@ + server) == lp,
        agent_key(lp) == lp,
{
    reveal_strlit("@");
    reveal_strlit(":");
    let full = "@"@ + lp + ":"@ + server;
    let a = full.drop_first();
    assert(a =~= lp + ":"@ + server);
    crate::text::lemma_find_char(a, ':', lp.len() as int);
    assert(a.take(lp.len() as int) =~= lp);
    crate::text::lemma_find_char(lp, ':', lp.len() as int);
}

} // verus!
