//! Domains: the registry mapping each project to the domain of its composition
//! address, and the domain concierge, a Farcaster scoped to one domain.

use vstd::prelude::*;
use crate::farcaster::agent::FarcasterAgent;
use crate::pairs::{distinct_keys, lemma_pairs_map, lemma_pairs_map_push, lemma_pairs_map_replace, pairs_map};
use crate::text::{before_char, chars_of, find_char_exec, str_eq, string_from, string_of_range};
use crate::types::{ProjectId, UserId};

verus! {

/// `a` comes before `b` in the order of strings (by characters, a prefix first).
pub open spec fn lex_lt(a: Seq<char>, b: Seq<char>) -> bool
    decreases a.len(),
{
    if a.len() == 0 {
        b.len() > 0
    } else if b.len() == 0 {
        false
    } else if a[0] != b[0] {
        a[0] < b[0]
    } else {
        lex_lt(a.drop_first(), b.drop_first())
    }
}

/// No text comes before itself.
pub proof fn lemma_lex_irreflexive(a: Seq<char>)
    ensures
        !lex_lt(a, a),
    decreases a.len(),
{
    if a.len() > 0 {
        lemma_lex_irreflexive(a.drop_first());
    }
}

/// Of two different texts, one comes before the other.
pub proof fn lemma_lex_total(a: Seq<char>, b: Seq<char>)
    ensures
        a == b || lex_lt(a, b) || lex_lt(b, a),
    decreases a.len(),
{
    if a.len() > 0 && b.len() > 0 && a[0] == b[0] {
        lemma_lex_total(a.drop_first(), b.drop_first());
        if a.drop_first() == b.drop_first() {
            assert(a =~= seq![a[0]] + a.drop_first());
            assert(b =~= seq![b[0]] + b.drop_first());
        }
    } else if a.len() == 0 && b.len() == 0 {
        assert(a =~= b);
    }
}

/// Two texts do not each come before the other.
pub proof fn lemma_lex_asymmetric(a: Seq<char>, b: Seq<char>)
    ensures
        lex_lt(a, b) ==> !lex_lt(b, a),
    decreases a.len(),
{
    if a.len() > 0 && b.len() > 0 && a[0] == b[0] {
        lemma_lex_asymmetric(a.drop_first(), b.drop_first());
    }
}

/// Coming before is transitive.
pub proof fn lemma_lex_transitive(a: Seq<char>, b: Seq<char>, c: Seq<char>)
    requires
        lex_lt(a, b),
        lex_lt(b, c),
    ensures
        lex_lt(a, c),
    decreases a.len(),
{
    if a.len() > 0 && b.len() > 0 && c.len() > 0 {
        if a[0] == b[0] && b[0] == c[0] {
            lemma_lex_transitive(a.drop_first(), b.drop_first(), c.drop_first());
        }
    }
}

/// Compares two strings in the order of [`lex_lt`].
pub fn str_lt(a: &str, b: &str) -> (r: bool)
    ensures
        r == lex_lt(a@, b@),
{
    let x = chars_of(a);
    let y = chars_of(b);
    let mut i: usize = 0;
    assert(x@.skip(0) =~= x@);
    assert(y@.skip(0) =~= y@);
    while i < x.len() && i < y.len() && x[i] == y[i]
        invariant
            i <= x@.len(),
            i <= y@.len(),
            x@.take(i as int) == y@.take(i as int),
            lex_lt(x@, y@) == lex_lt(x@.skip(i as int), y@.skip(i as int)),
        decreases x.len() - i,
    {
        proof {
            assert(x@.skip(i as int).drop_first() =~= x@.skip(i + 1));
            assert(y@.skip(i as int).drop_first() =~= y@.skip(i + 1));
            assert(x@.take(i + 1) =~= x@.take(i as int).push(x@[i as int]));
            assert(y@.take(i + 1) =~= y@.take(i as int).push(y@[i as int]));
        }
        i = i + 1;
    }
    if i == x.len() {
        i < y.len()
    } else if i == y.len() {
        false
    } else {
        x[i] < y[i]
    }
}

/// Strictly increasing in the order of strings.
pub open spec fn strictly_sorted(s: Seq<Seq<char>>) -> bool {
    forall|i: int, j: int| 0 <= i < j < s.len() ==> lex_lt(#[trigger] s[i], #[trigger] s[j])
}

/// Inserts `x` in the sorted `v` unless it is already there.
fn insert_sorted(v: &mut Vec<String>, x: &str)
    requires
        strictly_sorted(old(v)@.map_values(|s: String| s@)),
    ensures
        strictly_sorted(final(v)@.map_values(|s: String| s@)),
        final(v)@.map_values(|s: String| s@).to_set() == old(v)@.map_values(|s: String| s@).to_set().insert(x@),
{
    let ghost before = v@.map_values(|s: String| s@);
    let mut p: usize = 0;
    while p < v.len() && str_lt(v[p].as_str(), x)
        invariant
            p <= v@.len(),
            before == v@.map_values(|s: String| s@),
            forall|k: int| 0 <= k < p ==> lex_lt(#[trigger] before[k], x@),
        decreases v.len() - p,
    {
        p = p + 1;
    }
    if p < v.len() && str_eq(v[p].as_str(), x) {
        assert(before[p as int] == x@);
        assert(before.to_set().insert(x@) =~= before.to_set());
        return;
    }
    proof {
        if p < before.len() {
            lemma_lex_total(before[p as int], x@);
        }
    }
    v.insert(p, string_from(x));
    let ghost after = v@.map_values(|s: String| s@);
    proof {
        assert(after =~= before.insert(p as int, x@));
        assert forall|i: int, j: int| 0 <= i < j < after.len() implies lex_lt(
            #[trigger] after[i],
            #[trigger] after[j],
        ) by {
            if j < p {
            } else if j == p {
                assert(after[i] == before[i]);
            } else if i == p {
                assert(after[j] == before[j - 1]);
                if j - 1 > p {
                    assert(lex_lt(before[p as int], before[j - 1]));
                    lemma_lex_transitive(x@, before[p as int], before[j - 1]);
                }
            } else if i < p {
                assert(after[i] == before[i]);
                assert(after[j] == before[j - 1]);
            } else {
                assert(after[i] == before[i - 1]);
                assert(after[j] == before[j - 1]);
            }
        }
        assert(after.to_set() =~= before.to_set().insert(x@)) by {
            assert forall|y: Seq<char>| after.to_set().contains(y) implies before.to_set().insert(x@).contains(y) by {
                let k = choose|k: int| 0 <= k < after.len() && after[k] == y;
                if k < p {
                    assert(before[k] == y);
                } else if k > p {
                    assert(before[k - 1] == y);
                }
            }
            assert forall|y: Seq<char>| before.to_set().insert(x@).contains(y) implies after.to_set().contains(y) by {
                if y == x@ {
                    assert(after[p as int] == y);
                } else {
                    let k = choose|k: int| 0 <= k < before.len() && before[k] == y;
                    if k < p {
                        assert(after[k] == y);
                    } else {
                        assert(after[k + 1] == y);
                    }
                }
            }
        }
    }
}

/// The domain of a composition address: its first path component
/// (`engineering/api-gateway` is in `engineering`).
pub open spec fn domain_of(address: Seq<char>) -> Seq<char> {
    before_char(address, '/')
}

/// The projects of `entries` whose domain is `domain`, in order.
pub open spec fn domain_members(entries: Seq<(ProjectId, String)>, domain: Seq<char>) -> Seq<Seq<char>>
    decreases entries.len(),
{
    if entries.len() == 0 {
        Seq::empty()
    } else {
        domain_members(entries.drop_last(), domain) + if entries.last().1@ == domain {
            seq![entries.last().0@]
        } else {
            Seq::empty()
        }
    }
}

/// With distinct projects, the members of a domain are distinct, and they are
/// exactly the projects the map puts in that domain.
pub proof fn lemma_domain_members(entries: Seq<(ProjectId, String)>, domain: Seq<char>)
    requires
        distinct_keys(entries),
    ensures
        forall|i: int, j: int|
            0 <= i < j < domain_members(entries, domain).len() ==> domain_members(entries, domain)[i]
                != domain_members(entries, domain)[j],
        forall|p: Seq<char>|
            #[trigger] domain_members(entries, domain).contains(p) <==> (pairs_map(
                entries,
            ).contains_key(p) && pairs_map(entries)[p] == domain),
    decreases entries.len(),
{
    if entries.len() == 0 {
        assert forall|p: Seq<char>| !(#[trigger] domain_members(entries, domain).contains(p)) by {}
    } else {
        let init = entries.drop_last();
        assert forall|i: int, j: int| 0 <= i < j < init.len() implies (#[trigger] init[i]).0@
            != (#[trigger] init[j]).0@ by {
            assert(init[i] == entries[i] && init[j] == entries[j]);
        }
        lemma_domain_members(init, domain);
        lemma_pairs_map(init);
        let last = entries.last();
        let prev = domain_members(init, domain);
        let cur = domain_members(entries, domain);
        assert(pairs_map(entries) == pairs_map(init).insert(last.0@, last.1@));
        assert(!pairs_map(init).contains_key(last.0@)) by {
            if pairs_map(init).contains_key(last.0@) {
                let k = choose|k: int| 0 <= k < init.len() && #[trigger] init[k].0@ == last.0@;
                assert(entries[k].0@ == entries[entries.len() - 1].0@);
            }
        }
        assert(!prev.contains(last.0@));
        if last.1@ == domain {
            assert(cur == prev.push(last.0@));
        } else {
            assert(cur =~= prev);
        }
        assert forall|i: int, j: int| 0 <= i < j < cur.len() implies cur[i] != cur[j] by {
            if j < prev.len() {
                assert(cur[i] == prev[i] && cur[j] == prev[j]);
            } else {
                assert(cur[i] == prev[i]);
                assert(cur[j] == last.0@);
            }
        }
        assert forall|p: Seq<char>| #[trigger] cur.contains(p) <==> (pairs_map(entries).contains_key(p)
            && pairs_map(entries)[p] == domain) by {
            if p == last.0@ {
                if last.1@ == domain {
                    assert(cur[prev.len() as int] == p);
                }
            } else {
                if prev.contains(p) {
                    let k = choose|k: int| 0 <= k < prev.len() && prev[k] == p;
                    assert(cur[k] == p);
                }
                if cur.contains(p) {
                    let k = choose|k: int| 0 <= k < cur.len() && cur[k] == p;
                    if k < prev.len() {
                        assert(prev[k] == p);
                    }
                }
                assert(prev.contains(p) == (pairs_map(init).contains_key(p) && pairs_map(init)[p] == domain));
            }
        }
    }
}

/// Maps each project to its domain.
pub struct DomainRegistry {
    project_to_domain: Vec<(ProjectId, String)>,
}

impl View for DomainRegistry {
    type V = Map<Seq<char>, Seq<char>>;

    closed spec fn view(&self) -> Map<Seq<char>, Seq<char>> {
        pairs_map(self.project_to_domain@)
    }
}

impl DomainRegistry {
    /// The registered pairs, in registration order.
    pub closed spec fn entries(&self) -> Seq<(ProjectId, String)> {
        self.project_to_domain@
    }

    /// Projects occur once.
    pub closed spec fn wf(&self) -> bool {
        distinct_keys(self.project_to_domain@)
    }

    /// A registry of the project → domain pairs `project_to_domain`; for a
    /// project listed twice, the later domain is kept.
    pub fn new(project_to_domain: Vec<(ProjectId, String)>) -> (r: Self)
        ensures
            r.wf(),
            r@ == pairs_map(project_to_domain@),
    {
        let mut reg = DomainRegistry { project_to_domain: Vec::new() };
        let mut i: usize = 0;
        let ghost src = project_to_domain@;
        assert(src.take(0) =~= Seq::<(ProjectId, String)>::empty());
        while i < project_to_domain.len()
            invariant
                i <= src.len(),
                src == project_to_domain@,
                reg.wf(),
                reg@ == pairs_map(src.take(i as int)),
            decreases project_to_domain.len() - i,
        {
            let (p, d) = &project_to_domain[i];
            reg.set(p.duplicate(), string_from(d.as_str()));
            assert(src.take(i + 1).drop_last() =~= src.take(i as int));
            i = i + 1;
        }
        assert(src.take(src.len() as int) =~= src);
        reg
    }

    /// A registry from project → composition address pairs: each project is in the
    /// domain of its address (see [`domain_of`]).
    pub fn from_composition_addresses(addresses: Vec<(ProjectId, String)>) -> (r: Self)
        ensures
            r.wf(),
            r@ == pairs_map(addresses@).map_values(|a: Seq<char>| domain_of(a)),
    {
        let mut reg = DomainRegistry { project_to_domain: Vec::new() };
        let mut i: usize = 0;
        let ghost src = addresses@;
        assert(src.take(0) =~= Seq::<(ProjectId, String)>::empty());
        assert(pairs_map(src.take(0)).map_values(|a: Seq<char>| domain_of(a)) =~= Map::<Seq<char>, Seq<char>>::empty());
        while i < addresses.len()
            invariant
                i <= src.len(),
                src == addresses@,
                reg.wf(),
                reg@ == pairs_map(src.take(i as int)).map_values(|a: Seq<char>| domain_of(a)),
            decreases addresses.len() - i,
        {
            let (p, a) = &addresses[i];
            let v = chars_of(a.as_str());
            let end = match find_char_exec(&v, 0, v.len(), '/') {
                Some(k) => k,
                None => v.len(),
            };
            proof {
                assert(v@.subrange(0, v.len() as int) =~= v@);
                assert(v@.subrange(0, end as int) =~= domain_of(a@));
            }
            reg.set(p.duplicate(), string_of_range(&v, 0, end));
            assert(src.take(i + 1).drop_last() =~= src.take(i as int));
            assert(pairs_map(src.take(i + 1)).map_values(|a: Seq<char>| domain_of(a)) =~= pairs_map(
                src.take(i as int),
            ).map_values(|a: Seq<char>| domain_of(a)).insert(p@, domain_of(a@)));
            i = i + 1;
        }
        assert(src.take(src.len() as int) =~= src);
        reg
    }

    fn set(&mut self, key: ProjectId, value: String)
        requires
            old(self).wf(),
        ensures
            final(self).wf(),
            final(self)@ == old(self)@.insert(key@, value@),
    {
        let ghost before = self.project_to_domain@;
        let mut i: usize = 0;
        while i < self.project_to_domain.len()
            invariant
                i <= self.project_to_domain@.len(),
                self.project_to_domain@ == before,
                before == old(self).project_to_domain@,
                distinct_keys(before),
                forall|j: int| 0 <= j < i ==> (#[trigger] self.project_to_domain@[j]).0@ != key@,
            decreases self.project_to_domain.len() - i,
        {
            if self.project_to_domain[i].0.same(&key) {
                let ghost e = (key, value);
                proof {
                    lemma_pairs_map_replace(before, i as int, e);
                }
                self.project_to_domain.set(i, (key, value));
                assert(self.project_to_domain@ =~= before.update(i as int, e));
                return;
            }
            i = i + 1;
        }
        proof {
            lemma_pairs_map_push(before, (key, value));
        }
        self.project_to_domain.push((key, value));
    }

    /// The domain of `project`, if registered.
    pub fn domain_for(&self, project: &ProjectId) -> (r: Option<&str>)
        requires
            self.wf(),
        ensures
            match r {
                Some(d) => self@.contains_key(project@) && d@ == self@[project@],
                None => !self@.contains_key(project@),
            },
    {
        proof {
            lemma_pairs_map(self.project_to_domain@);
        }
        let mut i: usize = 0;
        while i < self.project_to_domain.len()
            invariant
                self.wf(),
                i <= self.project_to_domain@.len(),
                forall|j: int| 0 <= j < i ==> (#[trigger] self.project_to_domain@[j]).0@ != project@,
            decreases self.project_to_domain.len() - i,
        {
            if self.project_to_domain[i].0.same(project) {
                proof {
                    lemma_pairs_map(self.project_to_domain@);
                }
                return Some(self.project_to_domain[i].1.as_str());
            }
            i = i + 1;
        }
        proof {
            lemma_pairs_map(self.project_to_domain@);
        }
        None
    }

    /// The projects of `domain`, each once, in registration order.
    pub fn projects_in_domain(&self, domain: &str) -> (v: Vec<ProjectId>)
        requires
            self.wf(),
        ensures
            v@.map_values(|p: ProjectId| p@) == domain_members(self.entries(), domain@),
            forall|i: int, j: int| 0 <= i < j < v@.len() ==> (#[trigger] v@[i])@ != (#[trigger] v@[j])@,
            forall|p: Seq<char>|
                #[trigger] domain_members(self.entries(), domain@).contains(p) <==> (
                self@.contains_key(p) && self@[p] == domain@),
    {
        let mut v: Vec<ProjectId> = Vec::new();
        let mut i: usize = 0;
        let ghost es = self.project_to_domain@;
        assert(es.take(0) =~= Seq::<(ProjectId, String)>::empty());
        assert(v@.map_values(|p: ProjectId| p@) =~= Seq::<Seq<char>>::empty());
        while i < self.project_to_domain.len()
            invariant
                i <= es.len(),
                es == self.project_to_domain@,
                v@.map_values(|p: ProjectId| p@) == domain_members(es.take(i as int), domain@),
            decreases self.project_to_domain.len() - i,
        {
            assert(es.take(i + 1).drop_last() =~= es.take(i as int));
            let ghost before = v@.map_values(|p: ProjectId| p@);
            if str_eq(self.project_to_domain[i].1.as_str(), domain) {
                v.push(self.project_to_domain[i].0.duplicate());
                assert(v@.map_values(|p: ProjectId| p@) =~= before.push(es[i as int].0@));
            }
            i = i + 1;
        }
        assert(es.take(es.len() as int) =~= es);
        proof {
            lemma_domain_members(es, domain@);
            lemma_pairs_map(es);
            assert forall|a: int, b: int| 0 <= a < b < v@.len() implies (#[trigger] v@[a])@ != (#[trigger] v@[b])@ by {
                assert(v@.map_values(|p: ProjectId| p@)[a] == v@[a]@);
                assert(v@.map_values(|p: ProjectId| p@)[b] == v@[b]@);
            }
        }
        v
    }

    /// Every domain of the registry, once each, in the order of strings.
    pub fn all_domains(&self) -> (v: Vec<String>)
        requires
            self.wf(),
        ensures
            strictly_sorted(v@.map_values(|s: String| s@)),
            v@.map_values(|s: String| s@).to_set() == self@.values(),
    {
        proof {
            lemma_pairs_map(self.project_to_domain@);
        }
        let mut v: Vec<String> = Vec::new();
        let mut i: usize = 0;
        let ghost vals = self.project_to_domain@.map_values(|e: (ProjectId, String)| e.1@);
        assert(v@.map_values(|s: String| s@).to_set() =~= vals.take(0).to_set());
        while i < self.project_to_domain.len()
            invariant
                i <= self.project_to_domain@.len(),
                vals == self.project_to_domain@.map_values(|e: (ProjectId, String)| e.1@),
                strictly_sorted(v@.map_values(|s: String| s@)),
                v@.map_values(|s: String| s@).to_set() == vals.take(i as int).to_set(),
            decreases self.project_to_domain.len() - i,
        {
            insert_sorted(&mut v, self.project_to_domain[i].1.as_str());
            assert(vals.take(i + 1) =~= vals.take(i as int).push(vals[i as int]));
            proof {
                vals.take(i as int).lemma_push_to_set_commute(vals[i as int]);
            }
            i = i + 1;
        }
        proof {
            assert(vals.take(vals.len() as int) =~= vals);
            assert(vals.to_set() =~= self@.values()) by {
                assert forall|d: Seq<char>| vals.to_set().contains(d) implies self@.values().contains(d) by {
                    let k = choose|k: int| 0 <= k < vals.len() && vals[k] == d;
                    let key = self.project_to_domain@[k].0@;
                    assert(self@.contains_key(key) && self@[key] == d);
                }
                assert forall|d: Seq<char>| self@.values().contains(d) implies vals.to_set().contains(d) by {
                    let key = choose|key: Seq<char>| self@.contains_key(key) && self@[key] == d;
                    let j = choose|j: int| 0 <= j < self.project_to_domain@.len() && #[trigger] self.project_to_domain@[j].0@ == key;
                    assert(vals[j] == d);
                }
            }
        }
        v
    }
}

/// A Farcaster scoped to the projects of one domain, reporting to the
/// cross-domain Farcaster.
pub struct DomainConcierge {
    pub domain: String,
    pub farcaster: FarcasterAgent,
}

impl DomainConcierge {
    /// The concierge of `domain`, following its `projects`, whose agents are
    /// `project_agent_ids`, started at `now_ms`.
    pub fn new(
        domain: String,
        projects: Vec<ProjectId>,
        project_agent_ids: Vec<(String, UserId)>,
        now_ms: i64,
    ) -> (c: Self)
        ensures
            c.domain@ == domain@,
            c.farcaster.wf(),
            c.farcaster.domain matches Some(d) && d@ == domain@,
            c.farcaster.projects == projects,
            c.farcaster.project_agent_ids == project_agent_ids,
            c.farcaster.event_buffer@.len() == 0,
            c.farcaster.digest_buffer@.len() == 0,
    {
        let farcaster = FarcasterAgent::new(projects, project_agent_ids, now_ms).with_domain(
            string_from(domain.as_str()),
        );
        DomainConcierge { domain, farcaster }
    }

    /// The concierge's name: its domain.
    pub fn name(&self) -> (s: &str)
        ensures
            s@ == self.domain@,
    {
        self.domain.as_str()
    }
}

} // verus!
