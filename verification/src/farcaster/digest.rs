//! What both Farcasters share: the digest as posted in a room, the ring buffers
//! of recent observations, reading the analyzer's answers, and gathering the
//! projects and times of a batch of entries.

use vstd::prelude::*;
use crate::farcaster::analyzer::DigestSynthesis;
use crate::farcaster::concurrence::Urgency;
use crate::text::{chars_of, find, find_exec, lemma_find_from_result, push_str, str_eq, string_from, string_of_range, trim, trim_bounds};
use crate::types::ProjectId;
use crate::pairs::{find_key, last_key_index, lemma_last_key_index};

verus! {

/// Lines `- item\n`, one per item.
pub open spec fn bullets(items: Seq<String>) -> Seq<char>
    decreases items.len(),
{
    if items.len() == 0 {
        Seq::empty()
    } else {
        bullets(items.drop_last()) + "- "@ + items.last()@ + "\n"@
    }
}

/// A titled section of bullets, then a blank line when `blank_after`; nothing
/// for no items.
pub open spec fn section(title: Seq<char>, items: Seq<String>, blank_after: bool) -> Seq<char> {
    if items.len() == 0 {
        Seq::empty()
    } else {
        title + bullets(items) + if blank_after {
            "\n"@
        } else {
            Seq::empty()
        }
    }
}

/// Which Farcaster a digest comes from.
#[derive(Debug, Clone, Copy, PartialEq, Eq, Structural)]
pub enum DigestScope {
    /// The project-level Farcaster.
    CrossSpace,
    /// The cross-domain Farcaster.
    CrossDomain,
}

/// A synthesis as posted in the Farcaster's room: a heading, then the
/// connections, the lessons and the open questions, each section only when it
/// has items.
pub open spec fn digest_text(s: DigestSynthesis, scope: DigestScope) -> Seq<char> {
    if scope == DigestScope::CrossSpace {
        "## Farcaster Digest\n\n"@ + section("### Cross-Space Connections\n"@, s.connections@, true)
            + section("### Lessons\n"@, s.lessons@, true) + section(
            "### Open Questions\n"@,
            s.open_questions@,
            false,
        )
    } else {
        "## Cross-Domain Digest\n\n"@ + section(
            "### Cross-Domain Connections\n"@,
            s.connections@,
            true,
        ) + section("### Organizational Lessons\n"@, s.lessons@, true) + section(
            "### Open Questions\n"@,
            s.open_questions@,
            false,
        )
    }
}

fn push_section(out: &mut String, title: &str, items: &Vec<String>, blank_after: bool)
    ensures
        final(out)@ == old(out)@ + section(title@, items@, blank_after),
{
    if items.len() == 0 {
        assert(old(out)@ + section(title@, items@, blank_after) =~= old(out)@);
        return;
    }
    let ghost start = out@;
    push_str(out, title);
    let mut i: usize = 0;
    assert(items@.take(0) =~= Seq::<String>::empty());
    while i < items.len()
        invariant
            i <= items@.len(),
            out@ == start + title@ + bullets(items@.take(i as int)),
        decreases items.len() - i,
    {
        push_str(out, "- ");
        push_str(out, items[i].as_str());
        push_str(out, "\n");
        assert(items@.take(i + 1).drop_last() =~= items@.take(i as int));
        i = i + 1;
    }
    assert(items@.take(items@.len() as int) =~= items@);
    if blank_after {
        push_str(out, "\n");
    }
}

/// A synthesis as posted in the Farcaster's room (see [`digest_text`]).
pub fn format_digest(synthesis: &DigestSynthesis, scope: DigestScope) -> (out: String)
    ensures
        out@ == digest_text(*synthesis, scope),
{
    let mut out = String::new();
    if scope == DigestScope::CrossSpace {
        push_str(&mut out, "## Farcaster Digest\n\n");
        push_section(&mut out, "### Cross-Space Connections\n", &synthesis.connections, true);
        push_section(&mut out, "### Lessons\n", &synthesis.lessons, true);
    } else {
        push_str(&mut out, "## Cross-Domain Digest\n\n");
        push_section(&mut out, "### Cross-Domain Connections\n", &synthesis.connections, true);
        push_section(&mut out, "### Organizational Lessons\n", &synthesis.lessons, true);
    }
    push_section(&mut out, "### Open Questions\n", &synthesis.open_questions, false);
    out
}

/// `ring` with `x` appended, its oldest item dropped first when it already holds
/// `cap` items.
pub open spec fn push_capped<T>(ring: Seq<T>, x: T, cap: nat) -> Seq<T> {
    if ring.len() >= cap {
        ring.drop_first().push(x)
    } else {
        ring.push(x)
    }
}

/// Appends `x` to a ring buffer of at most `cap` items.
pub fn push_ring<T>(ring: &mut Vec<T>, x: T, cap: usize)
    requires
        cap > 0,
        old(ring)@.len() <= cap,
    ensures
        final(ring)@ == push_capped(old(ring)@, x, cap as nat),
        final(ring)@.len() <= cap,
{
    if ring.len() >= cap {
        ring.remove(0);
    }
    ring.push(x);
}

/// A ring of capacity `cap` fed `xs` in order, from empty.
pub open spec fn fed<T>(xs: Seq<T>, cap: nat) -> Seq<T>
    decreases xs.len(),
{
    if xs.len() == 0 {
        Seq::empty()
    } else {
        push_capped(fed(xs.drop_last(), cap), xs.last(), cap)
    }
}

/// A ring buffer holds the latest items it was fed, at most `cap` of them, in
/// the order they came: fed `xs` from empty, it holds the last
/// `min(|xs|, cap)` items of `xs`.
pub proof fn law_ring_keeps_latest<T>(xs: Seq<T>, cap: nat)
    requires
        cap > 0,
    ensures
        fed(xs, cap) == xs.skip(
            if xs.len() > cap {
                xs.len() - cap
            } else {
                0
            },
        ),
        fed(xs, cap).len() <= cap,
    decreases xs.len(),
{
    if xs.len() > 0 {
        let d = xs.drop_last();
        law_ring_keeps_latest(d, cap);
        if d.len() >= cap {
            assert(fed(d, cap).drop_first().push(xs.last()) =~= xs.skip(xs.len() - cap));
        } else {
            assert(d.skip(0) =~= d);
            assert(d.push(xs.last()) =~= xs);
            assert(xs.skip(0) =~= xs);
        }
    } else {
        assert(xs.skip(0) =~= xs);
    }
}

/// A synthesis that fails loses nothing: when a tick hands out the whole
/// buffer (`taken`, leaving `left` empty) and the entries are then put back,
/// the buffer is what it was before the tick.
pub proof fn law_requeue_restores<T>(buffer: Seq<T>, taken: Seq<T>, left: Seq<T>)
    requires
        taken == buffer,
        left.len() == 0,
    ensures
        left + taken == buffer,
{
    assert(left + taken =~= buffer);
}

/// The `n` latest items of `ring`, newest first.
pub open spec fn latest(ring: Seq<Seq<char>>, n: nat) -> Seq<Seq<char>> {
    let k = if ring.len() < n {
        ring.len() as int
    } else {
        n as int
    };
    ring.subrange(ring.len() - k, ring.len() as int).reverse()
}

/// `ids` without repeats, first occurrences kept, in order.
pub open spec fn dedup(ids: Seq<Seq<char>>) -> Seq<Seq<char>>
    decreases ids.len(),
{
    if ids.len() == 0 {
        Seq::empty()
    } else if dedup(ids.drop_last()).contains(ids.last()) {
        dedup(ids.drop_last())
    } else {
        dedup(ids.drop_last()).push(ids.last())
    }
}

/// Removing repeats keeps every id and adds none.
pub proof fn lemma_dedup_contains(ids: Seq<Seq<char>>, x: Seq<char>)
    ensures
        dedup(ids).contains(x) == ids.contains(x),
    decreases ids.len(),
{
    if ids.len() > 0 {
        lemma_dedup_contains(ids.drop_last(), x);
        if ids.drop_last().contains(x) {
            let k = choose|k: int| 0 <= k < ids.drop_last().len() && ids.drop_last()[k] == x;
            assert(ids[k] == x);
        }
        if ids.contains(x) && x != ids.last() {
            let k = choose|k: int| 0 <= k < ids.len() && ids[k] == x;
            assert(ids.drop_last()[k] == x);
        }
        if x == ids.last() {
            assert(ids[ids.len() - 1] == x);
            if !dedup(ids.drop_last()).contains(ids.last()) {
                assert(dedup(ids) == dedup(ids.drop_last()).push(ids.last()));
                assert(dedup(ids)[dedup(ids).len() - 1] == x);
            }
        }
        if dedup(ids.drop_last()).contains(x) && !dedup(ids.drop_last()).contains(ids.last()) {
            let k = choose|k: int| 0 <= k < dedup(ids.drop_last()).len() && dedup(ids.drop_last())[k] == x;
            assert(dedup(ids)[k] == x);
        }
    }
}

/// The ids of `ids` without repeats, first occurrences kept, in order.
pub fn unique_ids(ids: &Vec<ProjectId>) -> (out: Vec<ProjectId>)
    ensures
        out@.map_values(|p: ProjectId| p@) == dedup(ids@.map_values(|p: ProjectId| p@)),
{
    let ghost all = ids@.map_values(|p: ProjectId| p@);
    let mut out: Vec<ProjectId> = Vec::new();
    let mut i: usize = 0;
    assert(all.take(0) =~= Seq::<Seq<char>>::empty());
    assert(out@.map_values(|p: ProjectId| p@) =~= Seq::<Seq<char>>::empty());
    while i < ids.len()
        invariant
            i <= ids@.len(),
            all == ids@.map_values(|p: ProjectId| p@),
            out@.map_values(|p: ProjectId| p@) == dedup(all.take(i as int)),
        decreases ids.len() - i,
    {
        let ghost cur = out@.map_values(|p: ProjectId| p@);
        assert(all.take(i + 1).drop_last() =~= all.take(i as int));
        assert(all.take(i + 1).last() == ids@[i as int]@);
        let mut seen = false;
        let mut k: usize = 0;
        while k < out.len()
            invariant
                k <= out@.len(),
                cur == out@.map_values(|p: ProjectId| p@),
                i < ids@.len(),
                seen == (exists|j: int| 0 <= j < k && cur[j] == ids@[i as int]@),
            decreases out.len() - k,
        {
            if out[k].same(&ids[i]) {
                seen = true;
                assert(cur[k as int] == ids@[i as int]@);
            }
            k = k + 1;
        }
        proof {
            if seen {
                let j = choose|j: int| 0 <= j < k && cur[j] == ids@[i as int]@;
                assert(cur.contains(ids@[i as int]@));
            } else {
                assert(!cur.contains(ids@[i as int]@));
            }
        }
        if !seen {
            out.push(ids[i].duplicate());
            assert(out@.map_values(|p: ProjectId| p@) =~= cur.push(ids@[i as int]@));
        }
        i = i + 1;
    }
    assert(all.take(all.len() as int) =~= all);
    out
}

/// The urgency an analyzer names: `high` and `medium` in any case, anything else
/// being low.
pub open spec fn urgency_named(s: Seq<char>) -> Urgency {
    if crate::text::lowercase(s) == "high"@ {
        Urgency::High
    } else if crate::text::lowercase(s) == "medium"@ {
        Urgency::Medium
    } else {
        Urgency::Low
    }
}

/// Reads an urgency named by the analyzer (see [`urgency_named`]).
pub fn parse_urgency(s: &str) -> (u: Urgency)
    ensures
        u == urgency_named(s@),
{
    let l = crate::text::to_lowercase(s);
    if str_eq(l.as_str(), "high") {
        Urgency::High
    } else if str_eq(l.as_str(), "medium") {
        Urgency::Medium
    } else {
        Urgency::Low
    }
}

/// The text between the first `open` and the next closing fence after it,
/// trimmed, if both are there.
pub open spec fn fenced(t: Seq<char>, open: Seq<char>) -> Option<Seq<char>> {
    match find(t, open) {
        Some(s) => {
            let after = t.skip(s + open.len());
            match find(after, "```"@) {
                Some(e) => Some(trim(after.take(e))),
                None => None,
            }
        },
        None => None,
    }
}

/// The JSON in an analyzer's answer: the body of a ```` ```json ```` fence, else of
/// any ```` ``` ```` fence, else the text from its first `[` (or, without one, its
/// first `{`) on, else the whole text.
pub open spec fn json_part(t: Seq<char>) -> Seq<char> {
    match fenced(t, "```json"@) {
        Some(b) => b,
        None => match fenced(t, "```"@) {
            Some(b) => b,
            None => match find(t, "["@) {
                Some(i) => t.skip(i),
                None => match find(t, "{"@) {
                    Some(i) => t.skip(i),
                    None => t,
                },
            },
        },
    }
}

fn fenced_exec(v: &Vec<char>, open: &Vec<char>, close: &Vec<char>) -> (r: Option<String>)
    requires
        open@.len() > 0,
        close@ == "```"@,
    ensures
        match r {
            Some(b) => fenced(v@, open@) == Some(b@),
            None => fenced(v@, open@) is None,
        },
{
    assert(v@.subrange(0, v.len() as int) =~= v@);
    match find_exec(v, 0, v.len(), open) {
        None => None,
        Some(s) => {
            proof {
                lemma_find_from_result(v@, open@, 0);
            }
            let a = s + open.len();
            assert(v@.skip(a as int) =~= v@.subrange(a as int, v.len() as int));
            match find_exec(v, a, v.len(), close) {
                None => None,
                Some(e) => {
                    proof {
                        lemma_find_from_result(v@.subrange(a as int, v.len() as int), close@, 0);
                    }
                    assert(v@.skip(a as int).take(e as int) =~= v@.subrange(a as int, a + e));
                    let (x, y) = trim_bounds(v, a, a + e);
                    Some(string_of_range(v, x, y))
                },
            }
        },
    }
}

/// The JSON part of an analyzer's answer (see [`json_part`]).
pub fn extract_json(text: &str) -> (r: String)
    ensures
        r@ == json_part(text@),
{
    proof {
        reveal_strlit("```json");
        reveal_strlit("```");
        reveal_strlit("[");
        reveal_strlit("{");
    }
    let v = chars_of(text);
    let close = chars_of("```");
    if let Some(b) = fenced_exec(&v, &chars_of("```json"), &close) {
        return b;
    }
    if let Some(b) = fenced_exec(&v, &close, &close) {
        return b;
    }
    assert(v@.subrange(0, v.len() as int) =~= v@);
    let start = match find_exec(&v, 0, v.len(), &chars_of("[")) {
        Some(i) => i,
        None => match find_exec(&v, 0, v.len(), &chars_of("{")) {
            Some(i) => i,
            None => 0,
        },
    };
    proof {
        lemma_find_from_result(v@, "["@, 0);
        lemma_find_from_result(v@, "{"@, 0);
    }
    assert(v@.skip(start as int) =~= v@.subrange(start as int, v.len() as int));
    if start == 0 {
        assert(v@.skip(0) =~= v@);
    }
    string_of_range(&v, start, v.len())
}

} // verus!

verus! {

/// Ring buffers by key: keys occur once, each ring holds at most `cap` items.
pub open spec fn rings_ok<T>(rings: Seq<(String, Vec<T>)>, cap: nat) -> bool {
    &&& forall|i: int, j: int|
        0 <= i < j < rings.len() ==> (#[trigger] rings[i]).0@ != (#[trigger] rings[j]).0@
    &&& forall|i: int| 0 <= i < rings.len() ==> (#[trigger] rings[i]).1@.len() <= cap
}

/// The ring kept under `key`, empty when there is none.
pub open spec fn ring_of<T>(rings: Seq<(String, Vec<T>)>, key: Seq<char>) -> Seq<T> {
    match last_key_index(rings, key) {
        Some(i) => rings[i].1@,
        None => Seq::empty(),
    }
}

proof fn lemma_index_after_update<T>(before: Seq<(String, Vec<T>)>, i: int, x: (String, Vec<T>), d: Seq<char>)
    requires
        0 <= i < before.len(),
        x.0@ == before[i].0@,
    ensures
        last_key_index(before.update(i, x), d) == last_key_index(before, d),
    decreases before.len(),
{
    let after = before.update(i, x);
    if i < before.len() - 1 {
        assert(after.drop_last() =~= before.drop_last().update(i, x));
        assert(after.last() == before.last());
        lemma_index_after_update(before.drop_last(), i, x, d);
    } else {
        assert(after.drop_last() =~= before.drop_last());
    }
}

/// The ring at position `i` is the ring of its key.
pub proof fn lemma_ring_at<T>(rings: Seq<(String, Vec<T>)>, cap: nat, i: int)
    requires
        rings_ok(rings, cap),
        0 <= i < rings.len(),
    ensures
        ring_of(rings, rings[i].0@) == rings[i].1@,
{
    let key = rings[i].0@;
    lemma_last_key_index(rings, key);
    match last_key_index(rings, key) {
        Some(j) => {
            if i < j {
                assert(rings[i].0@ != rings[j].0@);
            }
        },
        None => {},
    }
}

/// Appends `x` to the ring under `key` (a new ring when there is none), dropping
/// its oldest item when it already holds `cap`.
pub fn push_keyed<T>(rings: &mut Vec<(String, Vec<T>)>, key: &str, x: T, cap: usize)
    requires
        cap > 0,
        rings_ok(old(rings)@, cap as nat),
    ensures
        rings_ok(final(rings)@, cap as nat),
        ring_of(final(rings)@, key@) == push_capped(ring_of(old(rings)@, key@), x, cap as nat),
        forall|d: Seq<char>| d != key@ ==> ring_of(final(rings)@, d) == ring_of(old(rings)@, d),
{
    let ghost before = rings@;
    proof {
        lemma_last_key_index(before, key@);
    }
    match find_key(rings, key) {
        Some(i) => {
            let mut entry = rings.remove(i);
            push_ring(&mut entry.1, x, cap);
            rings.insert(i, entry);
            proof {
                assert(rings@ =~= before.update(i as int, rings@[i as int]));
                assert forall|a: int, b: int| 0 <= a < b < rings@.len() implies (#[trigger] rings@[a]).0@
                    != (#[trigger] rings@[b]).0@ by {
                    assert(rings@[a].0@ == before[a].0@);
                    assert(rings@[b].0@ == before[b].0@);
                }
                lemma_last_key_index(rings@, key@);
                assert forall|d: Seq<char>| d != key@ implies ring_of(rings@, d) == ring_of(before, d) by {
                    lemma_last_key_index(rings@, d);
                    lemma_last_key_index(before, d);
                    lemma_index_after_update(before, i as int, rings@[i as int], d);
                }
                lemma_index_after_update(before, i as int, rings@[i as int], key@);
            }
        },
        None => {
            let mut ring: Vec<T> = Vec::new();
            ring.push(x);
            rings.push((string_from(key), ring));
            proof {
                assert(rings@.drop_last() =~= before);
                assert forall|a: int, b: int| 0 <= a < b < rings@.len() implies (#[trigger] rings@[a]).0@
                    != (#[trigger] rings@[b]).0@ by {
                    assert(rings@[a] == before[a]);
                    if b < before.len() {
                        assert(rings@[b] == before[b]);
                    }
                }
                assert(Seq::<T>::empty().push(x) =~= seq![x]);
                assert(rings@.last().0@ == key@);
                assert forall|d: Seq<char>| d != key@ implies ring_of(rings@, d) == ring_of(before, d) by {
                    assert(last_key_index(rings@, d) == last_key_index(before, d));
                    lemma_last_key_index(before, d);
                    match last_key_index(before, d) {
                        Some(j) => {
                            assert(rings@[j] == before[j]);
                        },
                        None => {},
                    }
                }
            }
        },
    }
}

} // verus!
