//! Stripping of session-engine block markers from a reply before it is posted.
//!
//! The block protocol (`[MAIN]`, `[CONSULT to: ...]`, `[BTW to: ...]`, `[LEAVE]`, ...)
//! is an internal convention of the session engine. Content after a `[MAIN]` marker
//! is kept; everything after any other marker (sidebars, session-control blocks) is
//! discarded. Text that holds no marker at all is returned unchanged.

use vstd::prelude::*;
use crate::text::{
    matches_at,
    chars_of, contains, find, find_exec, join_lines, lemma_find_from_result, lemma_join_push, lines,
    push_range, split_state, starts_with, starts_with_exec, string_of, strip_cr, trim, trim_bounds,
};

verus! {

/// The marker that opens a block whose content is kept.
pub open spec fn main_marker() -> Seq<char> {
    "[MAIN]"@
}

/// Prefixes of the markers whose block is discarded. `[REQUEST_APPROVAL` has no
/// closing bracket so that every variant of that tag matches.
pub open spec fn discard_markers() -> Seq<Seq<char>> {
    seq![
        "[LEAVE]"@,
        "[CONSULT to:"@,
        "[BTW to:"@,
        "[INVITE:"@,
        "[RELEASE:"@,
        "[FORK_CONSULTATION:"@,
        "[ADJUST_BUDGET:"@,
        "[REQUEST_APPROVAL"@,
        "[MODEL:"@,
        "[CLOSE]"@,
    ]
}

/// `t` begins with one of `ms`.
pub open spec fn starts_with_any(t: Seq<char>, ms: Seq<Seq<char>>) -> bool {
    exists|k: int| 0 <= k < ms.len() && starts_with(t, #[trigger] ms[k])
}

/// `t` holds one of `ms`.
pub open spec fn contains_any(t: Seq<char>, ms: Seq<Seq<char>>) -> bool {
    exists|k: int| 0 <= k < ms.len() && contains(t, #[trigger] ms[k])
}

/// Scanner state: (inside a kept block, skip the next blank line, kept lines).
pub type StripState = (bool, bool, Seq<Seq<char>>);

/// What one input line does to the scanner state.
pub open spec fn strip_step(st: StripState, line: Seq<char>) -> StripState {
    let t = trim(line);
    match find(t, main_marker()) {
        Some(pos) => {
            let rest = trim(t.skip(pos + main_marker().len()));
            if rest.len() > 0 {
                (true, false, st.2.push(rest))
            } else {
                (true, true, st.2)
            }
        },
        None => {
            if starts_with_any(t, discard_markers()) {
                (false, st.1, st.2)
            } else if st.0 {
                if st.1 && t.len() == 0 {
                    (true, false, st.2)
                } else {
                    (true, false, st.2.push(line))
                }
            } else {
                st
            }
        },
    }
}

/// The scanner state after reading the lines `ls` in order.
pub open spec fn strip_scan(ls: Seq<Seq<char>>) -> StripState
    decreases ls.len(),
{
    if ls.len() == 0 {
        (false, false, Seq::empty())
    } else {
        strip_step(strip_scan(ls.drop_last()), ls.last())
    }
}

/// The reply that remains of `text` once block markers are stripped.
pub open spec fn stripped(text: Seq<char>) -> Seq<char> {
    if !contains(text, main_marker()) && !contains_any(text, discard_markers()) {
        text
    } else {
        trim(join_lines(strip_scan(lines(text)).2))
    }
}

fn discard_markers_exec() -> (d: Vec<Vec<char>>)
    ensures
        d@.map_values(|x: Vec<char>| x@) == discard_markers(),
{
    let mut d: Vec<Vec<char>> = Vec::new();
    d.push(chars_of("[LEAVE]"));
    d.push(chars_of("[CONSULT to:"));
    d.push(chars_of("[BTW to:"));
    d.push(chars_of("[INVITE:"));
    d.push(chars_of("[RELEASE:"));
    d.push(chars_of("[FORK_CONSULTATION:"));
    d.push(chars_of("[ADJUST_BUDGET:"));
    d.push(chars_of("[REQUEST_APPROVAL"));
    d.push(chars_of("[MODEL:"));
    d.push(chars_of("[CLOSE]"));
    assert(d@.map_values(|x: Vec<char>| x@) =~= discard_markers());
    d
}

fn starts_with_any_exec(v: &Vec<char>, lo: usize, hi: usize, ms: &Vec<Vec<char>>) -> (b: bool)
    requires
        lo <= hi <= v.len(),
    ensures
        b == starts_with_any(v@.subrange(lo as int, hi as int), ms@.map_values(|x: Vec<char>| x@)),
{
    let ghost t = v@.subrange(lo as int, hi as int);
    let ghost pats = ms@.map_values(|x: Vec<char>| x@);
    let mut k: usize = 0;
    while k < ms.len()
        invariant
            lo <= hi <= v.len(),
            t == v@.subrange(lo as int, hi as int),
            pats == ms@.map_values(|x: Vec<char>| x@),
            k <= ms.len(),
            forall|j: int| 0 <= j < k ==> !starts_with(t, #[trigger] pats[j]),
        decreases ms.len() - k,
    {
        if starts_with_exec(v, lo, hi, &ms[k]) {
            assert(pats[k as int] == ms@[k as int]@);
            return true;
        }
        assert(pats[k as int] == ms@[k as int]@);
        k = k + 1;
    }
    false
}

fn contains_any_exec(v: &Vec<char>, ms: &Vec<Vec<char>>) -> (b: bool)
    ensures
        b == contains_any(v@, ms@.map_values(|x: Vec<char>| x@)),
{
    let ghost pats = ms@.map_values(|x: Vec<char>| x@);
    assert(v@.subrange(0, v.len() as int) =~= v@);
    let mut k: usize = 0;
    while k < ms.len()
        invariant
            pats == ms@.map_values(|x: Vec<char>| x@),
            v@.subrange(0, v.len() as int) == v@,
            k <= ms.len(),
            forall|j: int| 0 <= j < k ==> !contains(v@, #[trigger] pats[j]),
        decreases ms.len() - k,
    {
        assert(pats[k as int] == ms@[k as int]@);
        if find_exec(v, 0, v.len(), &ms[k]).is_some() {
            return true;
        }
        k = k + 1;
    }
    false
}

/// Appends `v[lo..hi]` as a further line of the `'\n'`-joined output.
fn append_line(
    acc: &mut Vec<char>,
    any: &mut bool,
    v: &Vec<char>,
    lo: usize,
    hi: usize,
    Ghost(kept): Ghost<Seq<Seq<char>>>,
)
    requires
        lo <= hi <= v.len(),
        old(acc)@ == join_lines(kept),
        *old(any) == (kept.len() > 0),
    ensures
        final(acc)@ == join_lines(kept.push(v@.subrange(lo as int, hi as int))),
        *final(any),
{
    proof {
        lemma_join_push(kept, v@.subrange(lo as int, hi as int));
    }
    let ghost start = acc@;
    if *any {
        acc.push('\n');
    }
    let ghost mid = acc@;
    let mut i = lo;
    while i < hi
        invariant
            lo <= i <= hi <= v.len(),
            acc@ == mid + v@.subrange(lo as int, i as int),
        decreases hi - i,
    {
        acc.push(v[i]);
        assert(v@.subrange(lo as int, i + 1) =~= v@.subrange(lo as int, i as int).push(v@[i as int]));
        i = i + 1;
    }
    proof {
        if kept.len() == 0 {
            assert(start.len() == 0) by {
                assert(join_lines(kept) =~= Seq::<char>::empty());
            }
            assert(acc@ =~= v@.subrange(lo as int, hi as int));
        } else {
            assert(acc@ =~= start + seq!['\n'] + v@.subrange(lo as int, hi as int));
        }
    }
    *any = true;
}

/// Applies `strip_step` for the line `v[lo..hi]`.
fn scan_line(
    v: &Vec<char>,
    lo: usize,
    hi: usize,
    main: &Vec<char>,
    discard: &Vec<Vec<char>>,
    keep: &mut bool,
    skip: &mut bool,
    acc: &mut Vec<char>,
    any: &mut bool,
    Ghost(st): Ghost<StripState>,
) -> (next: Ghost<StripState>)
    requires
        lo <= hi <= v.len(),
        main@ == main_marker(),
        discard@.map_values(|x: Vec<char>| x@) == discard_markers(),
        st.0 == *old(keep),
        st.1 == *old(skip),
        old(acc)@ == join_lines(st.2),
        *old(any) == (st.2.len() > 0),
    ensures
        next@ == strip_step(st, v@.subrange(lo as int, hi as int)),
        next@.0 == *final(keep),
        next@.1 == *final(skip),
        final(acc)@ == join_lines(next@.2),
        *final(any) == (next@.2.len() > 0),
{
    let ghost line = v@.subrange(lo as int, hi as int);
    let (a, b) = trim_bounds(v, lo, hi);
    let ghost t = v@.subrange(a as int, b as int);
    match find_exec(v, a, b, main) {
        Some(pos) => {
            proof {
                lemma_find_from_result(t, main@, 0);
            }
            let from = a + pos + main.len();
            let (c, d) = trim_bounds(v, from, b);
            proof {
                assert(t.skip(pos + main@.len()) =~= v@.subrange(from as int, b as int));
            }
            *keep = true;
            if d > c {
                append_line(acc, any, v, c, d, Ghost(st.2));
                *skip = false;
                Ghost((true, false, st.2.push(v@.subrange(c as int, d as int))))
            } else {
                *skip = true;
                Ghost((true, true, st.2))
            }
        },
        None => {
            if starts_with_any_exec(v, a, b, discard) {
                *keep = false;
                Ghost((false, st.1, st.2))
            } else if *keep {
                if *skip && a == b {
                    *skip = false;
                    Ghost((true, false, st.2))
                } else {
                    *skip = false;
                    append_line(acc, any, v, lo, hi, Ghost(st.2));
                    Ghost((true, false, st.2.push(line)))
                }
            } else {
                Ghost(st)
            }
        },
    }
}

/// Text that holds neither `[MAIN]` nor any discard marker comes out of the
/// stripping unchanged.
pub proof fn law_unmarked_text_unchanged(text: Seq<char>)
    requires
        !contains(text, main_marker()),
        !contains_any(text, discard_markers()),
    ensures
        stripped(text) == text,
{
}

/// The splitting state after reading `s` from the state `st` (see
/// [`split_state`]).
spec fn split_more(st: (Seq<Seq<char>>, Seq<char>), s: Seq<char>) -> (Seq<Seq<char>>, Seq<char>)
    decreases s.len(),
{
    if s.len() == 0 {
        st
    } else {
        let (done, cur) = split_more(st, s.drop_last());
        if s.last() == '\n' {
            (done.push(strip_cr(cur)), Seq::empty())
        } else {
            (done, cur.push(s.last()))
        }
    }
}

proof fn lemma_split_state_more(s: Seq<char>)
    ensures
        split_state(s) == split_more((Seq::empty(), Seq::empty()), s),
    decreases s.len(),
{
    if s.len() > 0 {
        lemma_split_state_more(s.drop_last());
    }
}

proof fn lemma_split_more_concat(st: (Seq<Seq<char>>, Seq<char>), a: Seq<char>, b: Seq<char>)
    ensures
        split_more(st, a + b) == split_more(split_more(st, a), b),
    decreases b.len(),
{
    if b.len() == 0 {
        assert(a + b =~= a);
    } else {
        assert((a + b).drop_last() =~= a + b.drop_last());
        assert((a + b).last() == b.last());
        lemma_split_more_concat(st, a, b.drop_last());
    }
}

proof fn lemma_split_no_newline(d: Seq<Seq<char>>, c: Seq<char>, s: Seq<char>)
    requires
        forall|j: int| 0 <= j < s.len() ==> s[j] != '\n',
    ensures
        split_more((d, c), s) == (d, c + s),
    decreases s.len(),
{
    if s.len() > 0 {
        lemma_split_no_newline(d, c, s.drop_last());
        assert((c + s.drop_last()).push(s.last()) =~= c + s);
    }
}

/// `l` holds no line break.
pub open spec fn one_line(l: Seq<char>) -> bool {
    forall|j: int| 0 <= j < l.len() ==> l[j] != '\n' && l[j] != '\r'
}

proof fn lemma_split_line(d: Seq<Seq<char>>, l: Seq<char>)
    requires
        one_line(l),
    ensures
        split_more((d, Seq::empty()), l + seq!['\n']) == (d.push(l), Seq::<char>::empty()),
{
    lemma_split_more_concat((d, Seq::empty()), l, seq!['\n']);
    lemma_split_no_newline(d, Seq::empty(), l);
    assert(Seq::<char>::empty() + l =~= l);
    let nl = seq!['\n'];
    assert(nl.drop_last() =~= Seq::<char>::empty());
    assert(split_more((d, l), nl.drop_last()) == (d, l));
    assert(strip_cr(l) == l);
}

proof fn lemma_split_lines(d: Seq<Seq<char>>, body: Seq<Seq<char>>)
    requires
        body.len() >= 1,
        forall|i: int| 0 <= i < body.len() ==> one_line(#[trigger] body[i]),
    ensures
        split_more((d, Seq::empty()), join_lines(body) + seq!['\n']) == (d + body, Seq::<char>::empty()),
    decreases body.len(),
{
    if body.len() == 1 {
        lemma_split_line(d, body[0]);
        assert(d.push(body[0]) =~= d + body);
    } else {
        let init = body.drop_last();
        assert(forall|i: int| 0 <= i < init.len() ==> init[i] == body[i]);
        lemma_split_lines(d, init);
        let last = body.last();
        assert(join_lines(body) + seq!['\n'] =~= (join_lines(init) + seq!['\n']) + (last + seq![
            '\n',
        ]));
        lemma_split_more_concat((d, Seq::empty()), join_lines(init) + seq!['\n'], last + seq!['\n']);
        assert(one_line(body[body.len() - 1]));
        lemma_split_line(d + init, last);
        assert((d + init).push(last) =~= d + body);
    }
}

proof fn lemma_main_block_scan(body: Seq<Seq<char>>, k: int)
    requires
        0 <= k <= body.len(),
        body.len() >= 1,
        trim(body[0]).len() > 0,
        forall|i: int|
            0 <= i < body.len() ==> !contains(trim(#[trigger] body[i]), "[MAIN]"@)
                && !starts_with_any(trim(body[i]), discard_markers()),
    ensures
        strip_scan(seq!["[MAIN]"@] + body.take(k)) == (true, k == 0, body.take(k)),
    decreases k,
{
    let m = "[MAIN]"@;
    if k == 0 {
        reveal_strlit("[MAIN]");
        assert(seq![m] + body.take(0) =~= seq![m]);
        assert(seq![m].drop_last() =~= Seq::<Seq<char>>::empty());
        crate::text::lemma_trim_unchanged(m);
        assert(m.subrange(0, 6) =~= m);
        assert(find(m, main_marker()) == Some(0int));
        assert(m.skip(6) =~= Seq::<char>::empty());
        assert(trim(Seq::<char>::empty()) =~= Seq::<char>::empty());
        assert(body.take(0) =~= Seq::<Seq<char>>::empty());
        let init: StripState = (false, false, Seq::empty());
        assert(strip_scan(seq![m].drop_last()) == init);
        assert(trim(m) == m);
        assert(trim(m.skip(6)).len() == 0);
        assert(strip_step(init, m) == (true, true, Seq::<Seq<char>>::empty()));
        assert(strip_scan(seq![m]) == strip_step(init, m));
    } else {
        lemma_main_block_scan(body, k - 1);
        let ls = seq![m] + body.take(k);
        assert(ls.drop_last() =~= seq![m] + body.take(k - 1));
        assert(ls.last() == body[k - 1]);
        let line = body[k - 1];
        let t = trim(line);
        assert(!contains(t, "[MAIN]"@));
        assert(find(t, main_marker()) is None);
        assert(!starts_with_any(t, discard_markers()));
        let st = strip_scan(ls.drop_last());
        assert(st == (true, k - 1 == 0, body.take(k - 1)));
        if k == 1 {
            assert(t.len() > 0);
        }
        assert(strip_step(st, line) == (true, false, st.2.push(line)));
        assert(strip_scan(ls) == strip_step(st, line));
        assert(body.take(k - 1).push(body[k - 1]) =~= body.take(k));
    }
}

/// Every line of a `[MAIN]` block is kept, blank lines included, up to the next
/// discard marker: for a reply made of a `[MAIN]` line, the lines `body` (none
/// holding a marker, the first not blank) and a `[LEAVE]` line, what is posted
/// is the whole body, trimmed.
pub proof fn law_main_block_kept_whole(body: Seq<Seq<char>>)
    requires
        body.len() >= 1,
        forall|i: int| 0 <= i < body.len() ==> one_line(#[trigger] body[i]),
        trim(body[0]).len() > 0,
        forall|i: int|
            0 <= i < body.len() ==> !contains(trim(#[trigger] body[i]), "[MAIN]"@)
                && !starts_with_any(trim(body[i]), discard_markers()),
    ensures
        stripped("[MAIN]"@ + seq!['\n'] + join_lines(body) + seq!['\n'] + "[LEAVE]"@) == trim(
            join_lines(body),
        ),
{
    reveal_strlit("[MAIN]");
    reveal_strlit("[LEAVE]");
    let m = "[MAIN]"@;
    let l = "[LEAVE]"@;
    let text = m + seq!['\n'] + join_lines(body) + seq!['\n'] + l;
    // The lines of the text.
    lemma_split_state_more(text);
    let init = (Seq::<Seq<char>>::empty(), Seq::<char>::empty());
    assert(text =~= (m + seq!['\n']) + ((join_lines(body) + seq!['\n']) + l));
    lemma_split_more_concat(init, m + seq!['\n'], (join_lines(body) + seq!['\n']) + l);
    lemma_split_line(Seq::empty(), m);
    assert(Seq::<Seq<char>>::empty().push(m) =~= seq![m]);
    lemma_split_more_concat((seq![m], Seq::empty()), join_lines(body) + seq!['\n'], l);
    lemma_split_lines(seq![m], body);
    lemma_split_no_newline(seq![m] + body, Seq::empty(), l);
    assert(Seq::<char>::empty() + l =~= l);
    assert(lines(text) =~= (seq![m] + body).push(l));
    // The scan over them.
    lemma_main_block_scan(body, body.len() as int);
    assert(body.take(body.len() as int) =~= body);
    let ls = (seq![m] + body).push(l);
    assert(ls.drop_last() =~= seq![m] + body.take(body.len() as int));
    crate::text::lemma_trim_unchanged(l);
    crate::text::lemma_find_from_result(l, main_marker(), 0);
    assert(!matches_at(l, main_marker(), 0)) by {
        assert(l.subrange(0, 6)[1] != main_marker()[1]);
    }
    assert(!matches_at(l, main_marker(), 1)) by {
        assert(l.subrange(1, 7)[0] != main_marker()[0]);
    }
    assert(find(l, main_marker()) is None);
    assert(l.subrange(0, 7) =~= discard_markers()[0]);
    assert(starts_with(l, discard_markers()[0]));
    assert(starts_with_any(l, discard_markers()));
    assert(strip_scan(ls).2 == body);
    // The text holds a marker, so it is scanned.
    assert(text.subrange(0, 6) =~= m);
    assert(matches_at(text, main_marker(), 0));
    assert(find(text, main_marker()) == Some(0int));
}

/// Strips block-protocol markers from `text`, keeping only the content of
/// `[MAIN]` blocks.
///
/// Every `[MAIN]` block is kept, in order. `[MAIN]` may appear anywhere on a line:
/// text before it on that line is dropped and text after it is kept. A line that
/// starts with one of the discard markers ends the current kept block. Text with
/// no marker at all is returned unchanged.
pub fn strip_block_markers(text: &str) -> (out: String)
    ensures
        out@ == stripped(text@),
{
    let v = chars_of(text);
    let main = chars_of("[MAIN]");
    let discard = discard_markers_exec();
    let n = v.len();
    proof {
        assert(v@.subrange(0, n as int) =~= v@);
    }
    if find_exec(&v, 0, n, &main).is_none() && !contains_any_exec(&v, &discard) {
        return string_of(&v);
    }
    let mut keep = false;
    let mut skip = false;
    let mut acc: Vec<char> = Vec::new();
    let mut any = false;
    let ghost mut done: Seq<Seq<char>> = Seq::empty();
    let ghost mut st: StripState = (false, false, Seq::empty());
    let mut start: usize = 0;
    let mut i: usize = 0;
    proof {
        assert(v@.take(0) =~= Seq::<char>::empty());
        assert(v@.subrange(0, 0) =~= Seq::<char>::empty());
    }
    while i < n
        invariant
            n == v.len(),
            main@ == main_marker(),
            discard@.map_values(|x: Vec<char>| x@) == discard_markers(),
            start <= i <= n,
            split_state(v@.take(i as int)) == (done, v@.subrange(start as int, i as int)),
            st == strip_scan(done),
            st.0 == keep,
            st.1 == skip,
            acc@ == join_lines(st.2),
            any == (st.2.len() > 0),
        decreases n - i,
    {
        proof {
            assert(v@.take(i + 1).drop_last() =~= v@.take(i as int));
        }
        if v[i] == '\n' {
            let hi = if i > start && v[i - 1] == '\r' {
                i - 1
            } else {
                i
            };
            let ghost cur = v@.subrange(start as int, i as int);
            proof {
                assert(v@.subrange(start as int, hi as int) =~= strip_cr(cur));
            }
            let next = scan_line(
                &v,
                start,
                hi,
                &main,
                &discard,
                &mut keep,
                &mut skip,
                &mut acc,
                &mut any,
                Ghost(st),
            );
            proof {
                assert(done.push(strip_cr(cur)).drop_last() =~= done);
                done = done.push(strip_cr(cur));
                st = next@;
                assert(v@.subrange(i + 1, i + 1) =~= Seq::<char>::empty());
            }
            start = i + 1;
        } else {
            proof {
                assert(v@.subrange(start as int, i + 1) =~= v@.subrange(
                    start as int,
                    i as int,
                ).push(v@[i as int]));
            }
        }
        i = i + 1;
    }
    proof {
        assert(v@.take(n as int) =~= v@);
    }
    if start < n {
        let ghost cur = v@.subrange(start as int, n as int);
        let next = scan_line(
            &v,
            start,
            n,
            &main,
            &discard,
            &mut keep,
            &mut skip,
            &mut acc,
            &mut any,
            Ghost(st),
        );
        proof {
            assert(done.push(cur).drop_last() =~= done);
            st = next@;
        }
    }
    let (a, b) = trim_bounds(&acc, 0, acc.len());
    proof {
        assert(acc@.subrange(0, acc.len() as int) =~= acc@);
    }
    let mut out = String::new();
    push_range(&mut out, &acc, a, b);
    proof {
        assert(out@ =~= acc@.subrange(a as int, b as int));
    }
    out
}

} // verus!
