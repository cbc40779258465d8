//! Character-level model of the string operations the library relies on:
//! whitespace trimming, substring search, prefix tests and line splitting,
//! all stated over `Seq<char>` and implemented by verified loops.

use vstd::prelude::*;

verus! {

// ───────────────────────────── whitespace ─────────────────────────────

/// The Unicode `White_Space` property (what `char::is_whitespace` tests).
pub open spec fn is_ws(c: char) -> bool {
    ||| ('\u{9}' <= c && c <= '\u{d}')
    ||| c == ' '
    ||| c == '\u{85}'
    ||| c == '\u{a0}'
    ||| c == '\u{1680}'
    ||| ('\u{2000}' <= c && c <= '\u{200a}')
    ||| c == '\u{2028}'
    ||| c == '\u{2029}'
    ||| c == '\u{202f}'
    ||| c == '\u{205f}'
    ||| c == '\u{3000}'
}

/// `char::is_whitespace` (see [`is_ws`]).
pub fn is_whitespace(c: char) -> (b: bool)
    ensures
        b == is_ws(c),
{
    ('\u{9}' <= c && c <= '\u{d}') || c == ' ' || c == '\u{85}' || c == '\u{a0}' || c
        == '\u{1680}' || ('\u{2000}' <= c && c <= '\u{200a}') || c == '\u{2028}' || c
        == '\u{2029}' || c == '\u{202f}' || c == '\u{205f}' || c == '\u{3000}'
}

/// `s` without its longest prefix of characters satisfying `p`.
pub open spec fn strip_start_by(s: Seq<char>, p: spec_fn(char) -> bool) -> Seq<char>
    decreases s.len(),
{
    if s.len() > 0 && p(s[0]) {
        strip_start_by(s.drop_first(), p)
    } else {
        s
    }
}

/// `s` without its longest suffix of characters satisfying `p`.
pub open spec fn strip_end_by(s: Seq<char>, p: spec_fn(char) -> bool) -> Seq<char>
    decreases s.len(),
{
    if s.len() > 0 && p(s.last()) {
        strip_end_by(s.drop_last(), p)
    } else {
        s
    }
}

/// `s` with whitespace removed at both ends (`str::trim`).
pub open spec fn trim(s: Seq<char>) -> Seq<char> {
    strip_end_by(strip_start_by(s, |c: char| is_ws(c)), |c: char| is_ws(c))
}

/// Text that neither begins nor ends with whitespace is its own trim.
pub proof fn lemma_trim_unchanged(s: Seq<char>)
    requires
        s.len() > 0,
        !is_ws(s[0]),
        !is_ws(s.last()),
    ensures
        trim(s) == s,
{
}

/// `s` with every leading and trailing `'"'` removed (`str::trim_matches('"')`).
pub open spec fn trim_quotes(s: Seq<char>) -> Seq<char> {
    strip_end_by(strip_start_by(s, |c: char| c == '"'), |c: char| c == '"')
}

/// Stripping a prefix skips exactly its first `i` characters when those
/// satisfy `p` and the next does not.
pub proof fn lemma_strip_start_skip(s: Seq<char>, p: spec_fn(char) -> bool, i: int)
    requires
        0 <= i <= s.len(),
        forall|k: int| 0 <= k < i ==> p(#[trigger] s[k]),
        i == s.len() || !p(s[i]),
    ensures
        strip_start_by(s, p) == s.skip(i),
    decreases i,
{
    if i == 0 {
        assert(s.skip(0) =~= s);
    } else {
        let t = s.drop_first();
        assert forall|k: int| 0 <= k < i - 1 implies p(#[trigger] t[k]) by {
            assert(t[k] == s[k + 1]);
        }
        lemma_strip_start_skip(t, p, i - 1);
        assert(t.skip(i - 1) =~= s.skip(i));
    }
}

/// Stripping a suffix keeps exactly the first `j` characters when the rest
/// satisfy `p` and the one before does not.
pub proof fn lemma_strip_end_take(s: Seq<char>, p: spec_fn(char) -> bool, j: int)
    requires
        0 <= j <= s.len(),
        forall|k: int| j <= k < s.len() ==> p(#[trigger] s[k]),
        j == 0 || !p(s[j - 1]),
    ensures
        strip_end_by(s, p) == s.take(j),
    decreases s.len() - j,
{
    if j == s.len() {
        assert(s.take(j) =~= s);
    } else {
        let t = s.drop_last();
        assert forall|k: int| j <= k < t.len() implies p(#[trigger] t[k]) by {
            assert(t[k] == s[k]);
        }
        lemma_strip_end_take(t, p, j);
        assert(t.take(j) =~= s.take(j));
    }
}

/// Bounds `(a, b)` such that `v[a..b]` is `v[lo..hi]` trimmed.
pub fn trim_bounds(v: &Vec<char>, lo: usize, hi: usize) -> (r: (usize, usize))
    requires
        lo <= hi <= v.len(),
    ensures
        lo <= r.0 <= r.1 <= hi,
        v@.subrange(r.0 as int, r.1 as int) == trim(v@.subrange(lo as int, hi as int)),
{
    let ghost s = v@.subrange(lo as int, hi as int);
    let mut a = lo;
    while a < hi && is_whitespace(v[a])
        invariant
            lo <= a <= hi <= v.len(),
            s == v@.subrange(lo as int, hi as int),
            forall|k: int| lo <= k < a ==> is_ws(#[trigger] v@[k]),
        decreases hi - a,
    {
        a = a + 1;
    }
    proof {
        assert forall|k: int| 0 <= k < a - lo implies is_ws(#[trigger] s[k]) by {
            assert(s[k] == v@[lo + k]);
        }
        lemma_strip_start_skip(s, |c: char| is_ws(c), a - lo);
    }
    let mut b = hi;
    while b > a && is_whitespace(v[b - 1])
        invariant
            lo <= a <= b <= hi <= v.len(),
            forall|k: int| b <= k < hi ==> is_ws(#[trigger] v@[k]),
        decreases b - a,
    {
        b = b - 1;
    }
    proof {
        let t = s.skip(a - lo);
        assert(t =~= v@.subrange(a as int, hi as int));
        assert forall|k: int| b - a <= k < t.len() implies is_ws(#[trigger] t[k]) by {
            assert(t[k] == v@[a + k]);
        }
        lemma_strip_end_take(t, |c: char| is_ws(c), b - a);
        assert(t.take(b - a) =~= v@.subrange(a as int, b as int));
    }
    (a, b)
}

/// `s` without its trailing `c`s (`str::trim_end_matches(c)`).
pub open spec fn trim_end_char(s: Seq<char>, c: char) -> Seq<char> {
    strip_end_by(s, char_is(c))
}

/// The predicate "is `c`".
pub open spec fn char_is(c: char) -> spec_fn(char) -> bool {
    |x: char| x == c
}

/// `s.trim_end_matches(c)` as a new string.
pub fn trim_end_char_exec(s: &str, c: char) -> (r: String)
    ensures
        r@ == trim_end_char(s@, c),
{
    let v = chars_of(s);
    let mut b = v.len();
    while b > 0 && v[b - 1] == c
        invariant
            b <= v@.len(),
            forall|k: int| b <= k < v@.len() ==> #[trigger] v@[k] == c,
        decreases b,
    {
        b = b - 1;
    }
    let ghost p = char_is(c);
    proof {
        assert forall|k: int| b <= k < v@.len() implies p(#[trigger] v@[k]) by {}
        lemma_strip_end_take(v@, p, b as int);
        assert(v@.take(b as int) =~= v@.subrange(0, b as int));
    }
    string_of_range(&v, 0, b)
}

/// Bounds `(a, b)` such that `v[a..b]` is `v[lo..hi]` without surrounding `'"'`s.
pub fn trim_quote_bounds(v: &Vec<char>, lo: usize, hi: usize) -> (r: (usize, usize))
    requires
        lo <= hi <= v.len(),
    ensures
        lo <= r.0 <= r.1 <= hi,
        v@.subrange(r.0 as int, r.1 as int) == trim_quotes(v@.subrange(lo as int, hi as int)),
{
    let ghost s = v@.subrange(lo as int, hi as int);
    let mut a = lo;
    while a < hi && v[a] == '"'
        invariant
            lo <= a <= hi <= v.len(),
            s == v@.subrange(lo as int, hi as int),
            forall|k: int| lo <= k < a ==> #[trigger] v@[k] == '"',
        decreases hi - a,
    {
        a = a + 1;
    }
    proof {
        assert forall|k: int| 0 <= k < a - lo implies (|c: char| c == '"')(#[trigger] s[k]) by {
            assert(s[k] == v@[lo + k]);
        }
        lemma_strip_start_skip(s, |c: char| c == '"', a - lo);
    }
    let mut b = hi;
    while b > a && v[b - 1] == '"'
        invariant
            lo <= a <= b <= hi <= v.len(),
            forall|k: int| b <= k < hi ==> #[trigger] v@[k] == '"',
        decreases b - a,
    {
        b = b - 1;
    }
    proof {
        let t = s.skip(a - lo);
        assert(t =~= v@.subrange(a as int, hi as int));
        assert forall|k: int| b - a <= k < t.len() implies (|c: char| c == '"')(#[trigger] t[k]) by {
            assert(t[k] == v@[a + k]);
        }
        lemma_strip_end_take(t, |c: char| c == '"', b - a);
        assert(t.take(b - a) =~= v@.subrange(a as int, b as int));
    }
    (a, b)
}

// ───────────────────────────── search ─────────────────────────────

/// `pat` occurs in `s` starting at index `i`.
pub open spec fn matches_at(s: Seq<char>, pat: Seq<char>, i: int) -> bool {
    0 <= i && i + pat.len() <= s.len() && s.subrange(i, i + pat.len()) == pat
}

/// `s` begins with `pat` (`str::starts_with`).
pub open spec fn starts_with(s: Seq<char>, pat: Seq<char>) -> bool {
    matches_at(s, pat, 0)
}

/// First occurrence of `pat` in `s` at or after `from` (`str::find` from an offset).
pub open spec fn find_from(s: Seq<char>, pat: Seq<char>, from: int) -> Option<int>
    decreases s.len() + 1 - from,
{
    if from < 0 || from + pat.len() > s.len() {
        None
    } else if matches_at(s, pat, from) {
        Some(from)
    } else {
        find_from(s, pat, from + 1)
    }
}

/// First occurrence of `pat` in `s` (`str::find`).
pub open spec fn find(s: Seq<char>, pat: Seq<char>) -> Option<int> {
    find_from(s, pat, 0)
}

/// `pat` occurs somewhere in `s` (`str::contains`).
pub open spec fn contains(s: Seq<char>, pat: Seq<char>) -> bool {
    find(s, pat) is Some
}

/// What a search from `from` finds: the first match at or after `from`, or
/// none at all.
pub proof fn lemma_find_from_result(s: Seq<char>, pat: Seq<char>, from: int)
    requires
        0 <= from,
    ensures
        find_from(s, pat, from) matches Some(i) ==> from <= i && matches_at(s, pat, i) && (
        forall|j: int| from <= j < i ==> !matches_at(s, pat, j)),
        find_from(s, pat, from) is None ==> forall|j: int| from <= j ==> !matches_at(s, pat, j),
    decreases s.len() + 1 - from,
{
    if from + pat.len() > s.len() {
    } else if matches_at(s, pat, from) {
    } else {
        lemma_find_from_result(s, pat, from + 1);
    }
}

/// The first `c` of `s` is at `i` when `s[i]` is `c` and no earlier character
/// is; without any `c`, there is none.
pub proof fn lemma_find_char(s: Seq<char>, c: char, i: int)
    requires
        0 <= i <= s.len(),
        forall|j: int| 0 <= j < i ==> s[j] != c,
        i < s.len() ==> s[i] == c,
    ensures
        i < s.len() ==> find(s, seq![c]) == Some(i),
        i == s.len() ==> find(s, seq![c]) is None,
{
    lemma_find_from_result(s, seq![c], 0);
    assert forall|j: int| 0 <= j < i implies !matches_at(s, seq![c], j) by {
        if matches_at(s, seq![c], j) {
            assert(s.subrange(j, j + 1)[0] == s[j]);
        }
    }
    if i < s.len() {
        assert(s.subrange(i, i + 1) =~= seq![c]);
        assert(matches_at(s, seq![c], i));
    }
}

/// Whether `v[lo + i ..]` starts with `pat`, comparing in place.
pub fn matches_at_exec(v: &Vec<char>, lo: usize, hi: usize, pat: &Vec<char>, i: usize) -> (b:
    bool)
    requires
        lo <= hi <= v.len(),
    ensures
        b == matches_at(v@.subrange(lo as int, hi as int), pat@, i as int),
{
    let ghost s = v@.subrange(lo as int, hi as int);
    if i > hi - lo || pat.len() > hi - lo - i {
        return false;
    }
    let mut k: usize = 0;
    while k < pat.len()
        invariant
            lo <= hi <= v.len(),
            i + pat.len() <= hi - lo,
            s == v@.subrange(lo as int, hi as int),
            k <= pat.len(),
            forall|m: int| 0 <= m < k ==> s[i + m] == pat@[m],
        decreases pat.len() - k,
    {
        if v[lo + i + k] != pat[k] {
            proof {
                assert(s.subrange(i as int, i + pat.len())[k as int] != pat@[k as int]);
            }
            return false;
        }
        k = k + 1;
    }
    proof {
        assert(s.subrange(i as int, i + pat.len()) =~= pat@);
    }
    true
}

/// `find` on `v[lo..hi]`, giving an index relative to `lo`.
pub fn find_exec(v: &Vec<char>, lo: usize, hi: usize, pat: &Vec<char>) -> (r: Option<usize>)
    requires
        lo <= hi <= v.len(),
    ensures
        r matches Some(i) ==> find(v@.subrange(lo as int, hi as int), pat@) == Some(i as int),
        r is None ==> find(v@.subrange(lo as int, hi as int), pat@) is None,
{
    let ghost s = v@.subrange(lo as int, hi as int);
    if pat.len() > hi - lo {
        return None;
    }
    let last = hi - lo - pat.len();
    let mut i: usize = 0;
    loop
        invariant
            lo <= hi <= v.len(),
            last + pat.len() == hi - lo,
            i <= last,
            s == v@.subrange(lo as int, hi as int),
            find(s, pat@) == find_from(s, pat@, i as int),
        decreases last - i,
    {
        if matches_at_exec(v, lo, hi, pat, i) {
            return Some(i);
        }
        if i == last {
            assert(find_from(s, pat@, i + 1) is None);
            return None;
        }
        i = i + 1;
    }
}

/// `starts_with` on `v[lo..hi]`.
pub fn starts_with_exec(v: &Vec<char>, lo: usize, hi: usize, pat: &Vec<char>) -> (b: bool)
    requires
        lo <= hi <= v.len(),
    ensures
        b == starts_with(v@.subrange(lo as int, hi as int), pat@),
{
    matches_at_exec(v, lo, hi, pat, 0)
}

/// `find` of a single character on `v[lo..hi]`, relative to `lo`.
pub fn find_char_exec(v: &Vec<char>, lo: usize, hi: usize, c: char) -> (r: Option<usize>)
    requires
        lo <= hi <= v.len(),
    ensures
        r matches Some(i) ==> lo + i < hi && find(v@.subrange(lo as int, hi as int), seq![c])
            == Some(i as int),
        r is None ==> find(v@.subrange(lo as int, hi as int), seq![c]) is None,
{
    let ghost s = v@.subrange(lo as int, hi as int);
    let mut i: usize = 0;
    while i < hi - lo
        invariant
            lo <= hi <= v.len(),
            i <= hi - lo,
            s == v@.subrange(lo as int, hi as int),
            find(s, seq![c]) == find_from(s, seq![c], i as int),
        decreases hi - lo - i,
    {
        assert(s.subrange(i as int, i + 1) =~= seq![s[i as int]]);
        if v[lo + i] == c {
            return Some(i);
        }
        assert(!matches_at(s, seq![c], i as int)) by {
            assert(s.subrange(i as int, i + 1)[0] == s[i as int]);
            assert(seq![c][0] == c);
        }
        i = i + 1;
    }
    None
}

/// `str::splitn(n, c)`: at most `n` pieces, the last holding the remainder.
pub open spec fn splitn(s: Seq<char>, n: nat, c: char) -> Seq<Seq<char>>
    decreases n,
{
    if n <= 1 {
        seq![s]
    } else {
        match find(s, seq![c]) {
            None => seq![s],
            Some(i) => seq![s.take(i)] + splitn(s.skip(i + 1), (n - 1) as nat, c),
        }
    }
}

/// The pieces of `splitn` on `v[lo..hi]`, as bounds into `v`.
pub fn splitn_exec(v: &Vec<char>, lo: usize, hi: usize, n: usize, c: char) -> (r: Vec<
    (usize, usize),
>)
    requires
        lo <= hi <= v.len(),
    ensures
        r@.len() == splitn(v@.subrange(lo as int, hi as int), n as nat, c).len(),
        r@.len() >= 1,
        forall|k: int|
            0 <= k < r@.len() ==> lo <= (#[trigger] r@[k]).0 <= r@[k].1 <= hi && v@.subrange(
                r@[k].0 as int,
                r@[k].1 as int,
            ) == splitn(v@.subrange(lo as int, hi as int), n as nat, c)[k],
    decreases n,
{
    let ghost s = v@.subrange(lo as int, hi as int);
    if n <= 1 {
        let mut r = Vec::new();
        r.push((lo, hi));
        return r;
    }
    match find_char_exec(v, lo, hi, c) {
        None => {
            let mut r = Vec::new();
            r.push((lo, hi));
            r
        },
        Some(i) => {
            let tail = splitn_exec(v, lo + i + 1, hi, n - 1, c);
            let ghost ts = splitn(v@.subrange(lo + i + 1, hi as int), (n - 1) as nat, c);
            proof {
                assert(s.take(i as int) =~= v@.subrange(lo as int, lo + i));
                assert(s.skip(i + 1) =~= v@.subrange(lo + i + 1, hi as int));
            }
            let mut r = Vec::new();
            r.push((lo, lo + i));
            let mut k: usize = 0;
            while k < tail.len()
                invariant
                    lo <= hi <= v.len(),
                    lo + i < hi,
                    r@.len() == k + 1,
                    r@[0] == (lo, (lo + i) as usize),
                    k <= tail@.len(),
                    tail@.len() == ts.len(),
                    forall|m: int| 0 <= m < k ==> r@[m + 1] == #[trigger] tail@[m],
                    forall|m: int|
                        0 <= m < tail@.len() ==> lo <= (#[trigger] tail@[m]).0 <= tail@[m].1
                            <= hi && v@.subrange(tail@[m].0 as int, tail@[m].1 as int) == ts[m],
                decreases tail.len() - k,
            {
                r.push(tail[k]);
                k = k + 1;
            }
            proof {
                let whole = seq![s.take(i as int)] + ts;
                assert(splitn(s, n as nat, c) == whole);
                assert forall|m: int| 0 <= m < r@.len() implies lo <= (#[trigger] r@[m]).0
                    <= r@[m].1 <= hi && v@.subrange(r@[m].0 as int, r@[m].1 as int) == whole[m] by {
                    if m > 0 {
                        assert(r@[m] == tail@[m - 1]);
                    }
                }
            }
            r
        },
    }
}

/// The part of `s` before the first `c`, or all of `s` (`s.split(c).next()`).
pub open spec fn before_char(s: Seq<char>, c: char) -> Seq<char> {
    match find(s, seq![c]) {
        Some(i) => s.take(i),
        None => s,
    }
}

/// The part of `s` before the first `c`, all of `s` without one
/// (`s.split(c).next()`).
pub fn before_char_exec(s: &str, c: char) -> (r: String)
    ensures
        r@ == before_char(s@, c),
{
    let v = chars_of(s);
    assert(v@.subrange(0, v@.len() as int) =~= v@);
    match find_char_exec(&v, 0, v.len(), c) {
        Some(i) => string_of_range(&v, 0, i),
        None => string_from(s),
    }
}

/// `s` ends with `pat` (`str::ends_with`).
pub open spec fn ends_with(s: Seq<char>, pat: Seq<char>) -> bool {
    pat.len() <= s.len() && s.skip(s.len() - pat.len()) == pat
}

/// `str::strip_suffix`.
pub open spec fn strip_suffix(s: Seq<char>, pat: Seq<char>) -> Option<Seq<char>> {
    if ends_with(s, pat) {
        Some(s.take(s.len() - pat.len()))
    } else {
        None
    }
}

/// Whether `v[lo..hi]` ends with `pat`.
pub fn ends_with_exec(v: &Vec<char>, lo: usize, hi: usize, pat: &Vec<char>) -> (b: bool)
    requires
        lo <= hi <= v.len(),
    ensures
        b == ends_with(v@.subrange(lo as int, hi as int), pat@),
{
    if pat.len() > hi - lo {
        return false;
    }
    let r = eq_range(v, hi - pat.len(), hi, pat);
    assert(v@.subrange(lo as int, hi as int).skip(hi - lo - pat.len()) =~= v@.subrange(
        hi - pat.len(),
        hi as int,
    ));
    r
}

/// `str::replace(pat, rep)` for a non-empty `pat`: every occurrence, found left to
/// right without overlap, replaced by `rep`.
pub open spec fn replace_all(s: Seq<char>, pat: Seq<char>, rep: Seq<char>) -> Seq<char>
    decreases s.len(),
{
    if pat.len() == 0 {
        s
    } else {
        match find(s, pat) {
            None => s,
            Some(i) => {
                if 0 <= i && i + pat.len() <= s.len() {
                    s.take(i) + rep + replace_all(s.skip(i + pat.len()), pat, rep)
                } else {
                    s
                }
            },
        }
    }
}

/// `s.replace(pat, rep)` for a non-empty `pat`.
pub fn replace_all_exec(s: &str, pat: &str, rep: &str) -> (r: String)
    requires
        pat@.len() > 0,
    ensures
        r@ == replace_all(s@, pat@, rep@),
{
    let v = chars_of(s);
    let pv = chars_of(pat);
    let mut out = String::new();
    let mut i: usize = 0;
    assert(v@.subrange(0, v.len() as int) =~= v@);
    while i <= v.len()
        invariant
            i <= v@.len(),
            pv@ == pat@,
            pat@.len() > 0,
            out@ + replace_all(v@.subrange(i as int, v.len() as int), pat@, rep@) == replace_all(
                s@,
                pat@,
                rep@,
            ),
            v@ == s@,
        decreases v.len() - i,
    {
        let ghost rest = v@.subrange(i as int, v.len() as int);
        match find_exec(&v, i, v.len(), &pv) {
            None => {
                push_range(&mut out, &v, i, v.len());
                return out;
            },
            Some(k) => {
                proof {
                    lemma_find_from_result(rest, pat@, 0);
                    assert(rest.take(k as int) =~= v@.subrange(i as int, i + k));
                    assert(rest.skip(k + pat@.len()) =~= v@.subrange(
                        i + k + pat@.len(),
                        v.len() as int,
                    ));
                }
                let ghost before = out@;
                push_range(&mut out, &v, i, i + k);
                push_str(&mut out, rep);
                proof {
                    assert(before + replace_all(rest, pat@, rep@) == out@ + replace_all(
                        v@.subrange(i + k + pat@.len(), v.len() as int),
                        pat@,
                        rep@,
                    ));
                }
                i = i + k + pv.len();
            },
        }
    }
    out
}

// ───────────────────────────── UTF-8 length ─────────────────────────────

/// The number of bytes of `c` in UTF-8.
pub open spec fn char_width(c: char) -> nat {
    if (c as u32) < 0x80 {
        1
    } else if (c as u32) < 0x800 {
        2
    } else if (c as u32) < 0x10000 {
        3
    } else {
        4
    }
}

/// The number of bytes of `s` in UTF-8 (`str::len`).
pub open spec fn utf8_len(s: Seq<char>) -> nat
    decreases s.len(),
{
    if s.len() == 0 {
        0
    } else {
        utf8_len(s.drop_last()) + char_width(s.last())
    }
}

/// Byte lengths of prefixes grow with the prefix.
pub proof fn lemma_utf8_len_prefix(s: Seq<char>, j: int, k: int)
    requires
        0 <= j <= k <= s.len(),
    ensures
        utf8_len(s.take(j)) + (k - j) <= utf8_len(s.take(k)),
    decreases k - j,
{
    if j < k {
        lemma_utf8_len_prefix(s, j, k - 1);
        assert(s.take(k).drop_last() =~= s.take(k - 1));
    }
}

fn char_width_exec(c: char) -> (w: usize)
    ensures
        w == char_width(c),
{
    let u = c as u32;
    if u < 0x80 {
        1
    } else if u < 0x800 {
        2
    } else if u < 0x10000 {
        3
    } else {
        4
    }
}

/// The longest prefix of `v` that takes at most `n` bytes in UTF-8, as a number of
/// characters: the prefix ends at the last character boundary at or before byte `n`.
pub fn floor_prefix(v: &Vec<char>, n: usize) -> (r: (usize, usize))
    requires
        n <= usize::MAX - 4,
    ensures
        r.0 <= v@.len(),
        r.1 == utf8_len(v@.take(r.0 as int)),
        r.1 <= n,
        r.0 < v@.len() ==> utf8_len(v@.take(r.0 + 1)) > n,
{
    let mut k: usize = 0;
    let mut acc: usize = 0;
    assert(v@.take(0) =~= Seq::<char>::empty());
    while k < v.len()
        invariant
            k <= v@.len(),
            n <= usize::MAX - 4,
            acc == utf8_len(v@.take(k as int)),
            acc <= n,
        decreases v.len() - k,
    {
        let w = char_width_exec(v[k]);
        assert(v@.take(k + 1).drop_last() =~= v@.take(k as int));
        if acc + w > n {
            return (k, acc);
        }
        acc = acc + w;
        k = k + 1;
    }
    (k, acc)
}

/// The lowercase form of `s` by Unicode's case mapping (`str::to_lowercase`).
pub uninterp spec fn lowercase(s: Seq<char>) -> Seq<char>;

/// `str::to_lowercase`. What the Unicode case mapping gives is named by
/// [`lowercase`], not stated.
#[verifier::external_body]
pub(crate) fn to_lowercase(s: &str) -> (r: String)
    ensures
        r@ == lowercase(s@),
{
    s.to_lowercase()
}

// ───────────────────────────── numbers ─────────────────────────────

/// An ASCII decimal digit.
pub open spec fn is_digit(c: char) -> bool {
    '0' <= c && c <= '9'
}

/// The value of an ASCII decimal digit.
pub open spec fn digit_value(c: char) -> nat {
    (c as nat - '0' as nat) as nat
}

/// The number written by the decimal digits `s`.
pub open spec fn digits_value(s: Seq<char>) -> nat
    decreases s.len(),
{
    if s.len() == 0 {
        0
    } else {
        digits_value(s.drop_last()) * 10 + digit_value(s.last())
    }
}

/// Every character of `s` is a decimal digit.
pub open spec fn all_digits(s: Seq<char>) -> bool {
    forall|k: int| 0 <= k < s.len() ==> is_digit(#[trigger] s[k])
}

/// `s` without one leading `'+'`.
pub open spec fn unsigned_part(s: Seq<char>) -> Seq<char> {
    if s.len() > 0 && s[0] == '+' {
        s.drop_first()
    } else {
        s
    }
}

/// `str::parse::<u64>`: an optional `'+'`, then one or more decimal digits, in range.
pub open spec fn parse_u64(s: Seq<char>) -> Option<u64> {
    let d = unsigned_part(s);
    if d.len() > 0 && all_digits(d) && digits_value(d) <= u64::MAX {
        Some(digits_value(d) as u64)
    } else {
        None
    }
}

proof fn lemma_digits_monotone(s: Seq<char>, i: int, j: int)
    requires
        0 <= i <= j <= s.len(),
    ensures
        digits_value(s.take(i)) <= digits_value(s.take(j)),
    decreases j - i,
{
    if i < j {
        lemma_digits_monotone(s, i, j - 1);
        assert(s.take(j).drop_last() =~= s.take(j - 1));
    }
}

/// `str::parse::<u64>` on `v[lo..hi]`.
pub fn parse_u64_exec(v: &Vec<char>, lo: usize, hi: usize) -> (r: Option<u64>)
    requires
        lo <= hi <= v.len(),
    ensures
        r == parse_u64(v@.subrange(lo as int, hi as int)),
{
    let ghost s = v@.subrange(lo as int, hi as int);
    let start = if lo < hi && v[lo] == '+' {
        lo + 1
    } else {
        lo
    };
    let ghost d = v@.subrange(start as int, hi as int);
    assert(d =~= unsigned_part(s));
    if start == hi {
        return None;
    }
    let mut acc: u64 = 0;
    let mut i = start;
    assert(d.take(0) =~= Seq::<char>::empty());
    while i < hi
        invariant
            lo <= start <= i <= hi <= v.len(),
            d == v@.subrange(start as int, hi as int),
            s == v@.subrange(lo as int, hi as int),
            d == unsigned_part(s),
            forall|k: int| start <= k < i ==> is_digit(#[trigger] v@[k]),
            acc == digits_value(d.take(i - start)),
        decreases hi - i,
    {
        let c = v[i];
        assert(d[i - start] == c);
        if !('0' <= c && c <= '9') {
            proof {
                assert(!is_digit(d[i - start]));
            }
            return None;
        }
        let dv = (c as u32 - '0' as u32) as u64;
        proof {
            assert(d.take(i - start + 1).drop_last() =~= d.take(i - start));
            assert(d.take(i - start + 1).last() == c);
            assert(digits_value(d.take(i - start + 1)) == acc * 10 + dv);
        }
        match acc.checked_mul(10) {
            None => {
                proof {
                    lemma_digits_monotone(d, i - start + 1, d.len() as int);
                    assert(d.take(d.len() as int) =~= d);
                }
                return None;
            },
            Some(m) => match m.checked_add(dv) {
                None => {
                    proof {
                        lemma_digits_monotone(d, i - start + 1, d.len() as int);
                        assert(d.take(d.len() as int) =~= d);
                    }
                    return None;
                },
                Some(x) => {
                    acc = x;
                },
            },
        }
        i = i + 1;
    }
    assert(d.take(d.len() as int) =~= d);
    Some(acc)
}

/// Whether `v[lo..hi]` is exactly `pat`.
pub fn eq_range(v: &Vec<char>, lo: usize, hi: usize, pat: &Vec<char>) -> (b: bool)
    requires
        lo <= hi <= v.len(),
    ensures
        b == (v@.subrange(lo as int, hi as int) == pat@),
{
    if hi - lo != pat.len() {
        return false;
    }
    let r = matches_at_exec(v, lo, hi, pat, 0);
    assert(v@.subrange(lo as int, hi as int).subrange(0, pat@.len() as int) =~= v@.subrange(
        lo as int,
        hi as int,
    ));
    r
}

/// A `String` holding `v[lo..hi]`.
pub fn string_of_range(v: &Vec<char>, lo: usize, hi: usize) -> (s: String)
    requires
        lo <= hi <= v.len(),
    ensures
        s@ == v@.subrange(lo as int, hi as int),
{
    let mut s = String::new();
    push_range(&mut s, v, lo, hi);
    assert(s@ =~= v@.subrange(lo as int, hi as int));
    s
}

/// A `String` holding the characters of `t`.
pub fn string_from(t: &str) -> (s: String)
    ensures
        s@ == t@,
{
    let mut s = String::new();
    push_str(&mut s, t);
    assert(s@ =~= t@);
    s
}

/// The character of the digit `d` (`0`-`9`, then `a`-`f`).
pub open spec fn digit_char(d: nat) -> char {
    seq!['0', '1', '2', '3', '4', '5', '6', '7', '8', '9', 'a', 'b', 'c', 'd', 'e', 'f'][d as int]
}

/// The lowercase hexadecimal digit of `d`.
pub fn digit_char_exec(d: u64) -> (c: char)
    requires
        d < 16,
    ensures
        c == digit_char(d as nat),
{
    match d {
        0 => '0',
        1 => '1',
        2 => '2',
        3 => '3',
        4 => '4',
        5 => '5',
        6 => '6',
        7 => '7',
        8 => '8',
        9 => '9',
        10 => 'a',
        11 => 'b',
        12 => 'c',
        13 => 'd',
        14 => 'e',
        _ => 'f',
    }
}

/// The `n` lowest hexadecimal digits of `x`, most significant first, zero-padded.
pub open spec fn hex_digits(x: nat, n: nat) -> Seq<char>
    decreases n,
{
    if n == 0 {
        Seq::empty()
    } else {
        hex_digits(x / 16, (n - 1) as nat).push(digit_char(x % 16))
    }
}

/// The last `n` lowercase hexadecimal digits of `x` (see [`hex_digits`]).
pub fn hex_digits_exec(x: u64, n: u64) -> (v: Vec<char>)
    ensures
        v@ == hex_digits(x as nat, n as nat),
    decreases n,
{
    if n == 0 {
        Vec::new()
    } else {
        let mut v = hex_digits_exec(x / 16, n - 1);
        v.push(digit_char_exec(x % 16));
        v
    }
}

/// The decimal digits of `x`, most significant first, without leading zeros.
pub open spec fn decimal(x: nat) -> Seq<char>
    decreases x,
{
    if x < 10 {
        seq![digit_char(x)]
    } else {
        decimal(x / 10).push(digit_char(x % 10))
    }
}

/// Appends the decimal digits of `x`.
pub fn push_decimal(s: &mut String, x: u64)
    ensures
        final(s)@ == old(s)@ + decimal(x as nat),
    decreases x,
{
    if x < 10 {
        push_char(s, digit_char_exec(x));
        assert(final(s)@ =~= old(s)@ + decimal(x as nat));
    } else {
        push_decimal(s, x / 10);
        push_char(s, digit_char_exec(x % 10));
        assert(s@ =~= old(s)@ + decimal(x as nat));
    }
}

/// Whether two string slices hold the same characters.
pub fn str_eq(a: &str, b: &str) -> (r: bool)
    ensures
        r == (a@ == b@),
{
    string_from(a) == string_from(b)
}

// ───────────────────────────── lines ─────────────────────────────

/// `s` without one trailing carriage return, if it has one.
pub open spec fn strip_cr(s: Seq<char>) -> Seq<char> {
    if s.len() > 0 && s.last() == '\r' {
        s.drop_last()
    } else {
        s
    }
}

/// Splitting state after reading `s`: the lines ended by `'\n'` so far (each
/// without a trailing `'\r'`) and the characters of the unterminated line.
pub open spec fn split_state(s: Seq<char>) -> (Seq<Seq<char>>, Seq<char>)
    decreases s.len(),
{
    if s.len() == 0 {
        (Seq::empty(), Seq::empty())
    } else {
        let (done, cur) = split_state(s.drop_last());
        if s.last() == '\n' {
            (done.push(strip_cr(cur)), Seq::empty())
        } else {
            (done, cur.push(s.last()))
        }
    }
}

/// The lines of `s` as `str::lines` yields them.
pub open spec fn lines(s: Seq<char>) -> Seq<Seq<char>> {
    let (done, cur) = split_state(s);
    if cur.len() > 0 {
        done.push(cur)
    } else {
        done
    }
}

/// `ls` joined with `'\n'` (`[&str]::join("\n")`).
pub open spec fn join_lines(ls: Seq<Seq<char>>) -> Seq<char>
    decreases ls.len(),
{
    if ls.len() == 0 {
        Seq::empty()
    } else if ls.len() == 1 {
        ls[0]
    } else {
        join_lines(ls.drop_last()) + seq!['\n'] + ls.last()
    }
}

/// Joining one more line appends it after a newline.
pub proof fn lemma_join_push(ls: Seq<Seq<char>>, x: Seq<char>)
    ensures
        join_lines(ls.push(x)) == if ls.len() == 0 {
            x
        } else {
            join_lines(ls) + seq!['\n'] + x
        },
{
    assert(ls.push(x).drop_last() =~= ls);
}

// ───────────────────────────── building strings ─────────────────────────────

/// Appends one character (`String::push`).
#[verifier::external_body]
pub(crate) fn push_char(s: &mut String, c: char)
    ensures
        final(s)@ == old(s)@.push(c),
{
    s.push(c);
}

/// Appends `v[lo..hi]` to `s`.
pub fn push_range(s: &mut String, v: &Vec<char>, lo: usize, hi: usize)
    requires
        lo <= hi <= v.len(),
    ensures
        final(s)@ == old(s)@ + v@.subrange(lo as int, hi as int),
{
    let ghost start = s@;
    let mut i = lo;
    while i < hi
        invariant
            lo <= i <= hi <= v.len(),
            s@ == start + v@.subrange(lo as int, i as int),
        decreases hi - i,
    {
        push_char(s, v[i]);
        proof {
            assert(v@.subrange(lo as int, i + 1) =~= v@.subrange(lo as int, i as int).push(
                v@[i as int],
            ));
        }
        i = i + 1;
    }
}

/// A `String` holding exactly the characters of `v`.
pub fn string_of(v: &Vec<char>) -> (s: String)
    ensures
        s@ == v@,
{
    let mut s = String::new();
    push_range(&mut s, v, 0, v.len());
    proof {
        assert(v@.subrange(0, v.len() as int) =~= v@);
    }
    s
}

/// Appends a string slice (`String::push_str`).
pub fn push_str(s: &mut String, t: &str)
    ensures
        final(s)@ == old(s)@ + t@,
{
    s.append(t);
}

/// The characters of a string slice, in order.
pub fn chars_of(s: &str) -> (v: Vec<char>)
    ensures
        v@ == s@,
{
    broadcast use vstd::string::group_string_axioms;

    let mut v: Vec<char> = Vec::new();
    for c in it: s.chars()
        invariant
            v@ == it.seq().take(it.index() as int),
    {
        v.push(c);
    }
    v
}

} // verus!

verus! {

/// Whether one of `v` reads `s`.
pub fn contains_str(v: &Vec<String>, s: &str) -> (b: bool)
    ensures
        b == views(v@).contains(s@),
{
    let mut i: usize = 0;
    while i < v.len()
        invariant
            i <= v@.len(),
            forall|k: int| 0 <= k < i ==> (#[trigger] v@[k])@ != s@,
        decreases v.len() - i,
    {
        if str_eq(v[i].as_str(), s) {
            assert(views(v@)[i as int] == s@);
            return true;
        }
        i = i + 1;
    }
    assert forall|k: int| 0 <= k < views(v@).len() implies views(v@)[k] != s@ by {
        assert(views(v@)[k] == v@[k]@);
    }
    false
}

/// A copy of a list of strings.
pub fn copy_strings(v: &Vec<String>) -> (r: Vec<String>)
    ensures
        r@.len() == v@.len(),
        forall|i: int| 0 <= i < v@.len() ==> (#[trigger] r@[i])@ == v@[i]@,
{
    let mut r: Vec<String> = Vec::new();
    let mut i: usize = 0;
    while i < v.len()
        invariant
            i <= v@.len(),
            r@.len() == i,
            forall|k: int| 0 <= k < i ==> (#[trigger] r@[k])@ == v@[k]@,
        decreases v.len() - i,
    {
        r.push(string_from(v[i].as_str()));
        i = i + 1;
    }
    r
}

} // verus!

verus! {

/// The texts of a list of strings.
pub open spec fn views(v: Seq<String>) -> Seq<Seq<char>> {
    v.map_values(|x: String| x@)
}

/// `items` joined by `sep` (`join`).
pub open spec fn joined(items: Seq<Seq<char>>, sep: Seq<char>) -> Seq<char>
    decreases items.len(),
{
    if items.len() == 0 {
        Seq::empty()
    } else if items.len() == 1 {
        items[0]
    } else {
        joined(items.drop_last(), sep) + sep + items.last()
    }
}

/// `items` joined by `sep` (see [`joined`]).
pub fn join_strings(items: &Vec<String>, sep: &str) -> (s: String)
    ensures
        s@ == joined(views(items@), sep@),
{
    let ghost all = views(items@);
    let mut s = String::new();
    let mut i: usize = 0;
    while i < items.len()
        invariant
            i <= items@.len(),
            all == views(items@),
            s@ == joined(all.take(i as int), sep@),
        decreases items.len() - i,
    {
        if i > 0 {
            push_str(&mut s, sep);
        }
        push_str(&mut s, items[i].as_str());
        assert(all.take(i + 1).drop_last() =~= all.take(i as int));
        i = i + 1;
    }
    assert(all.take(all.len() as int) =~= all);
    s
}

} // verus!

verus! {

/// The text of an optional string, empty when absent.
pub open spec fn str_or_empty(o: Option<String>) -> Seq<char> {
    match o {
        Some(s) => s@,
        None => Seq::empty(),
    }
}

/// The text of an optional string, empty when absent (`unwrap_or_default`).
pub fn or_empty_string(o: &Option<String>) -> (s: String)
    ensures
        s@ == str_or_empty(*o),
{
    match o {
        Some(s) => string_from(s.as_str()),
        None => String::new(),
    }
}

} // verus!
