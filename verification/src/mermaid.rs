//! Mermaid diagram blocks in a chat message.

use vstd::prelude::*;
use crate::text::{
    find, find_exec, lemma_find_from_result, lemma_strip_start_skip, string_of_range, strip_start_by,
    trim, trim_bounds,
};

verus! {

/// The opening fence of a Mermaid block.
pub open spec fn mermaid_open() -> Seq<char> {
    seq!['`', '`', '`', 'm', 'e', 'r', 'm', 'a', 'i', 'd']
}

/// The closing fence of a code block.
pub open spec fn fence() -> Seq<char> {
    seq!['`', '`', '`']
}

/// `s` without leading `'\n'`s, then without leading `'\r'`s.
pub open spec fn skip_newlines(s: Seq<char>) -> Seq<char> {
    strip_start_by(strip_start_by(s, |c: char| c == '\n'), |c: char| c == '\r')
}

proof fn lemma_strip_start_len(s: Seq<char>, p: spec_fn(char) -> bool)
    ensures
        strip_start_by(s, p).len() <= s.len(),
        strip_start_by(s, p) == s.skip(s.len() - strip_start_by(s, p).len()),
    decreases s.len(),
{
    if s.len() > 0 && p(s[0]) {
        lemma_strip_start_len(s.drop_first(), p);
        let k = s.len() - strip_start_by(s, p).len();
        assert(s.drop_first().skip(k - 1) =~= s.skip(k));
    } else {
        assert(s.skip(0) =~= s);
    }
}

/// The non-empty, trimmed bodies of the Mermaid blocks of `rest`, in order. A block
/// opened but never closed ends the scan.
pub open spec fn mermaid_blocks(rest: Seq<char>) -> Seq<Seq<char>>
    decreases rest.len(),
{
    match find(rest, mermaid_open()) {
        None => Seq::empty(),
        Some(start) => {
            let body = skip_newlines(rest.skip(start + 10));
            match find(body, fence()) {
                None => Seq::empty(),
                Some(end) => {
                    let diagram = trim(body.take(end));
                    let next = body.skip(end + 3);
                    if 0 <= start && start + 10 <= rest.len() && 0 <= end && end + 3
                        <= body.len() && body.len() <= rest.len() - (start + 10) {
                        if diagram.len() > 0 {
                            seq![diagram] + mermaid_blocks(next)
                        } else {
                            mermaid_blocks(next)
                        }
                    } else {
                        Seq::empty()
                    }
                },
            }
        },
    }
}

/// Bounds of a search result and of the newline-skipping that follows it.
proof fn lemma_block_bounds(rest: Seq<char>, start: int, body: Seq<char>, end: int)
    requires
        find(rest, mermaid_open()) == Some(start),
        body == skip_newlines(rest.skip(start + 10)),
        find(body, fence()) == Some(end),
    ensures
        0 <= start && start + 10 <= rest.len(),
        0 <= end && end + 3 <= body.len(),
        body.len() <= rest.len() - (start + 10),
{
    lemma_find_from_result(rest, mermaid_open(), 0);
    lemma_find_from_result(body, fence(), 0);
    let a = rest.skip(start + 10);
    lemma_strip_start_len(a, |c: char| c == '\n');
    lemma_strip_start_len(strip_start_by(a, |c: char| c == '\n'), |c: char| c == '\r');
}

/// Every ```` ```mermaid ```` block of `content`, trimmed, in order; empty blocks
/// are left out.
pub fn extract_mermaid_blocks(content: &str) -> (blocks: Vec<String>)
    ensures
        blocks@.map_values(|b: String| b@) == mermaid_blocks(content@),
{
    let v = crate::text::chars_of(content);
    let open = crate::text::chars_of("```mermaid");
    let close = crate::text::chars_of("```");
    proof {
        reveal_strlit("```mermaid");
        reveal_strlit("```");
        assert(open@ =~= mermaid_open());
        assert(close@ =~= fence());
    }
    let n = v.len();
    let mut blocks: Vec<String> = Vec::new();
    let mut pos: usize = 0;
    let ghost mut found: Seq<Seq<char>> = Seq::empty();
    assert(v@.subrange(0, n as int) =~= v@);
    loop
        invariant
            n == v.len(),
            pos <= n,
            open@ == mermaid_open(),
            close@ == fence(),
            blocks@.map_values(|b: String| b@) == found,
            found + mermaid_blocks(v@.subrange(pos as int, n as int)) == mermaid_blocks(v@),
        ensures
            blocks@.map_values(|b: String| b@) == mermaid_blocks(v@),
        decreases n - pos,
    {
        let ghost rest = v@.subrange(pos as int, n as int);
        match find_exec(&v, pos, n, &open) {
            None => {
                assert(found + mermaid_blocks(rest) =~= found);
                break ;
            },
            Some(start) => {
                proof {
                    lemma_find_from_result(rest, mermaid_open(), 0);
                }
                let mut b = pos + start + 10;
                while b < n && v[b] == '\n'
                    invariant
                        pos + start + 10 <= b <= n == v.len(),
                        forall|k: int| pos + start + 10 <= k < b ==> #[trigger] v@[k] == '\n',
                    decreases n - b,
                {
                    b = b + 1;
                }
                let ghost a = v@.subrange(pos + start + 10, n as int);
                proof {
                    assert(a =~= rest.skip(start + 10));
                    assert forall|k: int| 0 <= k < b - (pos + start + 10) implies (|c: char|
                        c == '\n')(#[trigger] a[k]) by {
                        assert(a[k] == v@[pos + start + 10 + k]);
                    }
                    lemma_strip_start_skip(a, |c: char| c == '\n', b - (pos + start + 10));
                    assert(a.skip(b - (pos + start + 10)) =~= v@.subrange(b as int, n as int));
                }
                let b1 = b;
                while b < n && v[b] == '\r'
                    invariant
                        b1 <= b <= n == v.len(),
                        forall|k: int| b1 <= k < b ==> #[trigger] v@[k] == '\r',
                    decreases n - b,
                {
                    b = b + 1;
                }
                let ghost a1 = v@.subrange(b1 as int, n as int);
                proof {
                    assert forall|k: int| 0 <= k < b - b1 implies (|c: char| c == '\r')(
                        #[trigger] a1[k],
                    ) by {
                        assert(a1[k] == v@[b1 + k]);
                    }
                    lemma_strip_start_skip(a1, |c: char| c == '\r', b - b1);
                    assert(a1.skip(b - b1) =~= v@.subrange(b as int, n as int));
                }
                let ghost body = v@.subrange(b as int, n as int);
                assert(body == skip_newlines(rest.skip(start + 10)));
                match find_exec(&v, b, n, &close) {
                    None => {
                        assert(found + mermaid_blocks(rest) =~= found);
                        break ;
                    },
                    Some(end) => {
                        proof {
                            lemma_block_bounds(rest, start as int, body, end as int);
                            assert(body.take(end as int) =~= v@.subrange(
                                b as int,
                                b + end,
                            ));
                            assert(body.skip(end + 3) =~= v@.subrange(b + end + 3, n as int));
                        }
                        let (d0, d1) = trim_bounds(&v, b, b + end);
                        if d1 > d0 {
                            blocks.push(string_of_range(&v, d0, d1));
                            proof {
                                let d = v@.subrange(d0 as int, d1 as int);
                                assert(found.push(d) + mermaid_blocks(body.skip(end + 3))
                                    =~= found + mermaid_blocks(rest));
                                found = found.push(d);
                            }
                        }
                        pos = b + end + 3;
                    },
                }
            },
        }
    }
    blocks
}

/// Seconds a diagram rendering may take.
pub const KROKI_TIMEOUT_SECS: u64 = 15;

/// Where Kroki at `kroki_url` renders Mermaid to SVG.
pub fn kroki_svg_url(kroki_url: &str) -> (url: String)
    ensures
        url@ == kroki_url@ + "/mermaid/svg"@,
{
    let mut url = crate::text::string_from(kroki_url);
    crate::text::push_str(&mut url, "/mermaid/svg");
    url
}

/// What a rendering comes to: the SVG when Kroki answered with success, else an
/// error naming the status Kroki gave (as displayed) and the body it sent.
pub fn kroki_result(success: bool, status: &str, body: &str, svg: Vec<u8>) -> (r: Result<Vec<u8>, String>)
    ensures
        success ==> r == Ok::<Vec<u8>, String>(svg),
        !success ==> (r matches Err(m) && m@ == "Kroki returned "@ + status@ + ": "@ + body@),
{
    if success {
        Ok(svg)
    } else {
        let mut m = crate::text::string_from("Kroki returned ");
        crate::text::push_str(&mut m, status);
        crate::text::push_str(&mut m, ": ");
        crate::text::push_str(&mut m, body);
        Err(m)
    }
}

} // verus!
