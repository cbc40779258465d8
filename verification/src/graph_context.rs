//! The transcript handed to the graph extractor that collapses a room's long
//! conversation: each prior message, then the new one, as `sender: content`
//! lines. The graph itself lives with Amassada, outside the library.

use vstd::prelude::*;
use crate::responder::history_lines;
use crate::text::push_str;
use crate::types::ChatEvent;

verus! {

/// The transcript segment of `history` followed by `latest`: one
/// `sender: content` line per message, oldest first.
pub fn transcript_segment(history: &[ChatEvent], latest: &ChatEvent) -> (s: String)
    ensures
        s@ == history_lines(history@.push(*latest)),
{
    let mut s = String::new();
    let mut i: usize = 0;
    while i < history.len()
        invariant
            i <= history@.len(),
            s@ == history_lines(history@.take(i as int)),
        decreases history.len() - i,
    {
        let e = &history[i];
        push_str(&mut s, e.sender.as_str());
        push_str(&mut s, ": ");
        push_str(&mut s, e.content.as_str());
        push_str(&mut s, "\n");
        assert(history@.take(i + 1).drop_last() =~= history@.take(i as int));
        i = i + 1;
    }
    assert(history@.take(i as int) =~= history@);
    assert(history@.push(*latest).drop_last() =~= history@);
    push_str(&mut s, latest.sender.as_str());
    push_str(&mut s, ": ");
    push_str(&mut s, latest.content.as_str());
    push_str(&mut s, "\n");
    s
}

} // verus!
