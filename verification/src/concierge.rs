//! The concierge: what it keeps of a room's conversation in Farga, which
//! messages it reads as signals, and when each system agent's tick comes.

use vstd::prelude::*;
use crate::farga::Signal;
use crate::responder::history_lines;
use crate::text::{
    chars_of, contains, find_exec, floor_prefix, lowercase, lemma_utf8_len_prefix, push_range,
    push_str, string_from, to_lowercase, utf8_len,
};
use crate::types::{ChatEvent, ProjectId, RoomId, UserId};

verus! {

/// Bytes of a room harvest kept in one signal.
pub const HARVEST_MAX_BYTES: usize = 8000;

/// The project harvests and archival signals are filed under.
pub const ARCHIVAL_PROJECT: &'static str = "occitan";

/// The source named on archival signals.
pub const ARCHIVAL_SOURCE: &'static str = "concierge-archival";

/// The words that make a message a signal, in lowercase.
pub open spec fn signal_keywords() -> Seq<Seq<char>> {
    seq!["decision:"@, "decided:"@, "blocker:"@, "blocked:"@, "artifact:"@, "pattern:"@]
}

/// Whether a message, in lowercase, holds one of the signal keywords.
pub open spec fn is_signal(content: Seq<char>) -> bool {
    exists|k: int| 0 <= k < 6 && contains(lowercase(content), #[trigger] signal_keywords()[k])
}

/// The signals among the first `n` events: each message holding a keyword, filed
/// under its room.
pub open spec fn signals_of(events: Seq<ChatEvent>, n: int) -> Seq<(Seq<char>, Seq<char>)>
    decreases n,
{
    if n <= 0 {
        Seq::empty()
    } else {
        signals_of(events, n - 1) + if is_signal(events[n - 1].content@) {
            seq![(events[n - 1].room_id@, events[n - 1].content@)]
        } else {
            Seq::empty()
        }
    }
}

fn holds_keyword(lower: &Vec<char>) -> (b: bool)
    ensures
        b == exists|k: int| 0 <= k < 6 && contains(lower@, #[trigger] signal_keywords()[k]),
{
    let kws: [&'static str; 6] = ["decision:", "decided:", "blocker:", "blocked:", "artifact:", "pattern:"];
    assert(kws@.map_values(|s: &str| s@) =~= signal_keywords());
    let mut i: usize = 0;
    assert(lower@.subrange(0, lower.len() as int) =~= lower@);
    while i < 6
        invariant
            i <= 6,
            kws@.map_values(|s: &str| s@) == signal_keywords(),
            lower@.subrange(0, lower@.len() as int) == lower@,
            forall|k: int| 0 <= k < i ==> !contains(lower@, #[trigger] signal_keywords()[k]),
        decreases 6 - i,
    {
        assert(kws@.map_values(|s: &str| s@)[i as int] == kws@[i as int]@);
        let kw = chars_of(kws[i]);
        if find_exec(lower, 0, lower.len(), &kw).is_some() {
            assert(contains(lower@, signal_keywords()[i as int]));
            return true;
        }
        i = i + 1;
    }
    false
}

/// The signals among `events`: each message holding one of the keywords
/// (`decision:`, `decided:`, `blocker:`, `blocked:`, `artifact:`, `pattern:`, in
/// any case), filed under its room, from the archival source.
pub fn extract_signals(events: &[ChatEvent]) -> (sigs: Vec<Signal>)
    ensures
        sigs@.map_values(|s: Signal| (s.project@, s.content@)) == signals_of(events@, events@.len() as int),
        forall|i: int| 0 <= i < sigs@.len() ==> (#[trigger] sigs@[i]).source@ == ARCHIVAL_SOURCE@,
{
    let mut sigs: Vec<Signal> = Vec::new();
    let mut i: usize = 0;
    while i < events.len()
        invariant
            i <= events@.len(),
            sigs@.map_values(|s: Signal| (s.project@, s.content@)) == signals_of(events@, i as int),
            forall|k: int| 0 <= k < sigs@.len() ==> (#[trigger] sigs@[k]).source@ == ARCHIVAL_SOURCE@,
        decreases events.len() - i,
    {
        let e = &events[i];
        let lower = to_lowercase(e.content.as_str());
        let lv = chars_of(lower.as_str());
        let ghost before = sigs@.map_values(|s: Signal| (s.project@, s.content@));
        if holds_keyword(&lv) {
            sigs.push(
                Signal {
                    project: e.room_id.to_string(),
                    content: string_from(e.content.as_str()),
                    source: string_from(ARCHIVAL_SOURCE),
                },
            );
            assert(sigs@.map_values(|s: Signal| (s.project@, s.content@)) =~= before.push(
                (e.room_id@, e.content@),
            ));
        }
        i = i + 1;
    }
    sigs
}

/// A room's recent conversation as one text: a header naming the room, then one
/// line `sender: content` per message.
pub open spec fn harvest_text(room: Seq<char>, events: Seq<ChatEvent>) -> Seq<char> {
    "[room harvest: "@ + room + "]\n"@ + history_lines(events)
}

/// The harvest as kept: cut at the last character boundary at or before
/// [`HARVEST_MAX_BYTES`] and marked when longer.
pub open spec fn kept_harvest(text: Seq<char>) -> Seq<char> {
    if utf8_len(text) <= HARVEST_MAX_BYTES {
        text
    } else {
        text.take(harvest_cut(text)) + "\n…(truncated)"@
    }
}

/// The number of characters kept of a long harvest: the most whose UTF-8 fits.
pub open spec fn harvest_cut(text: Seq<char>) -> int {
    choose|k: int|
        0 <= k < text.len() && #[trigger] utf8_len(text.take(k)) <= HARVEST_MAX_BYTES && utf8_len(
            text.take(k + 1),
        ) > HARVEST_MAX_BYTES
}

/// A room's recent conversation as one durable digest (see [`harvest_text`] and
/// [`kept_harvest`]).
pub fn harvest_digest(room: &RoomId, events: &[ChatEvent]) -> (s: String)
    ensures
        s@ == kept_harvest(harvest_text(room@, events@)),
{
    let mut s = string_from("[room harvest: ");
    push_str(&mut s, room.as_str());
    push_str(&mut s, "]\n");
    let mut i: usize = 0;
    assert(events@.take(0) =~= Seq::<ChatEvent>::empty());
    while i < events.len()
        invariant
            i <= events@.len(),
            s@ == "[room harvest: "@ + room@ + "]\n"@ + history_lines(events@.take(i as int)),
        decreases events.len() - i,
    {
        let e = &events[i];
        push_str(&mut s, e.sender.as_str());
        push_str(&mut s, ": ");
        push_str(&mut s, e.content.as_str());
        push_str(&mut s, "\n");
        assert(events@.take(i + 1).drop_last() =~= events@.take(i as int));
        i = i + 1;
    }
    assert(events@.take(events@.len() as int) =~= events@);
    let v = chars_of(s.as_str());
    let (k, _) = floor_prefix(&v, HARVEST_MAX_BYTES);
    if k == v.len() {
        assert(v@.take(v@.len() as int) =~= v@);
        return s;
    }
    let mut out = String::new();
    push_range(&mut out, &v, 0, k);
    push_str(&mut out, "\n…(truncated)");
    proof {
        let t = v@;
        assert(t.subrange(0, k as int) =~= t.take(k as int));
        lemma_utf8_len_prefix(t, k + 1, t.len() as int);
        assert(t.take(t.len() as int) =~= t);
        let c = harvest_cut(t);
        if c < k {
            lemma_utf8_len_prefix(t, c + 1, k as int);
        } else if c > k {
            lemma_utf8_len_prefix(t, k + 1, c);
        }
        assert(c == k);
    }
    out
}

/// The signal the archival sweep files for a room's recent events; none for a
/// quiet room.
pub fn archival_signal(room: &RoomId, events: &[ChatEvent]) -> (sig: Option<Signal>)
    ensures
        events@.len() == 0 ==> sig is None,
        events@.len() > 0 ==> (sig matches Some(s) && s.project@ == ARCHIVAL_PROJECT@ && s.content@
            == kept_harvest(harvest_text(room@, events@)) && s.source@ == ARCHIVAL_SOURCE@),
{
    if events.len() == 0 {
        return None;
    }
    Some(
        Signal {
            project: string_from(ARCHIVAL_PROJECT),
            content: harvest_digest(room, events),
            source: string_from(ARCHIVAL_SOURCE),
        },
    )
}

/// When an agent ticking every `interval` and next due at `next` is due after a
/// look at the schedule at `now`: one interval after `now` (saturating) if it
/// was due then, else still at `next`.
pub open spec fn next_after(interval: u64, next: u64, now: u64) -> u64 {
    if now >= next {
        now.saturating_add(interval)
    } else {
        next
    }
}

/// An agent ticks at most once at a given time: with a positive interval, once
/// the schedule has been looked at `now`, the agent is not due at `now` again.
pub proof fn law_one_tick_per_instant(interval: u64, next: u64, now: u64)
    requires
        interval > 0,
        now < u64::MAX,
    ensures
        now < next_after(interval, next, now),
{
}

/// When each system agent ticks next (milliseconds), and how often.
pub struct TickSchedule {
    pub intervals: Vec<u64>,
    pub next: Vec<u64>,
}

impl TickSchedule {
    pub open spec fn wf(&self) -> bool {
        self.intervals@.len() == self.next@.len()
    }

    /// No agent yet.
    pub fn new() -> (s: Self)
        ensures
            s.wf(),
            s.intervals@.len() == 0,
    {
        TickSchedule { intervals: Vec::new(), next: Vec::new() }
    }

    /// Adds an agent ticking every `interval_ms`, first at `now_ms + interval_ms`
    /// (saturating).
    pub fn add(&mut self, interval_ms: u64, now_ms: u64)
        requires
            old(self).wf(),
        ensures
            final(self).wf(),
            final(self).intervals@ == old(self).intervals@.push(interval_ms),
            final(self).next@ == old(self).next@.push(now_ms.saturating_add(interval_ms)),
    {
        self.intervals.push(interval_ms);
        self.next.push(now_ms.saturating_add(interval_ms));
    }

    /// The agents whose tick is due at `now_ms`, in order; each is rescheduled
    /// one interval after `now_ms` (saturating), the others keep their time.
    pub fn due(&mut self, now_ms: u64) -> (due: Vec<usize>)
        requires
            old(self).wf(),
        ensures
            final(self).wf(),
            final(self).intervals@ == old(self).intervals@,
            forall|i: int|
                0 <= i < old(self).next@.len() ==> #[trigger] final(self).next@[i] == next_after(
                    old(self).intervals@[i],
                    old(self).next@[i],
                    now_ms,
                ),
            forall|k: int| 0 <= k < due@.len() ==> (#[trigger] due@[k]) < old(self).next@.len()
                && now_ms >= old(self).next@[due@[k] as int],
            forall|i: int|
                0 <= i < old(self).next@.len() && now_ms >= old(self).next@[i] ==> exists|k: int|
                    0 <= k < due@.len() && #[trigger] due@[k] == i,
            forall|a: int, b: int| 0 <= a < b < due@.len() ==> due@[a] < due@[b],
    {
        let mut due: Vec<usize> = Vec::new();
        let mut i: usize = 0;
        while i < self.next.len()
            invariant
                self.intervals@ == old(self).intervals@,
                self.next@.len() == old(self).next@.len(),
                self.intervals@.len() == self.next@.len(),
                i <= self.next@.len(),
                forall|j: int| i <= j < self.next@.len() ==> #[trigger] self.next@[j] == old(self).next@[j],
                forall|j: int|
                    0 <= j < i ==> #[trigger] self.next@[j] == if now_ms >= old(self).next@[j] {
                        now_ms.saturating_add(old(self).intervals@[j])
                    } else {
                        old(self).next@[j]
                    },
                forall|k: int| 0 <= k < due@.len() ==> (#[trigger] due@[k]) < i && now_ms >= old(self).next@[due@[k] as int],
                forall|j: int| 0 <= j < i && now_ms >= old(self).next@[j] ==> exists|k: int|
                    0 <= k < due@.len() && #[trigger] due@[k] == j,
                forall|a: int, b: int| 0 <= a < b < due@.len() ==> due@[a] < due@[b],
            decreases self.next.len() - i,
        {
            if now_ms >= self.next[i] {
                let n = now_ms.saturating_add(self.intervals[i]);
                self.next.set(i, n);
                let ghost before = due@;
                due.push(i);
                assert(due@[before.len() as int] == i);
                assert forall|j: int| 0 <= j < i + 1 && now_ms >= old(self).next@[j] implies exists|k: int|
                    0 <= k < due@.len() && #[trigger] due@[k] == j by {
                    if j < i {
                        let k = choose|k: int| 0 <= k < before.len() && #[trigger] before[k] == j;
                        assert(due@[k] == j);
                    } else {
                        assert(due@[before.len() as int] == j);
                    }
                }
            }
            i = i + 1;
        }
        due
    }
}

/// The concierge's own settings: the projects it looks after, their agents, and
/// its sweep intervals and budget.
pub struct ConciergeAgent {
    pub projects: Vec<ProjectId>,
    pub project_agent_ids: Vec<(String, UserId)>,
    pub archival_interval_hours: u64,
    pub convergence_interval_hours: u64,
    pub daily_token_budget: u32,
    pub schedule: TickSchedule,
}

impl ConciergeAgent {
    pub fn new(
        projects: Vec<ProjectId>,
        project_agent_ids: Vec<(String, UserId)>,
        archival_interval_hours: u64,
        convergence_interval_hours: u64,
        daily_token_budget: u32,
    ) -> (c: Self)
        ensures
            c.projects == projects,
            c.project_agent_ids == project_agent_ids,
            c.archival_interval_hours == archival_interval_hours,
            c.convergence_interval_hours == convergence_interval_hours,
            c.daily_token_budget == daily_token_budget,
            c.schedule.wf(),
            c.schedule.intervals@.len() == 0,
    {
        ConciergeAgent {
            projects,
            project_agent_ids,
            archival_interval_hours,
            convergence_interval_hours,
            daily_token_budget,
            schedule: TickSchedule::new(),
        }
    }

    /// Schedules one more system agent, ticking every `interval_ms` from `now_ms`;
    /// its index is returned.
    pub fn register_system_agent(&mut self, interval_ms: u64, now_ms: u64) -> (index: usize)
        requires
            old(self).schedule.wf(),
        ensures
            final(self).schedule.wf(),
            index == old(self).schedule.intervals@.len(),
            final(self).schedule.intervals@ == old(self).schedule.intervals@.push(interval_ms),
            final(self).projects == old(self).projects,
    {
        let index = self.schedule.intervals.len();
        self.schedule.add(interval_ms, now_ms);
        index
    }

    /// The start of the archival window ending at `now_ms`, in milliseconds.
    pub fn archival_since(&self, now_ms: i64) -> (since: i64)
        ensures
            since == now_ms - (self.archival_interval_hours as int) * 3_600_000 || (since == i64::MIN && now_ms - (self.archival_interval_hours as int) * 3_600_000 < i64::MIN),
    {
        let span: i128 = (self.archival_interval_hours as i128) * 3_600_000;
        let s: i128 = (now_ms as i128) - span;
        if s < (i64::MIN as i128) {
            i64::MIN
        } else {
            s as i64
        }
    }
}

} // verus!
