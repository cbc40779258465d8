//! The cross-domain Farcaster: it receives the digests of the domain Farcasters,
//! has the analyzer look for connections across domains, tells the pressing ones
//! in its room, and on each tick has the kept ones synthesized into an org-level
//! digest, offered to Farga when the synthesis says so.
//!
//! The analyzer, the room and Farga are driven from outside; each step here says
//! what to ask of them and keeps the Farcaster's buffers and token budgets.

use vstd::prelude::*;
use crate::farcaster::analyzer::DigestSynthesis;
use crate::farcaster::concurrence::{is_pressing, pressing, Urgency};
use crate::farcaster::digest::{
    dedup, digest_text, format_digest, latest, push_capped, push_ring, unique_ids, DigestScope,
};
use crate::farcaster::governance::{FargaLayer, GovernanceContribution};
use crate::farcaster::observation::{digest_summary, DomainDigestEvent};
use crate::pairs::{find_key, last_key_index, lemma_last_key_index};
use crate::text::{copy_strings, push_str, str_eq, string_from};
use crate::types::ProjectId;

verus! {

/// The room the cross-domain Farcaster speaks in.
pub const CROSS_DOMAIN_ROOM: &'static str = "#farcaster-cross-domain";

/// Digests kept per domain.
pub const BUFFER_CAP: usize = 30;

/// Digests of a domain shown to the analyzer.
pub const SNAPSHOT_DEPTH: usize = 3;

/// Tokens the reactive analysis may spend per day.
pub const CROSS_DOMAIN_REACTIVE_BUDGET: u32 = 30_000;

/// Tokens the digest synthesis may spend per day.
pub const CROSS_DOMAIN_DIGEST_BUDGET: u32 = 15_000;

/// What is known of one domain for a cross-domain analysis.
#[derive(Debug, Clone)]
pub struct DomainSnapshot {
    pub domain: String,
    /// Summaries of its latest digests, newest first.
    pub recent_digests: Vec<String>,
}

/// What is known of all domains.
#[derive(Debug, Clone)]
pub struct CrossDomainSnapshot {
    pub domains: Vec<DomainSnapshot>,
}

/// A connection the analysis found between two domains.
#[derive(Debug, Clone)]
pub struct CrossDomainConnection {
    pub from_domain: String,
    pub to_domain: String,
    pub connection_type: String,
    pub summary: String,
    pub urgency: Urgency,
}

/// A connection kept for the next digest.
#[derive(Debug, Clone)]
pub struct CrossDomainEntry {
    pub from_domain: String,
    pub connection_summary: String,
    pub involved_domains: Vec<String>,
    pub urgency: Urgency,
    /// Milliseconds since the Unix epoch.
    pub first_observed_at: i64,
}

/// What a received digest leads to.
#[derive(Debug, Clone)]
pub enum DigestStep {
    /// The reactive budget is spent: the digest was kept for the next synthesis.
    Deferred,
    /// Ask the analyzer about the digest, with this snapshot.
    Analyze(CrossDomainSnapshot),
}

/// What a tick leads to.
#[derive(Debug, Clone)]
pub enum TickStep {
    /// Nothing was kept.
    Idle,
    /// The digest budget is spent: the entries stay for a later tick.
    Deferred,
    /// Have these entries synthesized (they left the buffer).
    Synthesize(Vec<CrossDomainEntry>),
}

/// What a synthesis leads to: the digest to post in the room, and the
/// contribution to offer Farga when the synthesis asks for it.
#[derive(Debug, Clone)]
pub struct SynthesisPlan {
    pub broadcast: String,
    pub contribution: Option<GovernanceContribution>,
}

/// The cross-domain Farcaster's state.
pub struct CrossDomainFarcaster {
    /// Per domain, its latest digests, oldest first.
    pub domain_buffer: Vec<(String, Vec<DomainDigestEvent>)>,
    /// Connections kept for the next synthesis.
    pub entry_buffer: Vec<CrossDomainEntry>,
    pub daily_reactive_token_budget: u32,
    pub daily_digest_token_budget: u32,
    pub reactive_tokens_used: u32,
    pub digest_tokens_used: u32,
}

/// The message telling the room of a pressing connection.
pub open spec fn whisper_text(c: CrossDomainConnection) -> Seq<char> {
    "[cross-domain] "@ + c.from_domain@ + " × "@ + c.to_domain@ + ": "@ + c.summary@
}

/// The entry kept for a connection observed at `now`.
pub open spec fn entry_of(c: CrossDomainConnection, e: CrossDomainEntry, now: i64) -> bool {
    &&& e.from_domain@ == c.from_domain@
    &&& e.connection_summary@ == c.summary@
    &&& e.involved_domains@.len() == 2
    &&& e.involved_domains@[0]@ == c.from_domain@
    &&& e.involved_domains@[1]@ == c.to_domain@
    &&& e.urgency == c.urgency
    &&& e.first_observed_at == now
}

/// The connections of `cs` that are told right away, as messages, in order.
pub open spec fn whispers(cs: Seq<CrossDomainConnection>) -> Seq<Seq<char>>
    decreases cs.len(),
{
    if cs.len() == 0 {
        Seq::empty()
    } else {
        whispers(cs.drop_last()) + if is_pressing(cs.last().urgency) {
            seq![whisper_text(cs.last())]
        } else {
            Seq::empty()
        }
    }
}

/// The earliest first observation among `entries`, `now` for none.
pub open spec fn earliest(entries: Seq<CrossDomainEntry>, now: i64) -> i64
    decreases entries.len(),
{
    if entries.len() == 0 {
        now
    } else if entries.len() == 1 {
        entries[0].first_observed_at
    } else {
        let rest = earliest(entries.drop_last(), now);
        if entries.last().first_observed_at < rest {
            entries.last().first_observed_at
        } else {
            rest
        }
    }
}

/// The domains involved in `entries`, in order, with repeats.
pub open spec fn involved(entries: Seq<CrossDomainEntry>) -> Seq<Seq<char>>
    decreases entries.len(),
{
    if entries.len() == 0 {
        Seq::empty()
    } else {
        involved(entries.drop_last()) + entries.last().involved_domains@.map_values(|d: String| d@)
    }
}

impl CrossDomainFarcaster {
    /// Domains occur once; each keeps at most [`BUFFER_CAP`] digests.
    pub closed spec fn wf(&self) -> bool {
        &&& forall|i: int, j: int|
            0 <= i < j < self.domain_buffer@.len() ==> (#[trigger] self.domain_buffer@[i]).0@
                != (#[trigger] self.domain_buffer@[j]).0@
        &&& forall|i: int|
            0 <= i < self.domain_buffer@.len() ==> (#[trigger] self.domain_buffer@[i]).1@.len()
                <= BUFFER_CAP
    }

    /// The digests kept for `domain`, oldest first.
    pub closed spec fn ring(&self, domain: Seq<char>) -> Seq<DomainDigestEvent> {
        match last_key_index(self.domain_buffer@, domain) {
            Some(i) => self.domain_buffer@[i].1@,
            None => Seq::empty(),
        }
    }

    /// The domains with kept digests, in the order they first appeared.
    pub closed spec fn domains(&self) -> Seq<Seq<char>> {
        self.domain_buffer@.map_values(|e: (String, Vec<DomainDigestEvent>)| e.0@)
    }

    pub closed spec fn reactive_budget(&self) -> u32 {
        self.daily_reactive_token_budget
    }

    pub closed spec fn digest_budget(&self) -> u32 {
        self.daily_digest_token_budget
    }

    /// A fresh Farcaster: nothing kept, no token spent.
    pub fn new() -> (f: Self)
        ensures
            f.wf(),
            f.domains().len() == 0,
            f.entry_buffer@.len() == 0,
            f.reactive_tokens_used == 0,
            f.digest_tokens_used == 0,
            f.reactive_budget() == CROSS_DOMAIN_REACTIVE_BUDGET,
            f.digest_budget() == CROSS_DOMAIN_DIGEST_BUDGET,
    {
        let f = CrossDomainFarcaster {
            domain_buffer: Vec::new(),
            entry_buffer: Vec::new(),
            daily_reactive_token_budget: CROSS_DOMAIN_REACTIVE_BUDGET,
            daily_digest_token_budget: CROSS_DOMAIN_DIGEST_BUDGET,
            reactive_tokens_used: 0,
            digest_tokens_used: 0,
        };
        assert(f.domains() =~= Seq::<Seq<char>>::empty());
        f
    }

    /// The snapshot given to the analyzer: each domain with the summaries of its
    /// latest digests, newest first.
    pub fn build_snapshot(&self) -> (s: CrossDomainSnapshot)
        requires
            self.wf(),
        ensures
            s.domains@.len() == self.domains().len(),
            forall|i: int|
                0 <= i < s.domains@.len() ==> (#[trigger] s.domains@[i]).domain@
                    == self.domains()[i] && s.domains@[i].recent_digests@.map_values(
                    |x: String| x@,
                ) == latest(
                    self.ring(self.domains()[i]).map_values(|d: DomainDigestEvent| digest_summary(d)),
                    SNAPSHOT_DEPTH as nat,
                ),
    {
        let mut domains: Vec<DomainSnapshot> = Vec::new();
        let mut i: usize = 0;
        while i < self.domain_buffer.len()
            invariant
                self.wf(),
                i <= self.domain_buffer@.len(),
                domains@.len() == i,
                forall|k: int|
                    0 <= k < i ==> (#[trigger] domains@[k]).domain@ == self.domains()[k]
                        && domains@[k].recent_digests@.map_values(|x: String| x@) == latest(
                        self.ring(self.domains()[k]).map_values(
                            |d: DomainDigestEvent| digest_summary(d),
                        ),
                        SNAPSHOT_DEPTH as nat,
                    ),
            decreases self.domain_buffer.len() - i,
        {
            let (name, ring) = &self.domain_buffer[i];
            proof {
                self.lemma_ring_at(i as int);
            }
            let recent = recent_summaries(ring);
            domains.push(DomainSnapshot { domain: string_from(name.as_str()), recent_digests: recent });
            i = i + 1;
        }
        CrossDomainSnapshot { domains }
    }

    proof fn lemma_ring_at(&self, i: int)
        requires
            self.wf(),
            0 <= i < self.domain_buffer@.len(),
        ensures
            self.ring(self.domains()[i]) == self.domain_buffer@[i].1@,
            self.domains()[i] == self.domain_buffer@[i].0@,
    {
        let key = self.domain_buffer@[i].0@;
        lemma_last_key_index(self.domain_buffer@, key);
        match last_key_index(self.domain_buffer@, key) {
            Some(j) => {
                if j != i {
                    if i < j {
                        assert(self.domain_buffer@[i].0@ != self.domain_buffer@[j].0@);
                    }
                }
            },
            None => {
                assert(self.domain_buffer@[i].0@ != key);
            },
        }
    }

    /// Keeps a received digest in its domain's ring, then decides: with the
    /// reactive budget spent, the digest is kept as a deferred entry for the next
    /// synthesis; else the analyzer is to be asked.
    pub fn record_digest(&mut self, event: DomainDigestEvent, now_ms: i64) -> (step: DigestStep)
        requires
            old(self).wf(),
        ensures
            final(self).wf(),
            final(self).ring(event.domain@) == push_capped(
                old(self).ring(event.domain@),
                event,
                BUFFER_CAP as nat,
            ),
            forall|d: Seq<char>| d != event.domain@ ==> final(self).ring(d) == old(self).ring(d),
            final(self).reactive_tokens_used == old(self).reactive_tokens_used,
            final(self).digest_tokens_used == old(self).digest_tokens_used,
            final(self).reactive_budget() == old(self).reactive_budget(),
            final(self).digest_budget() == old(self).digest_budget(),
            old(self).reactive_tokens_used >= old(self).reactive_budget() ==> {
                &&& step is Deferred
                &&& final(self).entry_buffer@.len() == old(self).entry_buffer@.len() + 1
                &&& final(self).entry_buffer@.drop_last() == old(self).entry_buffer@
                &&& final(self).entry_buffer@.last().from_domain@ == event.domain@
                &&& final(self).entry_buffer@.last().connection_summary@ == "deferred (budget): "@
                    + digest_summary(event)
                &&& final(self).entry_buffer@.last().involved_domains@.len() == 1
                &&& final(self).entry_buffer@.last().involved_domains@[0]@ == event.domain@
                &&& final(self).entry_buffer@.last().urgency == Urgency::Low
                &&& final(self).entry_buffer@.last().first_observed_at == now_ms
            },
            old(self).reactive_tokens_used < old(self).reactive_budget() ==> {
                &&& step is Analyze
                &&& final(self).entry_buffer@ == old(self).entry_buffer@
            },
    {
        let summary = event.summary();
        let domain = string_from(event.domain.as_str());
        self.keep_digest(event);
        if self.reactive_tokens_used >= self.daily_reactive_token_budget {
            let mut text = string_from("deferred (budget): ");
            push_str(&mut text, summary.as_str());
            let mut involved: Vec<String> = Vec::new();
            involved.push(string_from(domain.as_str()));
            self.entry_buffer.push(
                CrossDomainEntry {
                    from_domain: domain,
                    connection_summary: text,
                    involved_domains: involved,
                    urgency: Urgency::Low,
                    first_observed_at: now_ms,
                },
            );
            assert(self.entry_buffer@.drop_last() =~= old(self).entry_buffer@);
            return DigestStep::Deferred;
        }
        DigestStep::Analyze(self.build_snapshot())
    }

    fn keep_digest(&mut self, event: DomainDigestEvent)
        requires
            old(self).wf(),
        ensures
            final(self).wf(),
            final(self).ring(event.domain@) == push_capped(
                old(self).ring(event.domain@),
                event,
                BUFFER_CAP as nat,
            ),
            forall|d: Seq<char>| d != event.domain@ ==> final(self).ring(d) == old(self).ring(d),
            final(self).entry_buffer == old(self).entry_buffer,
            final(self).reactive_tokens_used == old(self).reactive_tokens_used,
            final(self).digest_tokens_used == old(self).digest_tokens_used,
            final(self).reactive_budget() == old(self).reactive_budget(),
            final(self).digest_budget() == old(self).digest_budget(),
    {
        let ghost key = event.domain@;
        let ghost before = self.domain_buffer@;
        proof {
            lemma_last_key_index(before, key);
        }
        match find_key(&self.domain_buffer, event.domain.as_str()) {
            Some(i) => {
                let ghost old_ring = before[i as int].1@;
                let mut entry = self.domain_buffer.remove(i);
                push_ring(&mut entry.1, event, BUFFER_CAP);
                self.domain_buffer.insert(i, entry);
                proof {
                    assert(self.domain_buffer@ =~= before.update(i as int, self.domain_buffer@[i as int]));
                    assert forall|a: int, b: int|
                        0 <= a < b < self.domain_buffer@.len() implies (
                        #[trigger] self.domain_buffer@[a]).0@ != (#[trigger] self.domain_buffer@[b]).0@ by {
                        assert(self.domain_buffer@[a].0@ == before[a].0@);
                        assert(self.domain_buffer@[b].0@ == before[b].0@);
                    }
                    lemma_last_key_index(self.domain_buffer@, key);
                    assert forall|d: Seq<char>| d != key implies self.ring(d) == old(self).ring(d) by {
                        lemma_last_key_index(self.domain_buffer@, d);
                        lemma_last_key_index(before, d);
                        same_index_after_update(before, i as int, self.domain_buffer@[i as int], d);
                    }
                    same_index_after_update(before, i as int, self.domain_buffer@[i as int], key);
                }
            },
            None => {
                let mut ring: Vec<DomainDigestEvent> = Vec::new();
                let name = string_from(event.domain.as_str());
                ring.push(event);
                self.domain_buffer.push((name, ring));
                proof {
                    assert(self.domain_buffer@.drop_last() =~= before);
                    assert forall|a: int, b: int|
                        0 <= a < b < self.domain_buffer@.len() implies (
                        #[trigger] self.domain_buffer@[a]).0@ != (#[trigger] self.domain_buffer@[b]).0@ by {
                        if b == before.len() {
                            assert(self.domain_buffer@[a] == before[a]);
                        } else {
                            assert(self.domain_buffer@[a] == before[a]);
                            assert(self.domain_buffer@[b] == before[b]);
                        }
                    }
                    assert(Seq::<DomainDigestEvent>::empty().push(event) =~= seq![event]);
                    assert(self.domain_buffer@.last().0@ == key);
                    assert forall|d: Seq<char>| d != key implies self.ring(d) == old(self).ring(d) by {
                        assert(self.domain_buffer@.last().0@ != d);
                        assert(last_key_index(self.domain_buffer@, d) == last_key_index(before, d));
                        lemma_last_key_index(before, d);
                        match last_key_index(before, d) {
                            Some(j) => {
                                assert(self.domain_buffer@[j] == before[j]);
                            },
                            None => {},
                        }
                    }
                }
            },
        }
    }

    /// Takes in the analyzer's connections (which cost `tokens`): the tokens are
    /// counted, every connection is kept for the digest, and the pressing ones are
    /// returned as the messages to post in [`CROSS_DOMAIN_ROOM`].
    pub fn apply_analysis(&mut self, connections: Vec<CrossDomainConnection>, tokens: u32, now_ms: i64) -> (messages: Vec<String>)
        requires
            old(self).wf(),
        ensures
            final(self).wf(),
            forall|d: Seq<char>| final(self).ring(d) == old(self).ring(d),
            final(self).reactive_tokens_used == old(self).reactive_tokens_used.wrapping_add(tokens),
            final(self).digest_tokens_used == old(self).digest_tokens_used,
            final(self).reactive_budget() == old(self).reactive_budget(),
            final(self).digest_budget() == old(self).digest_budget(),
            messages@.map_values(|m: String| m@) == whispers(connections@),
            final(self).entry_buffer@.len() == old(self).entry_buffer@.len() + connections@.len(),
            final(self).entry_buffer@.subrange(0, old(self).entry_buffer@.len() as int)
                == old(self).entry_buffer@,
            forall|k: int|
                0 <= k < connections@.len() ==> entry_of(
                    connections@[k],
                    #[trigger] final(self).entry_buffer@[old(self).entry_buffer@.len() + k],
                    now_ms,
                ),
    {
        self.reactive_tokens_used = self.reactive_tokens_used.wrapping_add(tokens);
        let mut messages: Vec<String> = Vec::new();
        let ghost start = self.entry_buffer@;
        let mut i: usize = 0;
        assert(connections@.take(0) =~= Seq::<CrossDomainConnection>::empty());
        while i < connections.len()
            invariant
                i <= connections@.len(),
                self.domain_buffer == old(self).domain_buffer,
                old(self).wf(),
                self.reactive_tokens_used == old(self).reactive_tokens_used.wrapping_add(tokens),
                self.digest_tokens_used == old(self).digest_tokens_used,
                self.daily_reactive_token_budget == old(self).daily_reactive_token_budget,
                self.daily_digest_token_budget == old(self).daily_digest_token_budget,
                start == old(self).entry_buffer@,
                self.entry_buffer@.len() == start.len() + i,
                self.entry_buffer@.subrange(0, start.len() as int) == start,
                forall|k: int|
                    0 <= k < i ==> entry_of(
                        connections@[k],
                        #[trigger] self.entry_buffer@[start.len() + k],
                        now_ms,
                    ),
                messages@.map_values(|m: String| m@) == whispers(connections@.take(i as int)),
            decreases connections.len() - i,
        {
            let c = &connections[i];
            assert(connections@.take(i + 1).drop_last() =~= connections@.take(i as int));
            let ghost before_msgs = messages@.map_values(|m: String| m@);
            if pressing(c.urgency) {
                let mut m = string_from("[cross-domain] ");
                push_str(&mut m, c.from_domain.as_str());
                push_str(&mut m, " × ");
                push_str(&mut m, c.to_domain.as_str());
                push_str(&mut m, ": ");
                push_str(&mut m, c.summary.as_str());
                messages.push(m);
                assert(messages@.map_values(|m: String| m@) =~= before_msgs.push(whisper_text(*c)));
            }
            let mut involved: Vec<String> = Vec::new();
            involved.push(string_from(c.from_domain.as_str()));
            involved.push(string_from(c.to_domain.as_str()));
            let ghost before_entries = self.entry_buffer@;
            self.entry_buffer.push(
                CrossDomainEntry {
                    from_domain: string_from(c.from_domain.as_str()),
                    connection_summary: string_from(c.summary.as_str()),
                    involved_domains: involved,
                    urgency: c.urgency,
                    first_observed_at: now_ms,
                },
            );
            assert(self.entry_buffer@.subrange(0, start.len() as int) =~= before_entries.subrange(0, start.len() as int));
            assert forall|k: int| 0 <= k < i + 1 implies entry_of(
                connections@[k],
                #[trigger] self.entry_buffer@[start.len() + k],
                now_ms,
            ) by {
                if k < i {
                    assert(self.entry_buffer@[start.len() + k] == before_entries[start.len() + k]);
                }
            }
            i = i + 1;
        }
        assert(connections@.take(connections@.len() as int) =~= connections@);
        messages
    }

    /// Starts a tick: nothing to do when no entry is kept; with the digest budget
    /// spent, the entries stay; else they all leave the buffer to be synthesized.
    pub fn begin_tick(&mut self) -> (step: TickStep)
        requires
            old(self).wf(),
        ensures
            final(self).wf(),
            forall|d: Seq<char>| final(self).ring(d) == old(self).ring(d),
            final(self).reactive_tokens_used == old(self).reactive_tokens_used,
            final(self).digest_tokens_used == old(self).digest_tokens_used,
            final(self).reactive_budget() == old(self).reactive_budget(),
            final(self).digest_budget() == old(self).digest_budget(),
            old(self).entry_buffer@.len() == 0 ==> step is Idle && final(self).entry_buffer@
                == old(self).entry_buffer@,
            old(self).entry_buffer@.len() > 0 && old(self).digest_tokens_used >= old(
                self,
            ).digest_budget() ==> step is Deferred && final(self).entry_buffer@ == old(
                self,
            ).entry_buffer@,
            old(self).entry_buffer@.len() > 0 && old(self).digest_tokens_used < old(
                self,
            ).digest_budget() ==> (step matches TickStep::Synthesize(entries) && entries@ == old(
                self,
            ).entry_buffer@ && final(self).entry_buffer@.len() == 0),
    {
        if self.entry_buffer.len() == 0 {
            return TickStep::Idle;
        }
        if self.digest_tokens_used >= self.daily_digest_token_budget {
            return TickStep::Deferred;
        }
        let mut entries: Vec<CrossDomainEntry> = Vec::new();
        std::mem::swap(&mut entries, &mut self.entry_buffer);
        TickStep::Synthesize(entries)
    }

    /// Puts entries back after a failed synthesis or submission.
    pub fn requeue(&mut self, entries: Vec<CrossDomainEntry>)
        requires
            old(self).wf(),
        ensures
            final(self).wf(),
            forall|d: Seq<char>| final(self).ring(d) == old(self).ring(d),
            final(self).entry_buffer@ == old(self).entry_buffer@ + entries@,
            final(self).reactive_tokens_used == old(self).reactive_tokens_used,
            final(self).digest_tokens_used == old(self).digest_tokens_used,
            final(self).reactive_budget() == old(self).reactive_budget(),
            final(self).digest_budget() == old(self).digest_budget(),
    {
        let mut entries = entries;
        self.entry_buffer.append(&mut entries);
    }

    /// Takes in a synthesis of `entries` (which cost `tokens`): the tokens are
    /// counted; the digest is to be posted in [`CROSS_DOMAIN_ROOM`]; on a `submit`
    /// verdict, the org-level contribution to offer Farga.
    pub fn apply_synthesis(
        &mut self,
        entries: &Vec<CrossDomainEntry>,
        synthesis: &DigestSynthesis,
        tokens: u32,
        now_ms: i64,
    ) -> (plan: SynthesisPlan)
        requires
            old(self).wf(),
        ensures
            final(self).wf(),
            forall|d: Seq<char>| final(self).ring(d) == old(self).ring(d),
            final(self).entry_buffer == old(self).entry_buffer,
            final(self).reactive_tokens_used == old(self).reactive_tokens_used,
            final(self).digest_tokens_used == old(self).digest_tokens_used.wrapping_add(tokens),
            final(self).reactive_budget() == old(self).reactive_budget(),
            final(self).digest_budget() == old(self).digest_budget(),
            plan.broadcast@ == digest_text(*synthesis, DigestScope::CrossDomain),
            (synthesis.farga_verdict@ == "submit"@) == plan.contribution is Some,
            plan.contribution matches Some(c) ==> {
                &&& c.title@ == crate::text::str_or_empty(synthesis.farga_title)
                &&& c.narrative@ == crate::text::str_or_empty(synthesis.farga_narrative)
                &&& c.lessons@.map_values(|x: String| x@) == synthesis.lessons@.map_values(|x: String| x@)
                &&& c.open_questions@.map_values(|x: String| x@) == synthesis.open_questions@.map_values(|x: String| x@)
                &&& c.involved_projects@.map_values(|p: ProjectId| p@) == dedup(involved(entries@))
                &&& c.concurrence@.len() == 0
                &&& c.target_layer == FargaLayer::OrgLevel
                &&& c.first_observed_at == earliest(entries@, now_ms)
                &&& c.last_observed_at == now_ms
                &&& c.event_count == entries@.len() as u32
                &&& c.reversibility is None
                &&& c.impact is None
            },
    {
        self.digest_tokens_used = self.digest_tokens_used.wrapping_add(tokens);
        let broadcast = format_digest(synthesis, DigestScope::CrossDomain);
        if !str_eq(synthesis.farga_verdict.as_str(), "submit") {
            return SynthesisPlan { broadcast, contribution: None };
        }
        let mut all: Vec<ProjectId> = Vec::new();
        let mut first = now_ms;
        let mut i: usize = 0;
        while i < entries.len()
            invariant
                i <= entries@.len(),
                all@.map_values(|p: ProjectId| p@) == involved(entries@.take(i as int)),
                first == earliest(entries@.take(i as int), now_ms),
            decreases entries.len() - i,
        {
            let e = &entries[i];
            assert(entries@.take(i + 1).drop_last() =~= entries@.take(i as int));
            let ghost before = all@.map_values(|p: ProjectId| p@);
            let ghost base = all@;
            let mut k: usize = 0;
            while k < e.involved_domains.len()
                invariant
                    k <= e.involved_domains@.len(),
                    all@.len() == base.len() + k,
                    forall|m: int| 0 <= m < base.len() ==> #[trigger] all@[m] == base[m],
                    forall|m: int| 0 <= m < k ==> (#[trigger] all@[base.len() + m])@ == e.involved_domains@[m]@,
                decreases e.involved_domains.len() - k,
            {
                all.push(ProjectId::new(e.involved_domains[k].as_str()));
                k = k + 1;
            }
            let ghost av = all@.map_values(|p: ProjectId| p@);
            let ghost target = before + e.involved_domains@.map_values(|d: String| d@);
            assert(av =~= target) by {
                assert forall|m: int| 0 <= m < av.len() implies #[trigger] av[m] == target[m] by {
                    if m < base.len() {
                        assert(all@[m] == base[m]);
                    } else {
                        assert((all@[base.len() + (m - base.len())])@ == e.involved_domains@[m - base.len()]@);
                    }
                }
            }
            if i == 0 || e.first_observed_at < first {
                first = e.first_observed_at;
            }
            i = i + 1;
        }
        assert(entries@.take(entries@.len() as int) =~= entries@);
        let lessons = copy_strings(&synthesis.lessons);
        let open_questions = copy_strings(&synthesis.open_questions);
        assert(lessons@.map_values(|x: String| x@) =~= synthesis.lessons@.map_values(|x: String| x@));
        assert(open_questions@.map_values(|x: String| x@) =~= synthesis.open_questions@.map_values(
            |x: String| x@,
        ));
        let contribution = GovernanceContribution {
            title: crate::text::or_empty_string(&synthesis.farga_title),
            narrative: crate::text::or_empty_string(&synthesis.farga_narrative),
            lessons,
            open_questions,
            involved_projects: unique_ids(&all),
            concurrence: Vec::new(),
            target_layer: FargaLayer::OrgLevel,
            first_observed_at: first,
            last_observed_at: now_ms,
            event_count: entries.len() as u32,
            reversibility: None,
            impact: None,
        };
        SynthesisPlan { broadcast, contribution: Some(contribution) }
    }
}

/// The summaries of the latest [`SNAPSHOT_DEPTH`] digests of `ring`, newest first.
fn recent_summaries(ring: &Vec<DomainDigestEvent>) -> (v: Vec<String>)
    ensures
        v@.map_values(|x: String| x@) == latest(
            ring@.map_values(|d: DomainDigestEvent| digest_summary(d)),
            SNAPSHOT_DEPTH as nat,
        ),
{
    let ghost sums = ring@.map_values(|d: DomainDigestEvent| digest_summary(d));
    let n = ring.len();
    let k: usize = if n < SNAPSHOT_DEPTH {
        n
    } else {
        SNAPSHOT_DEPTH
    };
    let mut v: Vec<String> = Vec::new();
    let mut j: usize = 0;
    while j < k
        invariant
            j <= k <= n,
            n == ring@.len(),
            k == (if n < SNAPSHOT_DEPTH { n } else { SNAPSHOT_DEPTH }),
            sums == ring@.map_values(|d: DomainDigestEvent| digest_summary(d)),
            v@.len() == j,
            forall|m: int| 0 <= m < j ==> (#[trigger] v@[m])@ == sums[n - 1 - m],
        decreases k - j,
    {
        v.push(ring[n - 1 - j].summary());
        j = j + 1;
    }
    assert(v@.map_values(|x: String| x@) =~= latest(sums, SNAPSHOT_DEPTH as nat));
    v
}

proof fn same_index_after_update(
    before: Seq<(String, Vec<DomainDigestEvent>)>,
    i: int,
    x: (String, Vec<DomainDigestEvent>),
    d: Seq<char>,
)
    requires
        0 <= i < before.len(),
        x.0@ == before[i].0@,
    ensures
        last_key_index(before.update(i, x), d) == last_key_index(before, d),
    decreases before.len(),
{
    let after = before.update(i, x);
    if i < before.len() - 1 {
        assert(after.drop_last() =~= before.drop_last().update(i, x));
        assert(after.last() == before.last());
        same_index_after_update(before.drop_last(), i, x, d);
    } else {
        assert(after.drop_last() =~= before.drop_last());
    }
}

} // verus!
