//! The project-level Farcaster: it watches the milestones of the projects it
//! follows, has the analyzer look for connections across them after each
//! significant one, tells the agents of the projects concerned about the pressing
//! connections, and on each tick has the kept connections synthesized into a
//! digest posted in its room, offered to Farga when the synthesis says so, and
//! passed up to the cross-domain Farcaster when it serves a domain.
//!
//! The analyzer, the rooms, Farga and the level above are driven from outside;
//! each step here says what to ask of them and keeps the Farcaster's buffers and
//! token budgets.

use vstd::prelude::*;
use crate::farcaster::analyzer::{CrossSpaceConnection, CrossSpaceSnapshot, DigestEntry, DigestSynthesis, ProjectSnapshot};
use crate::farcaster::concurrence::{is_pressing, pressing, AgentConcurrence, Urgency};
use crate::farcaster::digest::{
    dedup, digest_text, format_digest, latest, lemma_ring_at, push_capped, push_keyed, ring_of,
    rings_ok, unique_ids, DigestScope,
};
use crate::farcaster::governance::{FargaLayer, GovernanceContribution};
use crate::farcaster::milestone::{milestone_project, milestone_summary, significant, MilestoneEvent};
use crate::farcaster::observation::DomainDigestEvent;
use crate::pairs::{find_key, last_key_index};
use crate::text::{copy_strings, or_empty_string, push_str, str_eq, str_or_empty, string_from};
use crate::types::{ProjectId, UserId};

verus! {

/// The room the project-level Farcaster posts its digests in.
pub const FARCASTER_ROOM: &'static str = "#farcaster";

/// Milestones kept per project.
pub const EVENT_BUFFER_CAP: usize = 50;

/// Milestones of a project shown to the analyzer.
pub const RECENT_EVENTS: usize = 3;

/// Tokens the reactive analysis may spend per day.
pub const FARCASTER_REACTIVE_BUDGET: u32 = 20_000;

/// Tokens the digest synthesis may spend per day.
pub const FARCASTER_DIGEST_BUDGET: u32 = 10_000;

/// Hours between two digests.
pub const DIGEST_INTERVAL_HOURS: u64 = 6;

/// What a milestone leads to.
#[derive(Debug, Clone)]
pub enum ReactiveStep {
    /// Not significant: only kept for the snapshots.
    Skip,
    /// The reactive budget is spent: kept as a deferred entry for the digest.
    Deferred,
    /// Ask the analyzer about the milestone, with this snapshot.
    Analyze(CrossSpaceSnapshot),
}

/// What a tick leads to.
#[derive(Debug, Clone)]
pub enum AgentTick {
    /// Nothing was kept.
    Idle,
    /// The digest budget is spent: the entries stay for a later tick.
    Deferred,
    /// Have these entries synthesized (they left the buffer).
    Synthesize(Vec<DigestEntry>),
}

/// What a synthesis leads to: the digest to post in [`FARCASTER_ROOM`], and the
/// contribution to offer Farga when the synthesis asks for it.
#[derive(Debug, Clone)]
pub struct AgentSynthesisPlan {
    pub broadcast: String,
    pub contribution: Option<GovernanceContribution>,
}

/// The project-level Farcaster's state. Lists of pairs are maps keyed by project
/// id, later pairs overriding earlier ones.
pub struct FarcasterAgent {
    /// The projects followed, in order.
    pub projects: Vec<ProjectId>,
    /// Project id to the Matrix id of its agent.
    pub project_agent_ids: Vec<(String, UserId)>,
    /// Per project, its latest milestones, oldest first.
    pub event_buffer: Vec<(String, Vec<MilestoneEvent>)>,
    /// Connections kept for the next digest.
    pub digest_buffer: Vec<DigestEntry>,
    pub daily_reactive_token_budget: u32,
    pub daily_digest_token_budget: u32,
    pub reactive_tokens_used: u32,
    pub digest_tokens_used: u32,
    pub digest_interval_hours: u64,
    /// Milliseconds since the Unix epoch.
    pub last_digest_at: i64,
    /// The domain served, when this Farcaster reports to the cross-domain one.
    pub domain: Option<String>,
}

/// The message telling a project's agent of a pressing connection.
pub open spec fn agent_whisper(c: CrossSpaceConnection) -> Seq<char> {
    "[farcaster] "@ + c.from_project@ + " × "@ + c.to_project@ + ": "@ + c.summary@
}

/// The agent told about connection `c`, if any: the agent of its target project,
/// for a pressing connection.
pub open spec fn whisper_target(ids: Seq<(String, UserId)>, c: CrossSpaceConnection) -> Option<Seq<char>> {
    if is_pressing(c.urgency) {
        match last_key_index(ids, c.to_project@) {
            Some(i) => Some(ids[i].1@),
            None => None,
        }
    } else {
        None
    }
}

/// The messages sent for `cs`, in order, as (agent, text).
pub open spec fn agent_whispers(ids: Seq<(String, UserId)>, cs: Seq<CrossSpaceConnection>) -> Seq<(Seq<char>, Seq<char>)>
    decreases cs.len(),
{
    if cs.len() == 0 {
        Seq::empty()
    } else {
        agent_whispers(ids, cs.drop_last()) + match whisper_target(ids, cs.last()) {
            Some(a) => seq![(a, agent_whisper(cs.last()))],
            None => Seq::empty(),
        }
    }
}

/// The entry kept for connection `c`, observed at `now`, told about or not.
pub open spec fn agent_entry_of(c: CrossSpaceConnection, e: DigestEntry, told: bool, now: i64) -> bool {
    &&& e.project_id@ == c.from_project@
    &&& e.connection_summary@ == c.summary@
    &&& e.involved_projects@.len() == 2
    &&& e.involved_projects@[0]@ == c.from_project@
    &&& e.involved_projects@[1]@ == c.to_project@
    &&& e.concurrence@.len() == 0
    &&& e.urgency == c.urgency
    &&& e.whispered_at == (if told { Some(now) } else { None::<i64> })
    &&& e.first_observed_at == now
}

/// The earliest first observation among `entries`, `now` for none.
pub open spec fn earliest_entry(entries: Seq<DigestEntry>, now: i64) -> i64
    decreases entries.len(),
{
    if entries.len() == 0 {
        now
    } else if entries.len() == 1 {
        entries[0].first_observed_at
    } else {
        let rest = earliest_entry(entries.drop_last(), now);
        if entries.last().first_observed_at < rest {
            entries.last().first_observed_at
        } else {
            rest
        }
    }
}

/// The projects involved in `entries`, in order, with repeats.
pub open spec fn involved_projects(entries: Seq<DigestEntry>) -> Seq<Seq<char>>
    decreases entries.len(),
{
    if entries.len() == 0 {
        Seq::empty()
    } else {
        involved_projects(entries.drop_last()) + entries.last().involved_projects@.map_values(
            |p: ProjectId| p@,
        )
    }
}

/// The concurrences of `entries`, in order.
pub open spec fn all_concurrence(entries: Seq<DigestEntry>) -> Seq<AgentConcurrence>
    decreases entries.len(),
{
    if entries.len() == 0 {
        Seq::empty()
    } else {
        all_concurrence(entries.drop_last()) + entries.last().concurrence@
    }
}

/// What a batch of entries comes to: its involved projects without repeats, its
/// concurrences, and its earliest observation.
pub struct BatchFacts {
    pub projects: Vec<ProjectId>,
    pub concurrence: Vec<AgentConcurrence>,
    pub first_observed_at: i64,
}

/// Gathers the facts of a batch of entries.
pub fn batch_facts(entries: &Vec<DigestEntry>, now_ms: i64) -> (f: BatchFacts)
    ensures
        f.projects@.map_values(|p: ProjectId| p@) == dedup(involved_projects(entries@)),
        f.concurrence@.len() == all_concurrence(entries@).len(),
        f.first_observed_at == earliest_entry(entries@, now_ms),
{
    let mut all: Vec<ProjectId> = Vec::new();
    let mut conc: Vec<AgentConcurrence> = Vec::new();
    let mut first = now_ms;
    let mut i: usize = 0;
    while i < entries.len()
        invariant
            i <= entries@.len(),
            all@.map_values(|p: ProjectId| p@) == involved_projects(entries@.take(i as int)),
            conc@.len() == all_concurrence(entries@.take(i as int)).len(),
            first == earliest_entry(entries@.take(i as int), now_ms),
        decreases entries.len() - i,
    {
        let e = &entries[i];
        assert(entries@.take(i + 1).drop_last() =~= entries@.take(i as int));
        let ghost before = all@.map_values(|p: ProjectId| p@);
        let ghost base = all@;
        let mut k: usize = 0;
        while k < e.involved_projects.len()
            invariant
                k <= e.involved_projects@.len(),
                all@.len() == base.len() + k,
                forall|m: int| 0 <= m < base.len() ==> #[trigger] all@[m] == base[m],
                forall|m: int| 0 <= m < k ==> (#[trigger] all@[base.len() + m])@ == e.involved_projects@[m]@,
            decreases e.involved_projects.len() - k,
        {
            all.push(e.involved_projects[k].duplicate());
            k = k + 1;
        }
        let ghost av = all@.map_values(|p: ProjectId| p@);
        let ghost target = before + e.involved_projects@.map_values(|p: ProjectId| p@);
        assert(av =~= target) by {
            assert forall|m: int| 0 <= m < av.len() implies #[trigger] av[m] == target[m] by {
                if m < base.len() {
                    assert(all@[m] == base[m]);
                } else {
                    assert((all@[base.len() + (m - base.len())])@ == e.involved_projects@[m - base.len()]@);
                }
            }
        }
        let ghost clen = conc@.len();
        let mut c: usize = 0;
        while c < e.concurrence.len()
            invariant
                c <= e.concurrence@.len(),
                conc@.len() == clen + c,
            decreases e.concurrence.len() - c,
        {
            conc.push(e.concurrence[c].clone());
            c = c + 1;
        }
        if i == 0 || e.first_observed_at < first {
            first = e.first_observed_at;
        }
        i = i + 1;
    }
    assert(entries@.take(entries@.len() as int) =~= entries@);
    BatchFacts { projects: unique_ids(&all), concurrence: conc, first_observed_at: first }
}

impl FarcasterAgent {
    /// Rings keyed once, each with at most [`EVENT_BUFFER_CAP`] milestones.
    pub open spec fn wf(&self) -> bool {
        rings_ok(self.event_buffer@, EVENT_BUFFER_CAP as nat)
    }

    /// A Farcaster following `projects`, whose agents are `project_agent_ids`,
    /// started at `now_ms`: nothing kept, no token spent, no domain.
    pub fn new(projects: Vec<ProjectId>, project_agent_ids: Vec<(String, UserId)>, now_ms: i64) -> (f: Self)
        ensures
            f.wf(),
            f.projects == projects,
            f.project_agent_ids == project_agent_ids,
            f.event_buffer@.len() == 0,
            f.digest_buffer@.len() == 0,
            f.daily_reactive_token_budget == FARCASTER_REACTIVE_BUDGET,
            f.daily_digest_token_budget == FARCASTER_DIGEST_BUDGET,
            f.reactive_tokens_used == 0,
            f.digest_tokens_used == 0,
            f.digest_interval_hours == DIGEST_INTERVAL_HOURS,
            f.last_digest_at == now_ms,
            f.domain is None,
    {
        FarcasterAgent {
            projects,
            project_agent_ids,
            event_buffer: Vec::new(),
            digest_buffer: Vec::new(),
            daily_reactive_token_budget: FARCASTER_REACTIVE_BUDGET,
            daily_digest_token_budget: FARCASTER_DIGEST_BUDGET,
            reactive_tokens_used: 0,
            digest_tokens_used: 0,
            digest_interval_hours: DIGEST_INTERVAL_HOURS,
            last_digest_at: now_ms,
            domain: None,
        }
    }

    /// The same Farcaster serving `domain`.
    pub fn with_domain(self, domain: String) -> (f: Self)
        ensures
            f.domain matches Some(d) && d@ == domain@,
            f.projects == self.projects,
            f.project_agent_ids == self.project_agent_ids,
            f.event_buffer == self.event_buffer,
            f.digest_buffer == self.digest_buffer,
            f.reactive_tokens_used == self.reactive_tokens_used,
            f.digest_tokens_used == self.digest_tokens_used,
            f.daily_reactive_token_budget == self.daily_reactive_token_budget,
            f.daily_digest_token_budget == self.daily_digest_token_budget,
    {
        FarcasterAgent { domain: Some(domain), ..self }
    }

    /// The snapshot given to the analyzer: each project followed, with the
    /// summaries of its latest milestones, newest first.
    pub fn build_snapshot(&self) -> (s: CrossSpaceSnapshot)
        ensures
            s.projects@.len() == self.projects@.len(),
            forall|i: int|
                0 <= i < s.projects@.len() ==> (#[trigger] s.projects@[i]).project_id@
                    == self.projects@[i]@ && s.projects@[i].mission_goal is None
                    && s.projects@[i].open_sub_objectives@.len() == 0
                    && s.projects@[i].recent_events@.map_values(|x: String| x@) == latest(
                    ring_of(self.event_buffer@, self.projects@[i]@).map_values(
                        |e: MilestoneEvent| milestone_summary(e),
                    ),
                    RECENT_EVENTS as nat,
                ),
    {
        let mut out: Vec<ProjectSnapshot> = Vec::new();
        let mut i: usize = 0;
        while i < self.projects.len()
            invariant
                i <= self.projects@.len(),
                out@.len() == i,
                forall|k: int|
                    0 <= k < i ==> (#[trigger] out@[k]).project_id@ == self.projects@[k]@
                        && out@[k].mission_goal is None && out@[k].open_sub_objectives@.len() == 0
                        && out@[k].recent_events@.map_values(|x: String| x@) == latest(
                        ring_of(self.event_buffer@, self.projects@[k]@).map_values(
                            |e: MilestoneEvent| milestone_summary(e),
                        ),
                        RECENT_EVENTS as nat,
                    ),
            decreases self.projects.len() - i,
        {
            let pid = &self.projects[i];
            let recent = match find_key(&self.event_buffer, pid.as_str()) {
                Some(j) => recent_milestones(&self.event_buffer[j].1),
                None => {
                    let v: Vec<String> = Vec::new();
                    assert(v@.map_values(|x: String| x@) =~= latest(
                        Seq::<MilestoneEvent>::empty().map_values(|e: MilestoneEvent| milestone_summary(e)),
                        RECENT_EVENTS as nat,
                    ));
                    v
                },
            };
            out.push(
                ProjectSnapshot {
                    project_id: pid.duplicate(),
                    mission_goal: None,
                    open_sub_objectives: Vec::new(),
                    recent_events: recent,
                },
            );
            i = i + 1;
        }
        CrossSpaceSnapshot { projects: out }
    }

    /// Keeps a milestone in its project's ring, then decides: an insignificant
    /// milestone goes no further; with the reactive budget spent, it is kept as a
    /// deferred entry for the digest; else the analyzer is to be asked.
    pub fn record_milestone(&mut self, event: MilestoneEvent, now_ms: i64) -> (step: ReactiveStep)
        requires
            old(self).wf(),
        ensures
            final(self).wf(),
            ring_of(final(self).event_buffer@, milestone_project(event)) == push_capped(
                ring_of(old(self).event_buffer@, milestone_project(event)),
                event,
                EVENT_BUFFER_CAP as nat,
            ),
            forall|d: Seq<char>|
                d != milestone_project(event) ==> ring_of(final(self).event_buffer@, d) == ring_of(
                    old(self).event_buffer@,
                    d,
                ),
            final(self).projects == old(self).projects,
            final(self).project_agent_ids == old(self).project_agent_ids,
            final(self).reactive_tokens_used == old(self).reactive_tokens_used,
            final(self).digest_tokens_used == old(self).digest_tokens_used,
            final(self).daily_reactive_token_budget == old(self).daily_reactive_token_budget,
            final(self).daily_digest_token_budget == old(self).daily_digest_token_budget,
            final(self).domain == old(self).domain,
            !significant(event) ==> step is Skip && final(self).digest_buffer == old(self).digest_buffer,
            significant(event) && old(self).reactive_tokens_used >= old(self).daily_reactive_token_budget ==> {
                &&& step is Deferred
                &&& final(self).digest_buffer@.len() == old(self).digest_buffer@.len() + 1
                &&& final(self).digest_buffer@.drop_last() == old(self).digest_buffer@
                &&& final(self).digest_buffer@.last().project_id@ == milestone_project(event)
                &&& final(self).digest_buffer@.last().connection_summary@ == "deferred (budget): "@
                    + milestone_summary(event)
                &&& final(self).digest_buffer@.last().involved_projects@.len() == 1
                &&& final(self).digest_buffer@.last().involved_projects@[0]@ == milestone_project(event)
                &&& final(self).digest_buffer@.last().concurrence@.len() == 0
                &&& final(self).digest_buffer@.last().urgency == Urgency::Low
                &&& final(self).digest_buffer@.last().whispered_at is None
                &&& final(self).digest_buffer@.last().first_observed_at == now_ms
            },
            significant(event) && old(self).reactive_tokens_used < old(self).daily_reactive_token_budget
                ==> step is Analyze && final(self).digest_buffer == old(self).digest_buffer,
    {
        let project = event.project_id().duplicate();
        let summary = event.summary();
        let is_sig = event.is_significant();
        push_keyed(&mut self.event_buffer, project.as_str(), event, EVENT_BUFFER_CAP);
        if !is_sig {
            return ReactiveStep::Skip;
        }
        if self.reactive_tokens_used >= self.daily_reactive_token_budget {
            let mut text = string_from("deferred (budget): ");
            push_str(&mut text, summary.as_str());
            let mut involved: Vec<ProjectId> = Vec::new();
            involved.push(project.duplicate());
            self.digest_buffer.push(
                DigestEntry {
                    project_id: project,
                    connection_summary: text,
                    involved_projects: involved,
                    concurrence: Vec::new(),
                    urgency: Urgency::Low,
                    whispered_at: None,
                    first_observed_at: now_ms,
                },
            );
            assert(self.digest_buffer@.drop_last() =~= old(self).digest_buffer@);
            return ReactiveStep::Deferred;
        }
        ReactiveStep::Analyze(self.build_snapshot())
    }

    /// Takes in the analyzer's connections (which cost `tokens`): the tokens are
    /// counted; each pressing connection whose target project has a known agent is
    /// returned as a message to that agent; every connection is kept for the
    /// digest, marked as told when it was.
    pub fn apply_connections(
        &mut self,
        connections: Vec<CrossSpaceConnection>,
        tokens: u32,
        now_ms: i64,
    ) -> (messages: Vec<(UserId, String)>)
        requires
            old(self).wf(),
        ensures
            final(self).wf(),
            final(self).event_buffer == old(self).event_buffer,
            final(self).projects == old(self).projects,
            final(self).project_agent_ids == old(self).project_agent_ids,
            final(self).reactive_tokens_used == old(self).reactive_tokens_used.wrapping_add(tokens),
            final(self).digest_tokens_used == old(self).digest_tokens_used,
            final(self).daily_reactive_token_budget == old(self).daily_reactive_token_budget,
            final(self).daily_digest_token_budget == old(self).daily_digest_token_budget,
            final(self).domain == old(self).domain,
            messages@.map_values(|m: (UserId, String)| (m.0@, m.1@)) == agent_whispers(
                old(self).project_agent_ids@,
                connections@,
            ),
            final(self).digest_buffer@.len() == old(self).digest_buffer@.len() + connections@.len(),
            final(self).digest_buffer@.subrange(0, old(self).digest_buffer@.len() as int)
                == old(self).digest_buffer@,
            forall|k: int|
                0 <= k < connections@.len() ==> agent_entry_of(
                    connections@[k],
                    #[trigger] final(self).digest_buffer@[old(self).digest_buffer@.len() + k],
                    whisper_target(old(self).project_agent_ids@, connections@[k]) is Some,
                    now_ms,
                ),
    {
        self.reactive_tokens_used = self.reactive_tokens_used.wrapping_add(tokens);
        let mut messages: Vec<(UserId, String)> = Vec::new();
        let ghost start = self.digest_buffer@;
        let ghost ids = self.project_agent_ids@;
        let mut i: usize = 0;
        assert(connections@.take(0) =~= Seq::<CrossSpaceConnection>::empty());
        while i < connections.len()
            invariant
                i <= connections@.len(),
                self.event_buffer == old(self).event_buffer,
                old(self).wf(),
                self.projects == old(self).projects,
                self.project_agent_ids == old(self).project_agent_ids,
                ids == old(self).project_agent_ids@,
                self.reactive_tokens_used == old(self).reactive_tokens_used.wrapping_add(tokens),
                self.digest_tokens_used == old(self).digest_tokens_used,
                self.daily_reactive_token_budget == old(self).daily_reactive_token_budget,
                self.daily_digest_token_budget == old(self).daily_digest_token_budget,
                self.domain == old(self).domain,
                start == old(self).digest_buffer@,
                self.digest_buffer@.len() == start.len() + i,
                self.digest_buffer@.subrange(0, start.len() as int) == start,
                forall|k: int|
                    0 <= k < i ==> agent_entry_of(
                        connections@[k],
                        #[trigger] self.digest_buffer@[start.len() + k],
                        whisper_target(ids, connections@[k]) is Some,
                        now_ms,
                    ),
                messages@.map_values(|m: (UserId, String)| (m.0@, m.1@)) == agent_whispers(
                    ids,
                    connections@.take(i as int),
                ),
            decreases connections.len() - i,
        {
            let c = &connections[i];
            assert(connections@.take(i + 1).drop_last() =~= connections@.take(i as int));
            assert(connections@.take(i + 1).last() == *c);
            let ghost before_msgs = messages@.map_values(|m: (UserId, String)| (m.0@, m.1@));
            let target: Option<usize> = if pressing(c.urgency) {
                find_key(&self.project_agent_ids, c.to_project.as_str())
            } else {
                None
            };
            let told = match target {
                Some(j) => {
                    let mut m = string_from("[farcaster] ");
                    push_str(&mut m, c.from_project.as_str());
                    push_str(&mut m, " × ");
                    push_str(&mut m, c.to_project.as_str());
                    push_str(&mut m, ": ");
                    push_str(&mut m, c.summary.as_str());
                    messages.push((self.project_agent_ids[j].1.duplicate(), m));
                    assert(messages@.map_values(|m: (UserId, String)| (m.0@, m.1@)) =~= before_msgs.push(
                        (ids[j as int].1@, agent_whisper(*c)),
                    ));
                    true
                },
                None => false,
            };
            let mut involved: Vec<ProjectId> = Vec::new();
            involved.push(c.from_project.duplicate());
            involved.push(c.to_project.duplicate());
            let ghost before_entries = self.digest_buffer@;
            self.digest_buffer.push(
                DigestEntry {
                    project_id: c.from_project.duplicate(),
                    connection_summary: string_from(c.summary.as_str()),
                    involved_projects: involved,
                    concurrence: Vec::new(),
                    urgency: c.urgency,
                    whispered_at: if told {
                        Some(now_ms)
                    } else {
                        None
                    },
                    first_observed_at: now_ms,
                },
            );
            assert(self.digest_buffer@.subrange(0, start.len() as int) =~= before_entries.subrange(
                0,
                start.len() as int,
            ));
            assert forall|k: int| 0 <= k < i + 1 implies agent_entry_of(
                connections@[k],
                #[trigger] self.digest_buffer@[start.len() + k],
                whisper_target(ids, connections@[k]) is Some,
                now_ms,
            ) by {
                if k < i {
                    assert(self.digest_buffer@[start.len() + k] == before_entries[start.len() + k]);
                }
            }
            i = i + 1;
        }
        assert(connections@.take(connections@.len() as int) =~= connections@);
        messages
    }

    /// Starts a tick: nothing to do when no entry is kept; with the digest budget
    /// spent, the entries stay; else they all leave the buffer to be synthesized.
    pub fn begin_tick(&mut self) -> (step: AgentTick)
        requires
            old(self).wf(),
        ensures
            final(self).wf(),
            final(self).event_buffer == old(self).event_buffer,
            final(self).reactive_tokens_used == old(self).reactive_tokens_used,
            final(self).digest_tokens_used == old(self).digest_tokens_used,
            final(self).daily_digest_token_budget == old(self).daily_digest_token_budget,
            final(self).domain == old(self).domain,
            old(self).digest_buffer@.len() == 0 ==> step is Idle && final(self).digest_buffer@
                == old(self).digest_buffer@,
            old(self).digest_buffer@.len() > 0 && old(self).digest_tokens_used >= old(
                self,
            ).daily_digest_token_budget ==> step is Deferred && final(self).digest_buffer@ == old(
                self,
            ).digest_buffer@,
            old(self).digest_buffer@.len() > 0 && old(self).digest_tokens_used < old(
                self,
            ).daily_digest_token_budget ==> (step matches AgentTick::Synthesize(entries)
                && entries@ == old(self).digest_buffer@ && final(self).digest_buffer@.len() == 0),
    {
        if self.digest_buffer.len() == 0 {
            return AgentTick::Idle;
        }
        if self.digest_tokens_used >= self.daily_digest_token_budget {
            return AgentTick::Deferred;
        }
        let mut entries: Vec<DigestEntry> = Vec::new();
        std::mem::swap(&mut entries, &mut self.digest_buffer);
        AgentTick::Synthesize(entries)
    }

    /// Puts entries back after a failed synthesis or submission.
    pub fn requeue(&mut self, entries: Vec<DigestEntry>)
        requires
            old(self).wf(),
        ensures
            final(self).wf(),
            final(self).event_buffer == old(self).event_buffer,
            final(self).digest_buffer@ == old(self).digest_buffer@ + entries@,
            final(self).reactive_tokens_used == old(self).reactive_tokens_used,
            final(self).digest_tokens_used == old(self).digest_tokens_used,
            final(self).domain == old(self).domain,
    {
        let mut entries = entries;
        self.digest_buffer.append(&mut entries);
    }

    /// Takes in a synthesis of `entries` (which cost `tokens`) at `now_ms`: the
    /// tokens are counted and the digest time noted; the digest is to be posted in
    /// [`FARCASTER_ROOM`]; on a `submit` verdict, the project-level contribution to
    /// offer Farga.
    pub fn apply_synthesis(
        &mut self,
        entries: &Vec<DigestEntry>,
        synthesis: &DigestSynthesis,
        tokens: u32,
        now_ms: i64,
    ) -> (plan: AgentSynthesisPlan)
        requires
            old(self).wf(),
        ensures
            final(self).wf(),
            final(self).event_buffer == old(self).event_buffer,
            final(self).digest_buffer == old(self).digest_buffer,
            final(self).reactive_tokens_used == old(self).reactive_tokens_used,
            final(self).digest_tokens_used == old(self).digest_tokens_used.wrapping_add(tokens),
            final(self).last_digest_at == now_ms,
            final(self).domain == old(self).domain,
            plan.broadcast@ == digest_text(*synthesis, DigestScope::CrossSpace),
            (synthesis.farga_verdict@ == "submit"@) == plan.contribution is Some,
            plan.contribution matches Some(c) ==> {
                &&& c.title@ == str_or_empty(synthesis.farga_title)
                &&& c.narrative@ == str_or_empty(synthesis.farga_narrative)
                &&& c.lessons@.map_values(|x: String| x@) == synthesis.lessons@.map_values(|x: String| x@)
                &&& c.open_questions@.map_values(|x: String| x@) == synthesis.open_questions@.map_values(|x: String| x@)
                &&& c.involved_projects@.map_values(|p: ProjectId| p@) == dedup(involved_projects(entries@))
                &&& c.concurrence@.len() == all_concurrence(entries@).len()
                &&& c.target_layer == FargaLayer::ProjectLevel
                &&& c.first_observed_at == earliest_entry(entries@, now_ms)
                &&& c.last_observed_at == now_ms
                &&& c.event_count == entries@.len() as u32
                &&& c.reversibility is None
                &&& c.impact is None
            },
    {
        self.digest_tokens_used = self.digest_tokens_used.wrapping_add(tokens);
        self.last_digest_at = now_ms;
        let broadcast = format_digest(synthesis, DigestScope::CrossSpace);
        if !str_eq(synthesis.farga_verdict.as_str(), "submit") {
            return AgentSynthesisPlan { broadcast, contribution: None };
        }
        let facts = batch_facts(entries, now_ms);
        let lessons = copy_strings(&synthesis.lessons);
        let open_questions = copy_strings(&synthesis.open_questions);
        assert(lessons@.map_values(|x: String| x@) =~= synthesis.lessons@.map_values(|x: String| x@));
        assert(open_questions@.map_values(|x: String| x@) =~= synthesis.open_questions@.map_values(
            |x: String| x@,
        ));
        let contribution = GovernanceContribution {
            title: or_empty_string(&synthesis.farga_title),
            narrative: or_empty_string(&synthesis.farga_narrative),
            lessons,
            open_questions,
            involved_projects: facts.projects,
            concurrence: facts.concurrence,
            target_layer: FargaLayer::ProjectLevel,
            first_observed_at: facts.first_observed_at,
            last_observed_at: now_ms,
            event_count: entries.len() as u32,
            reversibility: None,
            impact: None,
        };
        AgentSynthesisPlan { broadcast, contribution: Some(contribution) }
    }

    /// The digest passed up to the cross-domain Farcaster after a synthesis of
    /// `entries`, when this Farcaster serves a domain; `farga_node_id` is the node
    /// Farga gave the contribution, if it was submitted.
    pub fn upstream_digest(
        &self,
        entries: &Vec<DigestEntry>,
        synthesis: &DigestSynthesis,
        farga_node_id: Option<String>,
        now_ms: i64,
    ) -> (d: Option<DomainDigestEvent>)
        ensures
            self.domain is None ==> d is None,
            self.domain matches Some(dom) ==> (d matches Some(ev) && {
                &&& ev.domain@ == dom@
                &&& ev.title@ == str_or_empty(synthesis.farga_title)
                &&& ev.narrative@ == str_or_empty(synthesis.farga_narrative)
                &&& ev.lessons@.map_values(|x: String| x@) == synthesis.lessons@.map_values(|x: String| x@)
                &&& ev.open_questions@.map_values(|x: String| x@) == synthesis.open_questions@.map_values(|x: String| x@)
                &&& ev.involved_projects@.map_values(|p: ProjectId| p@) == dedup(involved_projects(entries@))
                &&& ev.concurrence@.len() == all_concurrence(entries@).len()
                &&& ev.period_start == earliest_entry(entries@, now_ms)
                &&& ev.period_end == now_ms
                &&& ev.farga_node_id == farga_node_id
            }),
    {
        match &self.domain {
            None => None,
            Some(dom) => {
                let facts = batch_facts(entries, now_ms);
                let lessons = copy_strings(&synthesis.lessons);
                let open_questions = copy_strings(&synthesis.open_questions);
                assert(lessons@.map_values(|x: String| x@) =~= synthesis.lessons@.map_values(
                    |x: String| x@,
                ));
                assert(open_questions@.map_values(|x: String| x@)
                    =~= synthesis.open_questions@.map_values(|x: String| x@));
                Some(
                    DomainDigestEvent {
                        domain: string_from(dom.as_str()),
                        title: or_empty_string(&synthesis.farga_title),
                        narrative: or_empty_string(&synthesis.farga_narrative),
                        lessons,
                        open_questions,
                        involved_projects: facts.projects,
                        concurrence: facts.concurrence,
                        period_start: facts.first_observed_at,
                        period_end: now_ms,
                        farga_node_id,
                    },
                )
            },
        }
    }
}

/// The summaries of the latest [`RECENT_EVENTS`] milestones of `ring`, newest
/// first.
fn recent_milestones(ring: &Vec<MilestoneEvent>) -> (v: Vec<String>)
    ensures
        v@.map_values(|x: String| x@) == latest(
            ring@.map_values(|e: MilestoneEvent| milestone_summary(e)),
            RECENT_EVENTS as nat,
        ),
{
    let ghost sums = ring@.map_values(|e: MilestoneEvent| milestone_summary(e));
    let n = ring.len();
    let k: usize = if n < RECENT_EVENTS {
        n
    } else {
        RECENT_EVENTS
    };
    let mut v: Vec<String> = Vec::new();
    let mut j: usize = 0;
    while j < k
        invariant
            j <= k <= n,
            n == ring@.len(),
            k == (if n < RECENT_EVENTS { n } else { RECENT_EVENTS }),
            sums == ring@.map_values(|e: MilestoneEvent| milestone_summary(e)),
            v@.len() == j,
            forall|m: int| 0 <= m < j ==> (#[trigger] v@[m])@ == sums[n - 1 - m],
        decreases k - j,
    {
        v.push(ring[n - 1 - j].summary());
        j = j + 1;
    }
    assert(v@.map_values(|x: String| x@) =~= latest(sums, RECENT_EVENTS as nat));
    v
}

} // verus!
