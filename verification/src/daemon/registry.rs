//! Which Matrix user speaks for each project, for the org and as concierge.

use vstd::prelude::*;
use crate::pairs::{distinct_keys, lemma_pairs_map, lemma_pairs_map_push, lemma_pairs_map_replace, pairs_map};
use crate::types::{ProjectId, UserId};

verus! {

/// The agents of the deployment: one per project, the org agent and the
/// concierge.
pub struct AgentRegistry {
    project_agents: Vec<(ProjectId, UserId)>,
    org_agent: Option<UserId>,
    concierge: Option<UserId>,
}

/// What a registry holds: project → agent, the org agent, the concierge.
#[verifier::ext_equal]
pub struct AgentRegistryView {
    pub project_agents: Map<Seq<char>, Seq<char>>,
    pub org_agent: Option<Seq<char>>,
    pub concierge: Option<Seq<char>>,
}

/// The text of an optional user id.
pub open spec fn opt_user_view(u: Option<UserId>) -> Option<Seq<char>> {
    match u {
        Some(u) => Some(u@),
        None => None,
    }
}

/// One registration.
pub enum Registration {
    /// `register_project_agent(project, user)`.
    Project(Seq<char>, Seq<char>),
    /// `register_org_agent(user)`.
    Org(Seq<char>),
    /// `register_concierge(user)`.
    Concierge(Seq<char>),
}

/// What a registry holds after the registration `r`.
pub open spec fn registered(v: AgentRegistryView, r: Registration) -> AgentRegistryView {
    match r {
        Registration::Project(p, u) => AgentRegistryView {
            project_agents: v.project_agents.insert(p, u),
            org_agent: v.org_agent,
            concierge: v.concierge,
        },
        Registration::Org(u) => AgentRegistryView {
            project_agents: v.project_agents,
            org_agent: Some(u),
            concierge: v.concierge,
        },
        Registration::Concierge(u) => AgentRegistryView {
            project_agents: v.project_agents,
            org_agent: v.org_agent,
            concierge: Some(u),
        },
    }
}

/// What a registry holds after the registrations `rs`, in order.
pub open spec fn registered_all(v: AgentRegistryView, rs: Seq<Registration>) -> AgentRegistryView
    decreases rs.len(),
{
    if rs.len() == 0 {
        v
    } else {
        registered(registered_all(v, rs.drop_last()), rs.last())
    }
}

/// The agent of the last registration of project `p` among `rs`, if any.
pub open spec fn last_project_agent(rs: Seq<Registration>, p: Seq<char>) -> Option<Seq<char>>
    decreases rs.len(),
{
    if rs.len() == 0 {
        None
    } else {
        match rs.last() {
            Registration::Project(q, u) => if q == p {
                Some(u)
            } else {
                last_project_agent(rs.drop_last(), p)
            },
            _ => last_project_agent(rs.drop_last(), p),
        }
    }
}

impl View for AgentRegistry {
    type V = AgentRegistryView;

    closed spec fn view(&self) -> AgentRegistryView {
        AgentRegistryView {
            project_agents: pairs_map(self.project_agents@),
            org_agent: opt_user_view(self.org_agent),
            concierge: opt_user_view(self.concierge),
        }
    }
}

impl AgentRegistry {
    /// Each project occurs at most once.
    pub closed spec fn wf(&self) -> bool {
        distinct_keys(self.project_agents@)
    }

    /// An empty registry.
    pub fn new() -> (r: Self)
        ensures
            r.wf(),
            r@.project_agents == Map::<Seq<char>, Seq<char>>::empty(),
            r@.org_agent is None,
            r@.concierge is None,
    {
        AgentRegistry { project_agents: Vec::new(), org_agent: None, concierge: None }
    }

    /// Records `user_id` as the agent of `project`, replacing any earlier one.
    pub fn register_project_agent(&mut self, project: ProjectId, user_id: UserId)
        requires
            old(self).wf(),
        ensures
            final(self).wf(),
            final(self)@ == registered(old(self)@, Registration::Project(project@, user_id@)),
            final(self)@.project_agents == old(self)@.project_agents.insert(project@, user_id@),
            final(self)@.org_agent == old(self)@.org_agent,
            final(self)@.concierge == old(self)@.concierge,
    {
        let ghost before = self.project_agents@;
        let mut i: usize = 0;
        while i < self.project_agents.len()
            invariant
                i <= self.project_agents@.len(),
                self.project_agents@ == before,
                before == old(self).project_agents@,
                self.org_agent == old(self).org_agent,
                self.concierge == old(self).concierge,
                distinct_keys(before),
                forall|j: int| 0 <= j < i ==> (#[trigger] self.project_agents@[j]).0@ != project@,
            decreases self.project_agents.len() - i,
        {
            if self.project_agents[i].0.same(&project) {
                let ghost e = (project, user_id);
                proof {
                    lemma_pairs_map_replace(before, i as int, e);
                }
                self.project_agents.set(i, (project, user_id));
                assert(self.project_agents@ =~= before.update(i as int, e));
                return;
            }
            i = i + 1;
        }
        proof {
            lemma_pairs_map_push(before, (project, user_id));
        }
        self.project_agents.push((project, user_id));
    }

    /// Records `user_id` as the org agent.
    pub fn register_org_agent(&mut self, user_id: UserId)
        requires
            old(self).wf(),
        ensures
            final(self).wf(),
            final(self)@ == registered(old(self)@, Registration::Org(user_id@)),
            final(self)@.org_agent == Some(user_id@),
            final(self)@.project_agents == old(self)@.project_agents,
            final(self)@.concierge == old(self)@.concierge,
    {
        self.org_agent = Some(user_id);
    }

    /// Records `user_id` as the concierge.
    pub fn register_concierge(&mut self, user_id: UserId)
        requires
            old(self).wf(),
        ensures
            final(self).wf(),
            final(self)@ == registered(old(self)@, Registration::Concierge(user_id@)),
            final(self)@.concierge == Some(user_id@),
            final(self)@.project_agents == old(self)@.project_agents,
            final(self)@.org_agent == old(self)@.org_agent,
    {
        self.concierge = Some(user_id);
    }

    /// The agent registered for `project`, if any.
    pub fn project_agent(&self, project: &ProjectId) -> (r: Option<&UserId>)
        requires
            self.wf(),
        ensures
            match r {
                Some(u) => self@.project_agents.contains_key(project@) && u@
                    == self@.project_agents[project@],
                None => !self@.project_agents.contains_key(project@),
            },
    {
        let mut i: usize = 0;
        while i < self.project_agents.len()
            invariant
                self.wf(),
                i <= self.project_agents@.len(),
                forall|j: int| 0 <= j < i ==> (#[trigger] self.project_agents@[j]).0@ != project@,
            decreases self.project_agents.len() - i,
        {
            if self.project_agents[i].0.same(project) {
                proof {
                    lemma_pairs_map(self.project_agents@);
                }
                return Some(&self.project_agents[i].1);
            }
            i = i + 1;
        }
        proof {
            lemma_pairs_map(self.project_agents@);
        }
        None
    }

    /// The org agent, if registered.
    pub fn org_agent(&self) -> (r: Option<&UserId>)
        ensures
            match r {
                Some(u) => self@.org_agent == Some(u@),
                None => self@.org_agent is None,
            },
    {
        self.org_agent.as_ref()
    }

    /// The concierge, if registered.
    pub fn concierge(&self) -> (r: Option<&UserId>)
        ensures
            match r {
                Some(u) => self@.concierge == Some(u@),
                None => self@.concierge is None,
            },
    {
        self.concierge.as_ref()
    }
}

/// A registry reads back, for each project, the agent registered last for it.
pub proof fn law_register_then_lookup(
    before: AgentRegistryView,
    after: AgentRegistryView,
    project: Seq<char>,
    user: Seq<char>,
    other: Seq<char>,
)
    requires
        after.project_agents == before.project_agents.insert(project, user),
    ensures
        after.project_agents.contains_key(project),
        after.project_agents[project] == user,
        other != project ==> (after.project_agents.contains_key(other)
            == before.project_agents.contains_key(other) && (after.project_agents.contains_key(
            other) ==> after.project_agents[other] == before.project_agents[other])),
{
}

/// After any sequence of registrations, a project reads back the agent of its
/// last project registration, and no agent when it was never registered (from
/// an empty registry; from any other, what it held then). Org-agent and
/// concierge registrations never change what a project reads back.
pub proof fn law_lookup_after_registrations(start: AgentRegistryView, rs: Seq<Registration>, p: Seq<char>)
    ensures
        match last_project_agent(rs, p) {
            Some(u) => registered_all(start, rs).project_agents.contains_key(p)
                && registered_all(start, rs).project_agents[p] == u,
            None => registered_all(start, rs).project_agents.contains_key(p)
                == start.project_agents.contains_key(p) && (start.project_agents.contains_key(p)
                ==> registered_all(start, rs).project_agents[p] == start.project_agents[p]),
        },
    decreases rs.len(),
{
    if rs.len() > 0 {
        law_lookup_after_registrations(start, rs.drop_last(), p);
    }
}

} // verus!
