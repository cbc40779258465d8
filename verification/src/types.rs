//! Identifiers and plain records shared across the library.

use vstd::prelude::*;
use crate::text::{push_str, string_from};

verus! {

/// A Matrix room id, e.g. `!abc:occitane.guilhem`.
#[derive(Debug, Clone, PartialEq, Eq, Hash)]
pub struct RoomId(String);

impl View for RoomId {
    type V = Seq<char>;

    closed spec fn view(&self) -> Seq<char> {
        self.0@
    }
}

impl RoomId {
    pub fn new(s: &str) -> (r: Self)
        ensures
            r@ == s@,
    {
        RoomId(string_from(s))
    }

    pub fn as_str(&self) -> (r: &str)
        ensures
            r@ == self@,
    {
        self.0.as_str()
    }

    /// The id as displayed: the id itself.
    pub fn to_string(&self) -> (r: String)
        ensures
            r@ == self@,
    {
        string_from(self.0.as_str())
    }
}

/// A Matrix user id, e.g. `@farga:occitane.guilhem`.
#[derive(Debug, Clone, PartialEq, Eq, Hash)]
pub struct UserId(String);

impl View for UserId {
    type V = Seq<char>;

    closed spec fn view(&self) -> Seq<char> {
        self.0@
    }
}

impl UserId {
    pub fn new(s: &str) -> (r: Self)
        ensures
            r@ == s@,
    {
        UserId(string_from(s))
    }

    pub fn as_str(&self) -> (r: &str)
        ensures
            r@ == self@,
    {
        self.0.as_str()
    }

    /// The id as displayed: the id itself.
    pub fn to_string(&self) -> (r: String)
        ensures
            r@ == self@,
    {
        string_from(self.0.as_str())
    }

    /// An independent copy of the id.
    pub fn duplicate(&self) -> (r: Self)
        ensures
            r@ == self@,
    {
        UserId(string_from(self.0.as_str()))
    }
}

/// A Matrix space id.
#[derive(Debug, Clone, PartialEq, Eq, Hash)]
pub struct SpaceId(String);

impl View for SpaceId {
    type V = Seq<char>;

    closed spec fn view(&self) -> Seq<char> {
        self.0@
    }
}

impl SpaceId {
    pub fn new(s: &str) -> (r: Self)
        ensures
            r@ == s@,
    {
        SpaceId(string_from(s))
    }

    pub fn as_str(&self) -> (r: &str)
        ensures
            r@ == self@,
    {
        self.0.as_str()
    }
}

/// A project id, e.g. `occitan`.
#[derive(Debug, Clone, PartialEq, Eq, Hash)]
pub struct ProjectId(String);

impl View for ProjectId {
    type V = Seq<char>;

    closed spec fn view(&self) -> Seq<char> {
        self.0@
    }
}

impl ProjectId {
    pub fn new(s: &str) -> (r: Self)
        ensures
            r@ == s@,
    {
        ProjectId(string_from(s))
    }

    pub fn as_str(&self) -> (r: &str)
        ensures
            r@ == self@,
    {
        self.0.as_str()
    }

    /// The id as displayed: the id itself.
    pub fn to_string(&self) -> (r: String)
        ensures
            r@ == self@,
    {
        string_from(self.0.as_str())
    }

    /// An independent copy of the id.
    pub fn duplicate(&self) -> (r: Self)
        ensures
            r@ == self@,
    {
        ProjectId(string_from(self.0.as_str()))
    }

    /// Whether both ids are the same.
    pub fn same(&self, other: &ProjectId) -> (b: bool)
        ensures
            b == (self@ == other@),
    {
        self.0 == other.0
    }
}

/// A task id in the task tracker.
#[derive(Debug, Clone, PartialEq, Eq, Hash)]
pub struct TaskId(String);

impl View for TaskId {
    type V = Seq<char>;

    closed spec fn view(&self) -> Seq<char> {
        self.0@
    }
}

impl TaskId {
    pub fn new(s: &str) -> (r: Self)
        ensures
            r@ == s@,
    {
        TaskId(string_from(s))
    }

    pub fn as_str(&self) -> (r: &str)
        ensures
            r@ == self@,
    {
        self.0.as_str()
    }
}

/// Where an agent comes from: a Fondament role, or a project facet composed with a stance.
#[derive(Debug, Clone)]
pub enum CompositionAddress {
    Role { role: String, stance_override: Option<String> },
    Composed { project: String, facet: String, stance: String },
}

/// The display form of a composition address.
pub open spec fn composition_address_text(a: CompositionAddress) -> Seq<char> {
    match a {
        CompositionAddress::Role { role, stance_override } => match stance_override {
            Some(s) => "fondament/"@ + role@ + "/"@ + s@,
            None => "fondament/"@ + role@,
        },
        CompositionAddress::Composed { project, facet, stance } => project@ + "/"@ + facet@
            + "+"@ + stance@,
    }
}

impl CompositionAddress {
    /// `fondament/<role>[/<stance>]` for a role, `<project>/<facet>+<stance>` for a composition.
    pub fn to_string(&self) -> (r: String)
        ensures
            r@ == composition_address_text(*self),
    {
        let mut out = String::new();
        match self {
            CompositionAddress::Role { role, stance_override } => {
                push_str(&mut out, "fondament/");
                push_str(&mut out, role.as_str());
                match stance_override {
                    Some(s) => {
                        push_str(&mut out, "/");
                        push_str(&mut out, s.as_str());
                    },
                    None => {},
                }
            },
            CompositionAddress::Composed { project, facet, stance } => {
                push_str(&mut out, project.as_str());
                push_str(&mut out, "/");
                push_str(&mut out, facet.as_str());
                push_str(&mut out, "+");
                push_str(&mut out, stance.as_str());
            },
        }
        out
    }
}

/// What a chat event is.
#[derive(Debug, Clone, PartialEq, Eq)]
pub enum ChatEventKind {
    Message,
    SlashCommand { command: String, args: String },
    Mention,
    Reaction,
    MemberJoin,
    MemberLeave,
}

/// One event seen in a chat room.
#[derive(Debug, Clone)]
pub struct ChatEvent {
    pub event_id: String,
    pub room_id: RoomId,
    pub sender: UserId,
    pub content: String,
    /// Milliseconds since the Unix epoch (UTC).
    pub timestamp: i64,
    pub kind: ChatEventKind,
}

/// Options for creating a room.
#[derive(Debug, Clone)]
pub struct RoomOptions {
    pub alias: String,
    pub name: String,
    pub topic: Option<String>,
    pub invite: Vec<UserId>,
}

/// A task in the task tracker.
#[derive(Debug, Clone)]
pub struct Task {
    pub id: TaskId,
    pub title: String,
    pub description: String,
    pub status: TaskStatus,
    pub assignee: Option<Assignee>,
    pub project: ProjectId,
}

/// Where a task stands.
#[derive(Debug, Clone, PartialEq, Eq)]
pub enum TaskStatus {
    Open,
    InProgress,
    InReview,
    Done,
}

/// Who a task is assigned to.
#[derive(Debug, Clone)]
pub enum Assignee {
    Human(UserId),
    Agent(CompositionAddress),
}

/// Options for creating a task.
#[derive(Debug, Clone)]
pub struct TaskOptions {
    pub title: String,
    pub description: String,
    pub assignee: Option<Assignee>,
}

impl TaskOptions {
    /// Empty title and description, no assignee.
    pub fn empty() -> (r: Self)
        ensures
            r.title@.len() == 0,
            r.description@.len() == 0,
            r.assignee is None,
    {
        TaskOptions { title: String::new(), description: String::new(), assignee: None }
    }
}

/// A project's health at a glance.
#[derive(Debug, Clone)]
pub struct ProjectHealth {
    pub project: ProjectId,
    pub open_tasks: Vec<Task>,
    pub active_session: Option<String>,
    /// Milliseconds since the Unix epoch (UTC).
    pub last_concierge_sweep: Option<i64>,
}

} // verus!
