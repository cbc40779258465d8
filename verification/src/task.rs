//! The task tracker interface: what a tracker answers about tasks it holds.
//! Creating a task is an exchange with the tracker's service, run by the
//! application around the library; each tracker gives here what it decides
//! without one.

use vstd::prelude::*;
use crate::error::CharradissaError;
use crate::types::{Assignee, ProjectId, Task, TaskId, TaskStatus};

verus! {

/// A task tracker.
pub trait TaskManager {
    /// Assigns `task` to `assignee`.
    fn assign_task(&self, task: &TaskId, assignee: &Assignee) -> (r: Result<(), CharradissaError>);

    /// Moves `task` to `status`.
    fn update_status(&self, task: &TaskId, status: TaskStatus) -> (r: Result<(), CharradissaError>);

    /// The task `task`.
    fn get_task(&self, task: &TaskId) -> (r: Result<Task, CharradissaError>);

    /// The open tasks of `project`.
    fn list_open(&self, project: &ProjectId) -> (r: Result<Vec<Task>, CharradissaError>);
}

} // verus!
