//! The rows of the two tables, and the payloads that create or replace them.

use vstd::prelude::*;

verus! {

/// A stored assignment: one user's engagement with one task, and the status
/// that task currently has for that user. `(user_id, task_id)` is its key.
#[derive(Clone, Copy, Debug, PartialEq, Eq, Structural)]
pub struct UserTask {
    pub user_id: i32,
    pub task_id: i32,
    pub task_status_id: i32,
}

/// The values written when an assignment is created or replaced.
#[derive(Clone, Copy, Debug, PartialEq, Eq, Structural)]
pub struct NewUserTask {
    pub user_id: i32,
    pub task_id: i32,
    pub task_status_id: i32,
}

impl UserTask {
    /// The composite primary key of this row.
    pub open spec fn key(self) -> (i32, i32) {
        (self.user_id, self.task_id)
    }
}

impl NewUserTask {
    /// The key of the row that these values describe.
    pub open spec fn key(self) -> (i32, i32) {
        (self.user_id, self.task_id)
    }

    /// The row that holds exactly these values.
    pub open spec fn row(self) -> UserTask {
        UserTask {
            user_id: self.user_id,
            task_id: self.task_id,
            task_status_id: self.task_status_id,
        }
    }
}

/// A stored status: a named state that a task can be in. The store assigns
/// `id`.
#[derive(Debug, PartialEq, Eq)]
pub struct TaskStatus {
    pub id: i32,
    pub status_name: String,
}

/// The values written when a status is created or renamed.
#[derive(Clone, Copy, Debug, PartialEq, Eq)]
pub struct NewTaskStatus<'a> {
    pub status_name: &'a str,
}

/// A status as the contracts see it: its id and the characters of its name.
pub struct TaskStatusView {
    pub id: i32,
    pub status_name: Seq<char>,
}

impl View for TaskStatus {
    type V = TaskStatusView;

    open spec fn view(&self) -> TaskStatusView {
        TaskStatusView { id: self.id, status_name: self.status_name@ }
    }
}

impl DeepView for TaskStatus {
    type V = TaskStatusView;

    open spec fn deep_view(&self) -> TaskStatusView {
        self@
    }
}

impl Clone for TaskStatus {
    fn clone(&self) -> (copy: TaskStatus)
        ensures
            copy == *self,
    {
        TaskStatus { id: self.id, status_name: self.status_name.clone() }
    }
}

} // verus!
