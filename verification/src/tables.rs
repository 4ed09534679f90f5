//! What the store holds, as mathematics, and what each statement does to it.
//!
//! The assignments form a map from `(user_id, task_id)` to `task_status_id`:
//! the key columns of a row are its key, so no two rows share a user and a
//! task. The statuses form a map from id to name, beside the largest id that
//! the store has handed out: ids are assigned in increasing order and are
//! never handed out twice.

use vstd::prelude::*;
use crate::error::StoreError;
use crate::models::{NewUserTask, TaskStatus, TaskStatusView, UserTask};

verus! {

/// The contents of the store.
pub struct Tables {
    /// The assignments: `(user_id, task_id)` to `task_status_id`.
    pub user_tasks: Map<(i32, i32), i32>,
    /// The statuses: id to name.
    pub task_statuses: Map<i32, Seq<char>>,
    /// The largest status id assigned so far; 0 before the first.
    pub last_status_id: int,
}

/// What a statement leaves behind: its answer, and the tables after it.
pub struct Step<T> {
    pub answer: Result<T, StoreError>,
    pub tables: Tables,
}

/// The answer of a statement on statuses, with the row taken by its view.
pub open spec fn status_answer(answer: Result<TaskStatus, StoreError>) -> Result<
    TaskStatusView,
    StoreError,
> {
    match answer {
        Ok(row) => Ok(row@),
        Err(error) => Err(error),
    }
}

/// The answer of a lookup on statuses, with the row taken by its view.
pub open spec fn status_lookup(answer: Result<Option<TaskStatus>, StoreError>) -> Result<
    Option<TaskStatusView>,
    StoreError,
> {
    match answer {
        Ok(row) => Ok(row.deep_view()),
        Err(error) => Err(error),
    }
}

impl Tables {
    /// The store before anything was written to it.
    pub open spec fn empty() -> Tables {
        Tables { user_tasks: Map::empty(), task_statuses: Map::empty(), last_status_id: 0 }
    }

    /// Whether `row` is one of the assignments.
    pub open spec fn holds_user_task(self, row: UserTask) -> bool {
        self.user_tasks.contains_key(row.key()) && self.user_tasks[row.key()] == row.task_status_id
    }

    /// Whether `row` is one of the statuses.
    pub open spec fn holds_task_status(self, row: TaskStatusView) -> bool {
        self.task_statuses.contains_key(row.id) && self.task_statuses[row.id] == row.status_name
    }

    /// The assignment of `user_id` to `task_id`, if there is one.
    pub open spec fn read_user_task(self, user_id: i32, task_id: i32) -> Option<UserTask> {
        if self.user_tasks.contains_key((user_id, task_id)) {
            Some(UserTask { user_id, task_id, task_status_id: self.user_tasks[(user_id, task_id)] })
        } else {
            None
        }
    }

    /// Looking up the assignment of `user_id` to `task_id`, which changes
    /// nothing.
    pub open spec fn select_user_task(self, user_id: i32, task_id: i32) -> Step<Option<UserTask>> {
        Step { answer: Ok(self.read_user_task(user_id, task_id)), tables: self }
    }

    /// Whether `rows` is a listing of the assignments: every one of them,
    /// once, in any order.
    pub open spec fn lists_user_tasks(self, rows: Seq<UserTask>) -> bool {
        &&& rows.no_duplicates()
        &&& forall|row: UserTask| #[trigger] rows.contains(row) <==> self.holds_user_task(row)
    }

    /// Creating an assignment: refused if the user already has that task,
    /// otherwise the row is added as given.
    pub open spec fn insert_user_task(self, new: NewUserTask) -> Step<UserTask> {
        if self.user_tasks.contains_key(new.key()) {
            Step { answer: Err(StoreError::Conflict), tables: self }
        } else {
            Step {
                answer: Ok(new.row()),
                tables: Tables {
                    user_tasks: self.user_tasks.insert(new.key(), new.task_status_id),
                    ..self
                },
            }
        }
    }

    /// Replacing the assignment of `user_id` to `task_id` by `new`, all three
    /// columns of it. The row must exist; where `new` names another user or
    /// task, the row moves to that key, which must then be free.
    pub open spec fn replace_user_task(self, user_id: i32, task_id: i32, new: NewUserTask) -> Step<
        UserTask,
    > {
        let key = (user_id, task_id);
        if !self.user_tasks.contains_key(key) {
            Step { answer: Err(StoreError::NotFound), tables: self }
        } else if new.key() != key && self.user_tasks.contains_key(new.key()) {
            Step { answer: Err(StoreError::Conflict), tables: self }
        } else {
            Step {
                answer: Ok(new.row()),
                tables: Tables {
                    user_tasks: self.user_tasks.remove(key).insert(new.key(), new.task_status_id),
                    ..self
                },
            }
        }
    }

    /// Deleting the assignment of `user_id` to `task_id`: the answer is the
    /// number of rows that went, 1 or 0.
    pub open spec fn remove_user_task(self, user_id: i32, task_id: i32) -> Step<usize> {
        let key = (user_id, task_id);
        Step {
            answer: Ok(if self.user_tasks.contains_key(key) { 1usize } else { 0usize }),
            tables: Tables { user_tasks: self.user_tasks.remove(key), ..self },
        }
    }

    /// The status with this id, if there is one.
    pub open spec fn read_task_status(self, id: i32) -> Option<TaskStatusView> {
        if self.task_statuses.contains_key(id) {
            Some(TaskStatusView { id, status_name: self.task_statuses[id] })
        } else {
            None
        }
    }

    /// Looking up the status `id`, which changes nothing.
    pub open spec fn select_task_status(self, id: i32) -> Step<Option<TaskStatusView>> {
        Step { answer: Ok(self.read_task_status(id)), tables: self }
    }

    /// Whether `rows` is a listing of the statuses: every one of them, once,
    /// in any order.
    pub open spec fn lists_task_statuses(self, rows: Seq<TaskStatusView>) -> bool {
        &&& rows.no_duplicates()
        &&& forall|row: TaskStatusView| #[trigger] rows.contains(row) <==> self.holds_task_status(row)
    }

    /// The id that the next status will get, if there is one left.
    pub open spec fn next_status_id(self) -> Option<i32> {
        let id = self.last_status_id + 1;
        if i32::MIN <= id <= i32::MAX && !self.task_statuses.contains_key(id as i32) {
            Some(id as i32)
        } else {
            None
        }
    }

    /// Creating a status: it gets the id after the last one assigned; refused
    /// once the ids have run out.
    pub open spec fn insert_task_status(self, status_name: Seq<char>) -> Step<TaskStatusView> {
        match self.next_status_id() {
            Some(id) => Step {
                answer: Ok(TaskStatusView { id, status_name }),
                tables: Tables {
                    task_statuses: self.task_statuses.insert(id, status_name),
                    last_status_id: id as int,
                    ..self
                },
            },
            None => Step { answer: Err(StoreError::Conflict), tables: self },
        }
    }

    /// Renaming the status `id`, which must exist.
    pub open spec fn rename_task_status(self, id: i32, status_name: Seq<char>) -> Step<
        TaskStatusView,
    > {
        if self.task_statuses.contains_key(id) {
            Step {
                answer: Ok(TaskStatusView { id, status_name }),
                tables: Tables { task_statuses: self.task_statuses.insert(id, status_name), ..self },
            }
        } else {
            Step { answer: Err(StoreError::NotFound), tables: self }
        }
    }

    /// Deleting the status `id`: the answer is the number of rows that went,
    /// 1 or 0.
    pub open spec fn remove_task_status(self, id: i32) -> Step<usize> {
        Step {
            answer: Ok(if self.task_statuses.contains_key(id) { 1usize } else { 0usize }),
            tables: Tables { task_statuses: self.task_statuses.remove(id), ..self },
        }
    }
}

/// A table without rows has only the empty listing.
pub proof fn empty_tables_list_nothing(
    tables: Tables,
    user_tasks: Seq<UserTask>,
    task_statuses: Seq<TaskStatusView>,
)
    ensures
        tables.user_tasks.is_empty() && tables.lists_user_tasks(user_tasks) ==> user_tasks.len()
            == 0,
        tables.task_statuses.is_empty() && tables.lists_task_statuses(task_statuses)
            ==> task_statuses.len() == 0,
{
    if tables.user_tasks.is_empty() && tables.lists_user_tasks(user_tasks) && user_tasks.len() > 0 {
        assert(user_tasks.contains(user_tasks[0]));
        assert(tables.user_tasks.dom().contains(user_tasks[0].key()));
    }
    if tables.task_statuses.is_empty() && tables.lists_task_statuses(task_statuses)
        && task_statuses.len() > 0 {
        assert(task_statuses.contains(task_statuses[0]));
        assert(tables.task_statuses.dom().contains(task_statuses[0].id));
    }
}

} // verus!
