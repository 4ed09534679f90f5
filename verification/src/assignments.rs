//! The five requests on assignments.

use vstd::prelude::*;
use crate::crud::{looked_up, served, Store};
use crate::models::{NewUserTask, UserTask};
use crate::respond::{found_or_absent, rows_or_empty, stored_or_absent};
use crate::tables::empty_tables_list_nothing;

verus! {

/// The body of a request that creates or replaces an assignment.
#[derive(Clone, Copy, Debug, PartialEq, Eq, Structural)]
pub struct UserTaskInput {
    pub user_id: i32,
    pub task_id: i32,
    pub task_status_id: i32,
}

impl UserTaskInput {
    /// The values that the store is asked to write: the three fields, as
    /// they came.
    pub open spec fn values(self) -> NewUserTask {
        NewUserTask {
            user_id: self.user_id,
            task_id: self.task_id,
            task_status_id: self.task_status_id,
        }
    }
}

/// Lists every assignment, each once. Where no connection can be had or the
/// store fails, the listing is empty; so it is where there are no
/// assignments.
pub fn get_user_tasks<S: Store>(pool: &mut S) -> (rows: Vec<UserTask>)
    ensures
        final(pool).modelled() == old(pool).modelled(),
        old(pool).modelled() ==> final(pool).model() == old(pool).model(),
        old(pool).modelled() ==> if old(pool).model().ready() {
            old(pool).model().tables.lists_user_tasks(rows@)
        } else {
            rows@.len() == 0
        },
        old(pool).modelled() && old(pool).model().tables.user_tasks.is_empty() ==> rows@.len()
            == 0,
{
    match pool.acquire() {
        Ok(()) => {
            let answer = pool.read_all_user_tasks();
            pool.release();
            let rows = rows_or_empty(answer);
            proof {
                empty_tables_list_nothing(pool.model().tables, rows@, Seq::empty());
            }
            rows
        },
        Err(_) => Vec::new(),
    }
}

/// Looks up the assignment of `user_id` to `task_id`.
pub fn get_user_task<S: Store>(user_id: i32, task_id: i32, pool: &mut S) -> (r: Option<UserTask>)
    ensures
        final(pool).modelled() == old(pool).modelled(),
        old(pool).modelled() ==> looked_up(
            old(pool).model(),
            final(pool).model(),
            r,
            old(pool).model().tables.read_user_task(user_id, task_id),
        ),
{
    match pool.acquire() {
        Ok(()) => {
            let answer = pool.read_user_task(user_id, task_id);
            pool.release();
            found_or_absent(answer)
        },
        Err(_) => None,
    }
}

/// Overwrites the assignment of `user_id` to `task_id` with the three fields
/// of `user_task` and returns the row as it is now; nothing is written and
/// nothing returned where that assignment does not exist.
pub fn update_user_task<S: Store>(
    user_id: i32,
    task_id: i32,
    pool: &mut S,
    user_task: UserTaskInput,
) -> (r: Option<UserTask>)
    ensures
        final(pool).modelled() == old(pool).modelled(),
        old(pool).modelled() ==> served(
            old(pool).model(),
            final(pool).model(),
            r,
            old(pool).model().tables.replace_user_task(user_id, task_id, user_task.values()),
        ),
        old(pool).modelled() && !old(pool).model().tables.user_tasks.contains_key(
            (user_id, task_id),
        ) ==> r is None && final(pool).model() == old(pool).model(),
{
    match pool.acquire() {
        Ok(()) => {
            let updated_user_task = NewUserTask {
                user_id: user_task.user_id,
                task_id: user_task.task_id,
                task_status_id: user_task.task_status_id,
            };
            let answer = pool.replace_user_task(user_id, task_id, updated_user_task);
            pool.release();
            stored_or_absent(answer)
        },
        Err(_) => None,
    }
}

/// Creates the assignment that `user_task` describes and returns the stored
/// row; nothing is written and nothing returned where the user already has
/// that task.
pub fn create_user_task<S: Store>(pool: &mut S, user_task: UserTaskInput) -> (r: Option<UserTask>)
    ensures
        final(pool).modelled() == old(pool).modelled(),
        old(pool).modelled() ==> served(
            old(pool).model(),
            final(pool).model(),
            r,
            old(pool).model().tables.insert_user_task(user_task.values()),
        ),
{
    match pool.acquire() {
        Ok(()) => {
            let new_user_task = NewUserTask {
                user_id: user_task.user_id,
                task_id: user_task.task_id,
                task_status_id: user_task.task_status_id,
            };
            let answer = pool.insert_user_task(new_user_task);
            pool.release();
            stored_or_absent(answer)
        },
        Err(_) => None,
    }
}

/// Deletes the assignment of `user_id` to `task_id` and returns the number of
/// rows that went: 1, or 0 where there was none.
pub fn delete_user_task<S: Store>(user_id: i32, task_id: i32, pool: &mut S) -> (r: Option<usize>)
    ensures
        final(pool).modelled() == old(pool).modelled(),
        old(pool).modelled() ==> served(
            old(pool).model(),
            final(pool).model(),
            r,
            old(pool).model().tables.remove_user_task(user_id, task_id),
        ),
{
    match pool.acquire() {
        Ok(()) => {
            let answer = pool.remove_user_task(user_id, task_id);
            pool.release();
            stored_or_absent(answer)
        },
        Err(_) => None,
    }
}

} // verus!
