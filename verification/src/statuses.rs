//! The five requests on statuses.

use vstd::prelude::*;
use crate::crud::{looked_up, served, Store};
use crate::models::{NewTaskStatus, TaskStatus};
use crate::respond::{found_or_absent, rows_or_empty, stored_or_absent};
use crate::tables::empty_tables_list_nothing;

verus! {

/// The body of a request that creates or renames a status.
#[derive(Debug, PartialEq, Eq)]
pub struct TaskStatusInput {
    pub status_name: String,
}

impl Clone for TaskStatusInput {
    fn clone(&self) -> (copy: TaskStatusInput)
        ensures
            copy == *self,
    {
        TaskStatusInput { status_name: self.status_name.clone() }
    }
}

/// Lists every status, each once. Where no connection can be had or the
/// store fails, the listing is empty; so it is where there are no statuses.
pub fn get_task_statuses<S: Store>(pool: &mut S) -> (rows: Vec<TaskStatus>)
    ensures
        final(pool).modelled() == old(pool).modelled(),
        old(pool).modelled() ==> final(pool).model() == old(pool).model(),
        old(pool).modelled() ==> if old(pool).model().ready() {
            old(pool).model().tables.lists_task_statuses(rows.deep_view())
        } else {
            rows@.len() == 0
        },
        old(pool).modelled() && old(pool).model().tables.task_statuses.is_empty() ==> rows@.len()
            == 0,
{
    match pool.acquire() {
        Ok(()) => {
            let answer = pool.read_all_task_statuses();
            pool.release();
            let rows = rows_or_empty(answer);
            proof {
                empty_tables_list_nothing(pool.model().tables, Seq::empty(), rows.deep_view());
            }
            rows
        },
        Err(_) => Vec::new(),
    }
}

/// Looks up the status `id`.
pub fn get_task_status<S: Store>(id: i32, pool: &mut S) -> (r: Option<TaskStatus>)
    ensures
        final(pool).modelled() == old(pool).modelled(),
        old(pool).modelled() ==> looked_up(
            old(pool).model(),
            final(pool).model(),
            r.deep_view(),
            old(pool).model().tables.read_task_status(id),
        ),
{
    match pool.acquire() {
        Ok(()) => {
            let answer = pool.read_task_status(id);
            pool.release();
            found_or_absent(answer)
        },
        Err(_) => None,
    }
}

/// Renames the status `id` to the name in `task_status` and returns the row
/// as it is now; nothing is written and nothing returned where that status
/// does not exist.
pub fn update_task_status<S: Store>(id: i32, pool: &mut S, task_status: TaskStatusInput) -> (r:
    Option<TaskStatus>)
    ensures
        final(pool).modelled() == old(pool).modelled(),
        old(pool).modelled() ==> served(
            old(pool).model(),
            final(pool).model(),
            r.deep_view(),
            old(pool).model().tables.rename_task_status(id, task_status.status_name@),
        ),
        old(pool).modelled() && !old(pool).model().tables.task_statuses.contains_key(id) ==> r
            is None && final(pool).model() == old(pool).model(),
{
    match pool.acquire() {
        Ok(()) => {
            let updated_task_status = NewTaskStatus { status_name: task_status.status_name.as_str() };
            let answer = pool.rename_task_status(id, updated_task_status);
            pool.release();
            stored_or_absent(answer)
        },
        Err(_) => None,
    }
}

/// Creates a status with the name in `task_status`, under the id that the
/// store assigns, and returns the stored row.
pub fn create_task_status<S: Store>(pool: &mut S, task_status: TaskStatusInput) -> (r: Option<
    TaskStatus,
>)
    ensures
        final(pool).modelled() == old(pool).modelled(),
        old(pool).modelled() ==> served(
            old(pool).model(),
            final(pool).model(),
            r.deep_view(),
            old(pool).model().tables.insert_task_status(task_status.status_name@),
        ),
{
    match pool.acquire() {
        Ok(()) => {
            let new_task_status = NewTaskStatus { status_name: task_status.status_name.as_str() };
            let answer = pool.insert_task_status(new_task_status);
            pool.release();
            stored_or_absent(answer)
        },
        Err(_) => None,
    }
}

/// Deletes the status `id` and returns the number of rows that went: 1, or 0
/// where there was none.
pub fn delete_task_status<S: Store>(id: i32, pool: &mut S) -> (r: Option<usize>)
    ensures
        final(pool).modelled() == old(pool).modelled(),
        old(pool).modelled() ==> served(
            old(pool).model(),
            final(pool).model(),
            r,
            old(pool).model().tables.remove_task_status(id),
        ),
{
    match pool.acquire() {
        Ok(()) => {
            let answer = pool.remove_task_status(id);
            pool.release();
            stored_or_absent(answer)
        },
        Err(_) => None,
    }
}

} // verus!
