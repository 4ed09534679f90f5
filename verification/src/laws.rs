//! What holds when one request comes after another.
//!
//! The laws speak of a modelled store through the two relations in which
//! the handlers state what they did: `served(before, after, reply, step)`
//! for a request that writes, and `looked_up(before, after, reply, row)`
//! for one that reads. A hypothesis of that form stands for one call of
//! the handler that ensures it.

use vstd::prelude::*;
use crate::assignments::UserTaskInput;
use crate::crud::{looked_up, served, Model};
use crate::models::{TaskStatusView, UserTask};

verus! {

/// Creating an assignment that the user does not have yet, on a store that
/// is ready, returns the row as it was given; looking it up afterwards under
/// its user and task returns that same row.
pub proof fn created_user_task_is_read_back(
    start: Model,
    created: Model,
    end: Model,
    user_task: UserTaskInput,
    reply: Option<UserTask>,
    found: Option<UserTask>,
)
    requires
        start.ready(),
        !start.tables.user_tasks.contains_key((user_task.user_id, user_task.task_id)),
        served(start, created, reply, start.tables.insert_user_task(user_task.values())),
        looked_up(
            created,
            end,
            found,
            created.tables.read_user_task(user_task.user_id, user_task.task_id),
        ),
    ensures
        reply == Some(
            UserTask {
                user_id: user_task.user_id,
                task_id: user_task.task_id,
                task_status_id: user_task.task_status_id,
            },
        ),
        found == reply,
{
}

/// A status that was created is found afterwards under the id it was
/// returned with, under the name it was given.
pub proof fn created_task_status_is_read_back(
    start: Model,
    created: Model,
    end: Model,
    status_name: Seq<char>,
    reply: Option<TaskStatusView>,
    found: Option<TaskStatusView>,
)
    requires
        served(start, created, reply, start.tables.insert_task_status(status_name)),
        reply is Some,
        looked_up(created, end, found, created.tables.read_task_status(reply->0.id)),
    ensures
        reply->0.status_name == status_name,
        reply->0.id == start.tables.last_status_id + 1,
        found == reply,
{
}

/// After a request to delete an assignment, a lookup under its user and task
/// finds nothing; and where the assignment existed and the store was ready,
/// the delete reported one row.
pub proof fn deleted_user_task_is_absent(
    start: Model,
    deleted: Model,
    end: Model,
    user_id: i32,
    task_id: i32,
    count: Option<usize>,
    found: Option<UserTask>,
)
    requires
        served(start, deleted, count, start.tables.remove_user_task(user_id, task_id)),
        looked_up(deleted, end, found, deleted.tables.read_user_task(user_id, task_id)),
    ensures
        found is None,
        start.ready() && start.tables.user_tasks.contains_key((user_id, task_id)) ==> count
            == Some(1usize),
{
}

/// After a request to delete a status, a lookup under its id finds nothing;
/// and where the status existed and the store was ready, the delete reported
/// one row.
pub proof fn deleted_task_status_is_absent(
    start: Model,
    deleted: Model,
    end: Model,
    id: i32,
    count: Option<usize>,
    found: Option<TaskStatusView>,
)
    requires
        served(start, deleted, count, start.tables.remove_task_status(id)),
        looked_up(deleted, end, found, deleted.tables.read_task_status(id)),
    ensures
        found is None,
        start.ready() && start.tables.task_statuses.contains_key(id) ==> count == Some(1usize),
{
}

/// Updating an assignment that does not exist returns nothing and changes
/// nothing, and a lookup under that user and task still finds nothing.
pub proof fn update_of_missing_user_task_writes_nothing(
    start: Model,
    updated: Model,
    end: Model,
    user_id: i32,
    task_id: i32,
    user_task: UserTaskInput,
    reply: Option<UserTask>,
    found: Option<UserTask>,
)
    requires
        !start.tables.user_tasks.contains_key((user_id, task_id)),
        served(
            start,
            updated,
            reply,
            start.tables.replace_user_task(user_id, task_id, user_task.values()),
        ),
        looked_up(updated, end, found, updated.tables.read_user_task(user_id, task_id)),
    ensures
        reply is None,
        updated == start,
        found is None,
{
}

/// Renaming a status that does not exist returns nothing and changes
/// nothing, and a lookup under that id still finds nothing.
pub proof fn update_of_missing_task_status_writes_nothing(
    start: Model,
    updated: Model,
    end: Model,
    id: i32,
    status_name: Seq<char>,
    reply: Option<TaskStatusView>,
    found: Option<TaskStatusView>,
)
    requires
        !start.tables.task_statuses.contains_key(id),
        served(start, updated, reply, start.tables.rename_task_status(id, status_name)),
        looked_up(updated, end, found, updated.tables.read_task_status(id)),
    ensures
        reply is None,
        updated == start,
        found is None,
{
}

/// Deleting an assignment a second time is safe: it changes nothing, and on
/// a store that is ready it reports that no row went.
pub proof fn second_delete_of_user_task_removes_nothing(
    start: Model,
    once: Model,
    twice: Model,
    user_id: i32,
    task_id: i32,
    first: Option<usize>,
    second: Option<usize>,
)
    requires
        served(start, once, first, start.tables.remove_user_task(user_id, task_id)),
        served(once, twice, second, once.tables.remove_user_task(user_id, task_id)),
    ensures
        twice == once,
        second == if start.ready() {
            Some(0usize)
        } else {
            None
        },
{
    if start.ready() {
        assert(once.tables.user_tasks.remove((user_id, task_id)) =~= once.tables.user_tasks);
    }
}

/// Deleting a status a second time is safe: it changes nothing, and on a
/// store that is ready it reports that no row went.
pub proof fn second_delete_of_task_status_removes_nothing(
    start: Model,
    once: Model,
    twice: Model,
    id: i32,
    first: Option<usize>,
    second: Option<usize>,
)
    requires
        served(start, once, first, start.tables.remove_task_status(id)),
        served(once, twice, second, once.tables.remove_task_status(id)),
    ensures
        twice == once,
        second == if start.ready() {
            Some(0usize)
        } else {
            None
        },
{
    if start.ready() {
        assert(once.tables.task_statuses.remove(id) =~= once.tables.task_statuses);
    }
}

} // verus!
