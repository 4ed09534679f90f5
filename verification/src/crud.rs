//! The contract between the handlers and the store: a pool that lends
//! connections, and the five statements on each table.

use vstd::prelude::*;
use crate::error::StoreError;
use crate::models::{NewTaskStatus, NewUserTask, TaskStatus, UserTask};
use crate::respond::stored;
use crate::tables::{status_answer, status_lookup, Step, Tables};

verus! {

/// A store as the contracts see it.
pub struct Model {
    /// What the store holds.
    pub tables: Tables,
    /// The connections that were borrowed and not yet given back.
    pub leases: nat,
    /// How many connections the pool lends at a time.
    pub capacity: nat,
    /// Whether the store carries out the statements it is given, or fails
    /// them.
    pub online: bool,
}

impl Model {
    /// Whether a request is served: the pool has a connection to lend and
    /// the store is online.
    pub open spec fn ready(self) -> bool {
        self.leases < self.capacity && self.online
    }

    /// The same store with other tables.
    pub open spec fn holding(self, tables: Tables) -> Model {
        Model { tables, ..self }
    }

    /// The same store with another number of connections out.
    pub open spec fn lending(self, leases: nat) -> Model {
        Model { leases, ..self }
    }
}

/// A connection was asked for: the pool lends one while fewer than its
/// capacity are out, and is unavailable otherwise.
pub open spec fn acquired(before: Model, after: Model, answer: Result<(), StoreError>) -> bool {
    if before.leases < before.capacity {
        answer is Ok && after == before.lending(before.leases + 1)
    } else {
        answer == Err::<(), StoreError>(StoreError::Unavailable) && after == before
    }
}

/// A statement was given to the store: while the store is online it answers
/// and changes the tables as `step` says; while it is not, it fails and
/// changes nothing.
pub open spec fn executed<T>(
    before: Model,
    after: Model,
    answer: Result<T, StoreError>,
    step: Step<T>,
) -> bool {
    if before.online {
        answer == step.answer && after == before.holding(step.tables)
    } else {
        answer == Err::<T, StoreError>(StoreError::Failed) && after == before
    }
}

/// A request was made that issues the statement `step`. It has given back
/// the connection it borrowed. Where the store was ready, the caller got
/// what the statement answered, every error rendered as absence, and the
/// tables are as the statement left them; where it was not, the caller got
/// nothing and nothing has changed.
pub open spec fn served<T>(before: Model, after: Model, reply: Option<T>, step: Step<T>) -> bool {
    if before.ready() {
        reply == stored(step.answer) && after == before.holding(step.tables)
    } else {
        reply is None && after == before
    }
}

/// A lookup was requested that finds `row`. It has given back the
/// connection it borrowed and has changed nothing. Where the store was
/// ready, the caller got what was found; where it was not, nothing.
pub open spec fn looked_up<T>(before: Model, after: Model, reply: Option<T>, row: Option<T>) -> bool {
    &&& after == before
    &&& reply == if before.ready() {
        row
    } else {
        None
    }
}

/// A relational store behind a connection pool.
///
/// A store is `modelled` when `model` describes it: what it holds, how many
/// connections are out and how many its pool lends, and whether it carries
/// out statements or fails them. Of a modelled store the contract fixes
/// every answer and every change. A store that does not describe itself,
/// such as a database that other processes write to, is not modelled, and of
/// such a store nothing is claimed.
pub trait Store: Sized {
    /// Whether `model` describes this store.
    open spec fn modelled(&self) -> bool {
        false
    }

    /// The store as the contracts see it.
    open spec fn model(&self) -> Model {
        Model { tables: Tables::empty(), leases: 0, capacity: 0, online: false }
    }

    /// Borrows a connection from the pool.
    fn acquire(&mut self) -> (r: Result<(), StoreError>)
        ensures
            final(self).modelled() == old(self).modelled(),
            old(self).modelled() ==> acquired(old(self).model(), final(self).model(), r),
    ;

    /// Gives a borrowed connection back to the pool.
    fn release(&mut self)
        requires
            old(self).modelled() ==> old(self).model().leases > 0,
        ensures
            final(self).modelled() == old(self).modelled(),
            old(self).modelled() ==> final(self).model() == old(self).model().lending(
                (old(self).model().leases - 1) as nat,
            ),
    ;

    /// Every assignment, in the order the store keeps them.
    fn read_all_user_tasks(&mut self) -> (r: Result<Vec<UserTask>, StoreError>)
        requires
            old(self).modelled() ==> old(self).model().leases > 0,
        ensures
            final(self).modelled() == old(self).modelled(),
            old(self).modelled() ==> final(self).model() == old(self).model(),
            old(self).modelled() ==> match r {
                Ok(rows) => old(self).model().online && old(self).model().tables.lists_user_tasks(
                    rows@,
                ),
                Err(error) => !old(self).model().online && error == StoreError::Failed,
            },
    ;

    /// The assignment of `user_id` to `task_id`, or `None` if there is none.
    fn read_user_task(&mut self, user_id: i32, task_id: i32) -> (r: Result<
        Option<UserTask>,
        StoreError,
    >)
        requires
            old(self).modelled() ==> old(self).model().leases > 0,
        ensures
            final(self).modelled() == old(self).modelled(),
            old(self).modelled() ==> executed(
                old(self).model(),
                final(self).model(),
                r,
                old(self).model().tables.select_user_task(user_id, task_id),
            ),
    ;

    /// Creates an assignment and answers with the stored row.
    fn insert_user_task(&mut self, new: NewUserTask) -> (r: Result<UserTask, StoreError>)
        requires
            old(self).modelled() ==> old(self).model().leases > 0,
        ensures
            final(self).modelled() == old(self).modelled(),
            old(self).modelled() ==> executed(
                old(self).model(),
                final(self).model(),
                r,
                old(self).model().tables.insert_user_task(new),
            ),
    ;

    /// Overwrites the assignment of `user_id` to `task_id` with `new` and
    /// answers with the row as it is now.
    fn replace_user_task(&mut self, user_id: i32, task_id: i32, new: NewUserTask) -> (r: Result<
        UserTask,
        StoreError,
    >)
        requires
            old(self).modelled() ==> old(self).model().leases > 0,
        ensures
            final(self).modelled() == old(self).modelled(),
            old(self).modelled() ==> executed(
                old(self).model(),
                final(self).model(),
                r,
                old(self).model().tables.replace_user_task(user_id, task_id, new),
            ),
    ;

    /// Deletes the assignment of `user_id` to `task_id` and answers with the
    /// number of rows that went.
    fn remove_user_task(&mut self, user_id: i32, task_id: i32) -> (r: Result<usize, StoreError>)
        requires
            old(self).modelled() ==> old(self).model().leases > 0,
        ensures
            final(self).modelled() == old(self).modelled(),
            old(self).modelled() ==> executed(
                old(self).model(),
                final(self).model(),
                r,
                old(self).model().tables.remove_user_task(user_id, task_id),
            ),
    ;

    /// Every status, in the order the store keeps them.
    fn read_all_task_statuses(&mut self) -> (r: Result<Vec<TaskStatus>, StoreError>)
        requires
            old(self).modelled() ==> old(self).model().leases > 0,
        ensures
            final(self).modelled() == old(self).modelled(),
            old(self).modelled() ==> final(self).model() == old(self).model(),
            old(self).modelled() ==> match r {
                Ok(rows) => old(self).model().online
                    && old(self).model().tables.lists_task_statuses(rows.deep_view()),
                Err(error) => !old(self).model().online && error == StoreError::Failed,
            },
    ;

    /// The status `id`, or `None` if there is none.
    fn read_task_status(&mut self, id: i32) -> (r: Result<Option<TaskStatus>, StoreError>)
        requires
            old(self).modelled() ==> old(self).model().leases > 0,
        ensures
            final(self).modelled() == old(self).modelled(),
            old(self).modelled() ==> executed(
                old(self).model(),
                final(self).model(),
                status_lookup(r),
                old(self).model().tables.select_task_status(id),
            ),
    ;

    /// Creates a status under an id of the store's choosing and answers with
    /// the stored row.
    fn insert_task_status<'a>(&mut self, new: NewTaskStatus<'a>) -> (r: Result<
        TaskStatus,
        StoreError,
    >)
        requires
            old(self).modelled() ==> old(self).model().leases > 0,
        ensures
            final(self).modelled() == old(self).modelled(),
            old(self).modelled() ==> executed(
                old(self).model(),
                final(self).model(),
                status_answer(r),
                old(self).model().tables.insert_task_status(new.status_name@),
            ),
    ;

    /// Renames the status `id` and answers with the row as it is now.
    fn rename_task_status<'a>(&mut self, id: i32, new: NewTaskStatus<'a>) -> (r: Result<
        TaskStatus,
        StoreError,
    >)
        requires
            old(self).modelled() ==> old(self).model().leases > 0,
        ensures
            final(self).modelled() == old(self).modelled(),
            old(self).modelled() ==> executed(
                old(self).model(),
                final(self).model(),
                status_answer(r),
                old(self).model().tables.rename_task_status(id, new.status_name@),
            ),
    ;

    /// Deletes the status `id` and answers with the number of rows that went.
    fn remove_task_status(&mut self, id: i32) -> (r: Result<usize, StoreError>)
        requires
            old(self).modelled() ==> old(self).model().leases > 0,
        ensures
            final(self).modelled() == old(self).modelled(),
            old(self).modelled() ==> executed(
                old(self).model(),
                final(self).model(),
                r,
                old(self).model().tables.remove_task_status(id),
            ),
    ;
}

} // verus!
