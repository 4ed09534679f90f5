//! A store that keeps its tables in memory.
//!
//! It lends a fixed number of connections, hands out status ids in
//! increasing order, and can be switched offline, so that every path of a
//! request can be exercised without a database.

use vstd::prelude::*;
use crate::crud::{Model, Store};
use crate::error::StoreError;
use crate::keyed::{
    distinct_keys,
    keyed_at,
    lemma_entry_at,
    lemma_key_at,
    lemma_push,
    lemma_remove,
    lemma_update,
    table_of,
};
use crate::models::{NewTaskStatus, NewUserTask, TaskStatus, TaskStatusView, UserTask};
use crate::tables::Tables;

verus! {

/// The key and the value of each assignment in `rows`.
spec fn user_task_entries(rows: Seq<UserTask>) -> Seq<((i32, i32), i32)> {
    rows.map_values(|row: UserTask| (row.key(), row.task_status_id))
}

/// The key and the value of each status in `rows`.
spec fn task_status_entries(rows: Seq<TaskStatus>) -> Seq<(i32, Seq<char>)> {
    rows.map_values(|row: TaskStatus| (row.id, row.status_name@))
}

/// Rows with distinct keys are a listing of the table they spell out.
proof fn lemma_lists_user_tasks(rows: Seq<UserTask>, tables: Tables)
    requires
        distinct_keys(user_task_entries(rows)),
        tables.user_tasks == table_of(user_task_entries(rows)),
    ensures
        tables.lists_user_tasks(rows),
{
    let entries = user_task_entries(rows);
    assert forall|i: int, j: int| 0 <= i < rows.len() && 0 <= j < rows.len() && i != j implies rows[i]
        != rows[j] by {
        if i < j {
            assert(entries[i].0 != entries[j].0);
        } else {
            assert(entries[j].0 != entries[i].0);
        }
    }
    assert forall|row: UserTask| #[trigger] rows.contains(row) <==> tables.holds_user_task(row) by {
        if rows.contains(row) {
            let at = choose|at: int| 0 <= at < rows.len() && rows[at] == row;
            lemma_entry_at(entries, at);
        }
        if tables.holds_user_task(row) {
            let at = lemma_key_at(entries, row.key());
            assert(rows[at] == row);
        }
    }
}

/// Rows with distinct ids are a listing of the table they spell out.
proof fn lemma_lists_task_statuses(rows: Vec<TaskStatus>, tables: Tables)
    requires
        distinct_keys(task_status_entries(rows@)),
        tables.task_statuses == table_of(task_status_entries(rows@)),
    ensures
        tables.lists_task_statuses(rows.deep_view()),
{
    let entries = task_status_entries(rows@);
    let views = rows.deep_view();
    assert forall|i: int, j: int| 0 <= i < views.len() && 0 <= j < views.len() && i != j implies views[i]
        != views[j] by {
        if i < j {
            assert(entries[i].0 != entries[j].0);
        } else {
            assert(entries[j].0 != entries[i].0);
        }
    }
    assert forall|row: TaskStatusView| #[trigger]
        views.contains(row) <==> tables.holds_task_status(row) by {
        if views.contains(row) {
            let at = choose|at: int| 0 <= at < views.len() && views[at] == row;
            lemma_entry_at(entries, at);
        }
        if tables.holds_task_status(row) {
            let at = lemma_key_at(entries, row.id);
            assert(views[at] == row);
        }
    }
}

/// The tables, the pool and the switch of the in-memory store.
pub struct MemoryStore {
    user_tasks: Vec<UserTask>,
    task_statuses: Vec<TaskStatus>,
    last_status_id: i32,
    connections: usize,
    leased: usize,
    online: bool,
}

impl MemoryStore {
    /// No two rows of a table share a key, no status has an id beyond the
    /// last one assigned, and the pool has lent no more than it has.
    #[verifier::type_invariant]
    spec fn sound(self) -> bool {
        &&& distinct_keys(user_task_entries(self.user_tasks@))
        &&& distinct_keys(task_status_entries(self.task_statuses@))
        &&& forall|at: int|
            0 <= at < self.task_statuses@.len() ==> (#[trigger] self.task_statuses@[at]).id
                <= self.last_status_id
        &&& self.leased <= self.connections
    }

    /// An empty store that is online and lends up to `connections`
    /// connections at a time.
    pub fn new(connections: usize) -> (store: MemoryStore)
        ensures
            store.model() == (Model {
                tables: Tables::empty(),
                leases: 0,
                capacity: connections as nat,
                online: true,
            }),
    {
        let store = MemoryStore {
            user_tasks: Vec::new(),
            task_statuses: Vec::new(),
            last_status_id: 0,
            connections,
            leased: 0,
            online: true,
        };
        assert(store.model().tables.user_tasks =~= Map::empty());
        assert(store.model().tables.task_statuses =~= Map::empty());
        store
    }

    /// Switches the store online or offline. While it is offline every
    /// statement fails and changes nothing.
    pub fn set_online(&mut self, online: bool)
        ensures
            final(self).model() == (Model { online, ..old(self).model() }),
    {
        proof {
            use_type_invariant(&*self);
        }
        self.online = online;
    }

    /// Where the assignment of `user_id` to `task_id` stands, if it is
    /// there.
    fn user_task_position(&self, user_id: i32, task_id: i32) -> (found: Option<usize>)
        ensures
            match found {
                Some(at) => keyed_at(
                    user_task_entries(self.user_tasks@),
                    at as int,
                    (user_id, task_id),
                ),
                None => !table_of(user_task_entries(self.user_tasks@)).contains_key(
                    (user_id, task_id),
                ),
            },
    {
        let ghost entries = user_task_entries(self.user_tasks@);
        let mut at: usize = 0;
        while at < self.user_tasks.len()
            invariant
                at <= self.user_tasks.len(),
                entries == user_task_entries(self.user_tasks@),
                forall|before: int| 0 <= before < at ==> !keyed_at(entries, before, (user_id, task_id)),
            decreases self.user_tasks.len() - at,
        {
            if self.user_tasks[at].user_id == user_id && self.user_tasks[at].task_id == task_id {
                return Some(at);
            }
            at = at + 1;
        }
        None
    }

    /// Where the status `id` stands, if it is there.
    fn task_status_position(&self, id: i32) -> (found: Option<usize>)
        ensures
            match found {
                Some(at) => keyed_at(task_status_entries(self.task_statuses@), at as int, id),
                None => !table_of(task_status_entries(self.task_statuses@)).contains_key(id),
            },
    {
        let ghost entries = task_status_entries(self.task_statuses@);
        let mut at: usize = 0;
        while at < self.task_statuses.len()
            invariant
                at <= self.task_statuses.len(),
                entries == task_status_entries(self.task_statuses@),
                forall|before: int| 0 <= before < at ==> !keyed_at(entries, before, id),
            decreases self.task_statuses.len() - at,
        {
            if self.task_statuses[at].id == id {
                return Some(at);
            }
            at = at + 1;
        }
        None
    }
}

impl Store for MemoryStore {
    open spec fn modelled(&self) -> bool {
        true
    }

    closed spec fn model(&self) -> Model {
        Model {
            tables: Tables {
                user_tasks: table_of(user_task_entries(self.user_tasks@)),
                task_statuses: table_of(task_status_entries(self.task_statuses@)),
                last_status_id: self.last_status_id as int,
            },
            leases: self.leased as nat,
            capacity: self.connections as nat,
            online: self.online,
        }
    }

    fn acquire(&mut self) -> (r: Result<(), StoreError>) {
        proof {
            use_type_invariant(&*self);
        }
        if self.leased < self.connections {
            self.leased = self.leased + 1;
            Ok(())
        } else {
            Err(StoreError::Unavailable)
        }
    }

    fn release(&mut self) {
        proof {
            use_type_invariant(&*self);
        }
        self.leased = self.leased - 1;
    }

    fn read_all_user_tasks(&mut self) -> (r: Result<Vec<UserTask>, StoreError>) {
        proof {
            use_type_invariant(&*self);
        }
        if !self.online {
            return Err(StoreError::Failed);
        }
        let mut rows: Vec<UserTask> = Vec::new();
        let mut at: usize = 0;
        while at < self.user_tasks.len()
            invariant
                at <= self.user_tasks.len(),
                rows@ == self.user_tasks@.take(at as int),
            decreases self.user_tasks.len() - at,
        {
            rows.push(self.user_tasks[at]);
            at = at + 1;
            assert(rows@ =~= self.user_tasks@.take(at as int));
        }
        proof {
            assert(rows@ =~= self.user_tasks@);
            lemma_lists_user_tasks(rows@, self.model().tables);
        }
        Ok(rows)
    }

    fn read_user_task(&mut self, user_id: i32, task_id: i32) -> (r: Result<
        Option<UserTask>,
        StoreError,
    >) {
        proof {
            use_type_invariant(&*self);
        }
        if !self.online {
            return Err(StoreError::Failed);
        }
        match self.user_task_position(user_id, task_id) {
            Some(at) => {
                proof {
                    lemma_entry_at(user_task_entries(self.user_tasks@), at as int);
                }
                Ok(Some(self.user_tasks[at]))
            },
            None => Ok(None),
        }
    }

    fn insert_user_task(&mut self, new: NewUserTask) -> (r: Result<UserTask, StoreError>) {
        proof {
            use_type_invariant(&*self);
        }
        if !self.online {
            return Err(StoreError::Failed);
        }
        match self.user_task_position(new.user_id, new.task_id) {
            Some(_) => Err(StoreError::Conflict),
            None => {
                let row = UserTask {
                    user_id: new.user_id,
                    task_id: new.task_id,
                    task_status_id: new.task_status_id,
                };
                proof {
                    let entries = user_task_entries(self.user_tasks@);
                    lemma_push(entries, (row.key(), row.task_status_id));
                    assert(user_task_entries(self.user_tasks@.push(row)) =~= entries.push(
                        (row.key(), row.task_status_id),
                    ));
                }
                let mut rows: Vec<UserTask> = Vec::new();
                std::mem::swap(&mut rows, &mut self.user_tasks);
                rows.push(row);
                self.user_tasks = rows;
                Ok(row)
            },
        }
    }

    fn replace_user_task(&mut self, user_id: i32, task_id: i32, new: NewUserTask) -> (r: Result<
        UserTask,
        StoreError,
    >) {
        proof {
            use_type_invariant(&*self);
        }
        if !self.online {
            return Err(StoreError::Failed);
        }
        let at = match self.user_task_position(user_id, task_id) {
            Some(at) => at,
            None => {
                return Err(StoreError::NotFound);
            },
        };
        if new.user_id != user_id || new.task_id != task_id {
            if self.user_task_position(new.user_id, new.task_id).is_some() {
                return Err(StoreError::Conflict);
            }
        }
        let row = UserTask {
            user_id: new.user_id,
            task_id: new.task_id,
            task_status_id: new.task_status_id,
        };
        proof {
            let entries = user_task_entries(self.user_tasks@);
            lemma_update(entries, at as int, (row.key(), row.task_status_id));
            assert(user_task_entries(self.user_tasks@.update(at as int, row)) =~= entries.update(
                at as int,
                (row.key(), row.task_status_id),
            ));
        }
        let mut rows: Vec<UserTask> = Vec::new();
        std::mem::swap(&mut rows, &mut self.user_tasks);
        rows.set(at, row);
        self.user_tasks = rows;
        Ok(row)
    }

    fn remove_user_task(&mut self, user_id: i32, task_id: i32) -> (r: Result<usize, StoreError>) {
        proof {
            use_type_invariant(&*self);
        }
        if !self.online {
            return Err(StoreError::Failed);
        }
        match self.user_task_position(user_id, task_id) {
            Some(at) => {
                proof {
                    let entries = user_task_entries(self.user_tasks@);
                    lemma_remove(entries, at as int);
                    assert(user_task_entries(self.user_tasks@.remove(at as int)) =~= entries.remove(
                        at as int,
                    ));
                }
                let mut rows: Vec<UserTask> = Vec::new();
                std::mem::swap(&mut rows, &mut self.user_tasks);
                rows.remove(at);
                self.user_tasks = rows;
                Ok(1)
            },
            None => {
                assert(self.model().tables.user_tasks.remove((user_id, task_id))
                    =~= self.model().tables.user_tasks);
                Ok(0)
            },
        }
    }

    fn read_all_task_statuses(&mut self) -> (r: Result<Vec<TaskStatus>, StoreError>) {
        proof {
            use_type_invariant(&*self);
        }
        if !self.online {
            return Err(StoreError::Failed);
        }
        let mut rows: Vec<TaskStatus> = Vec::new();
        let mut at: usize = 0;
        while at < self.task_statuses.len()
            invariant
                at <= self.task_statuses.len(),
                rows@ == self.task_statuses@.take(at as int),
            decreases self.task_statuses.len() - at,
        {
            rows.push(self.task_statuses[at].clone());
            at = at + 1;
            assert(rows@ =~= self.task_statuses@.take(at as int));
        }
        proof {
            assert(rows@ =~= self.task_statuses@);
            lemma_lists_task_statuses(rows, self.model().tables);
        }
        Ok(rows)
    }

    fn read_task_status(&mut self, id: i32) -> (r: Result<Option<TaskStatus>, StoreError>) {
        proof {
            use_type_invariant(&*self);
        }
        if !self.online {
            return Err(StoreError::Failed);
        }
        match self.task_status_position(id) {
            Some(at) => {
                proof {
                    lemma_entry_at(task_status_entries(self.task_statuses@), at as int);
                }
                Ok(Some(self.task_statuses[at].clone()))
            },
            None => Ok(None),
        }
    }

    fn insert_task_status<'a>(&mut self, new: NewTaskStatus<'a>) -> (r: Result<
        TaskStatus,
        StoreError,
    >) {
        proof {
            use_type_invariant(&*self);
        }
        if !self.online {
            return Err(StoreError::Failed);
        }
        if self.last_status_id == i32::MAX {
            return Err(StoreError::Conflict);
        }
        let id: i32 = self.last_status_id + 1;
        let row = TaskStatus { id, status_name: new.status_name.to_owned() };
        let stored = row.clone();
        proof {
            let entries = task_status_entries(self.task_statuses@);
            assert(!table_of(entries).contains_key(id)) by {
                if table_of(entries).contains_key(id) {
                    let at = lemma_key_at(entries, id);
                    assert(self.task_statuses@[at].id <= self.last_status_id);
                }
            }
            lemma_push(entries, (id, row.status_name@));
            assert(task_status_entries(self.task_statuses@.push(row)) =~= entries.push(
                (id, row.status_name@),
            ));
        }
        let mut rows: Vec<TaskStatus> = Vec::new();
        std::mem::swap(&mut rows, &mut self.task_statuses);
        rows.push(row);
        self.last_status_id = id;
        self.task_statuses = rows;
        Ok(stored)
    }

    fn rename_task_status<'a>(&mut self, id: i32, new: NewTaskStatus<'a>) -> (r: Result<
        TaskStatus,
        StoreError,
    >) {
        proof {
            use_type_invariant(&*self);
        }
        if !self.online {
            return Err(StoreError::Failed);
        }
        match self.task_status_position(id) {
            Some(at) => {
                let row = TaskStatus { id, status_name: new.status_name.to_owned() };
                let stored = row.clone();
                proof {
                    let entries = task_status_entries(self.task_statuses@);
                    lemma_update(entries, at as int, (id, row.status_name@));
                    assert(task_status_entries(self.task_statuses@.update(at as int, row))
                        =~= entries.update(at as int, (id, row.status_name@)));
                    assert(table_of(entries).remove(id).insert(id, row.status_name@) =~= table_of(
                        entries,
                    ).insert(id, row.status_name@));
                }
                let mut rows: Vec<TaskStatus> = Vec::new();
                std::mem::swap(&mut rows, &mut self.task_statuses);
                rows.set(at, row);
                self.task_statuses = rows;
                Ok(stored)
            },
            None => Err(StoreError::NotFound),
        }
    }

    fn remove_task_status(&mut self, id: i32) -> (r: Result<usize, StoreError>) {
        proof {
            use_type_invariant(&*self);
        }
        if !self.online {
            return Err(StoreError::Failed);
        }
        match self.task_status_position(id) {
            Some(at) => {
                proof {
                    let entries = task_status_entries(self.task_statuses@);
                    lemma_remove(entries, at as int);
                    assert(task_status_entries(self.task_statuses@.remove(at as int))
                        =~= entries.remove(at as int));
                }
                let mut rows: Vec<TaskStatus> = Vec::new();
                std::mem::swap(&mut rows, &mut self.task_statuses);
                rows.remove(at);
                self.task_statuses = rows;
                Ok(1)
            },
            None => {
                assert(self.model().tables.task_statuses.remove(id) =~= self.model().tables.task_statuses);
                Ok(0)
            },
        }
    }
}

} // verus!
