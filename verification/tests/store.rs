use tasks_api::crud::Store;
use tasks_api::error::StoreError;
use tasks_api::memory::MemoryStore;
use tasks_api::models::{NewTaskStatus, NewUserTask, TaskStatus, UserTask};
use tasks_api::respond::{found_or_absent, rows_or_empty, stored_or_absent};

fn new_row(user_id: i32, task_id: i32, task_status_id: i32) -> NewUserTask {
    NewUserTask { user_id, task_id, task_status_id }
}

#[test]
fn pool_lends_up_to_its_capacity() {
    let mut store = MemoryStore::new(2);
    assert_eq!(store.acquire(), Ok(()));
    assert_eq!(store.acquire(), Ok(()));
    assert_eq!(store.acquire(), Err(StoreError::Unavailable));
    store.release();
    assert_eq!(store.acquire(), Ok(()));
    assert_eq!(store.acquire(), Err(StoreError::Unavailable));
}

#[test]
fn pool_without_connections_lends_none() {
    let mut store = MemoryStore::new(0);
    assert_eq!(store.acquire(), Err(StoreError::Unavailable));
}

#[test]
fn insert_of_a_taken_pair_is_a_conflict() {
    let mut store = MemoryStore::new(1);
    assert_eq!(store.acquire(), Ok(()));
    assert_eq!(
        store.insert_user_task(new_row(1, 2, 3)),
        Ok(UserTask { user_id: 1, task_id: 2, task_status_id: 3 })
    );
    assert_eq!(store.insert_user_task(new_row(1, 2, 4)), Err(StoreError::Conflict));
    store.release();
}

#[test]
fn replace_of_a_missing_row_is_not_found() {
    let mut store = MemoryStore::new(1);
    assert_eq!(store.acquire(), Ok(()));
    assert_eq!(store.replace_user_task(1, 2, new_row(1, 2, 3)), Err(StoreError::NotFound));
    assert_eq!(
        store.rename_task_status(1, NewTaskStatus { status_name: "open" }),
        Err(StoreError::NotFound)
    );
    store.release();
}

#[test]
fn replace_onto_a_taken_pair_is_a_conflict() {
    let mut store = MemoryStore::new(1);
    assert_eq!(store.acquire(), Ok(()));
    assert!(store.insert_user_task(new_row(1, 1, 1)).is_ok());
    assert!(store.insert_user_task(new_row(2, 2, 2)).is_ok());
    assert_eq!(store.replace_user_task(1, 1, new_row(2, 2, 9)), Err(StoreError::Conflict));
    assert_eq!(
        store.replace_user_task(1, 1, new_row(1, 1, 9)),
        Ok(UserTask { user_id: 1, task_id: 1, task_status_id: 9 })
    );
    store.release();
}

#[test]
fn offline_store_fails_every_statement() {
    let mut store = MemoryStore::new(1);
    assert_eq!(store.acquire(), Ok(()));
    store.set_online(false);
    assert_eq!(store.read_all_user_tasks(), Err(StoreError::Failed));
    assert_eq!(store.read_user_task(1, 1), Err(StoreError::Failed));
    assert_eq!(store.insert_user_task(new_row(1, 1, 1)), Err(StoreError::Failed));
    assert_eq!(store.replace_user_task(1, 1, new_row(1, 1, 1)), Err(StoreError::Failed));
    assert_eq!(store.remove_user_task(1, 1), Err(StoreError::Failed));
    assert_eq!(store.read_all_task_statuses(), Err(StoreError::Failed));
    assert_eq!(store.read_task_status(1), Err(StoreError::Failed));
    assert_eq!(
        store.insert_task_status(NewTaskStatus { status_name: "open" }),
        Err(StoreError::Failed)
    );
    assert_eq!(
        store.rename_task_status(1, NewTaskStatus { status_name: "open" }),
        Err(StoreError::Failed)
    );
    assert_eq!(store.remove_task_status(1), Err(StoreError::Failed));
    store.set_online(true);
    assert_eq!(store.read_all_user_tasks(), Ok(Vec::new()));
    assert_eq!(store.read_all_task_statuses(), Ok(Vec::new()));
    store.release();
}

#[test]
fn offline_store_still_lends_connections() {
    let mut store = MemoryStore::new(1);
    store.set_online(false);
    assert_eq!(store.acquire(), Ok(()));
    store.release();
}

#[test]
fn statements_answer_with_the_stored_rows() {
    let mut store = MemoryStore::new(1);
    assert_eq!(store.acquire(), Ok(()));
    assert_eq!(
        store.insert_task_status(NewTaskStatus { status_name: "open" }),
        Ok(TaskStatus { id: 1, status_name: "open".to_string() })
    );
    assert_eq!(
        store.rename_task_status(1, NewTaskStatus { status_name: "done" }),
        Ok(TaskStatus { id: 1, status_name: "done".to_string() })
    );
    assert_eq!(
        store.read_task_status(1),
        Ok(Some(TaskStatus { id: 1, status_name: "done".to_string() }))
    );
    assert_eq!(store.read_task_status(2), Ok(None));
    assert_eq!(store.remove_task_status(2), Ok(0));
    assert_eq!(store.remove_task_status(1), Ok(1));
    assert_eq!(store.read_user_task(1, 1), Ok(None));
    assert_eq!(store.remove_user_task(1, 1), Ok(0));
    store.release();
}

#[test]
fn stored_record_passes_and_every_error_is_absence() {
    assert_eq!(stored_or_absent(Ok(5)), Some(5));
    assert_eq!(stored_or_absent::<i32>(Err(StoreError::Unavailable)), None);
    assert_eq!(stored_or_absent::<i32>(Err(StoreError::NotFound)), None);
    assert_eq!(stored_or_absent::<i32>(Err(StoreError::Conflict)), None);
    assert_eq!(stored_or_absent::<i32>(Err(StoreError::Failed)), None);
}

#[test]
fn found_record_passes_and_the_rest_is_absence() {
    assert_eq!(found_or_absent(Ok(Some(5))), Some(5));
    assert_eq!(found_or_absent::<i32>(Ok(None)), None);
    assert_eq!(found_or_absent::<i32>(Err(StoreError::Unavailable)), None);
    assert_eq!(found_or_absent::<i32>(Err(StoreError::NotFound)), None);
    assert_eq!(found_or_absent::<i32>(Err(StoreError::Conflict)), None);
    assert_eq!(found_or_absent::<i32>(Err(StoreError::Failed)), None);
}

#[test]
fn listing_passes_and_every_error_is_the_empty_listing() {
    assert_eq!(rows_or_empty(Ok(vec![3, 1, 2])), vec![3, 1, 2]);
    assert_eq!(rows_or_empty::<i32>(Ok(Vec::new())), Vec::<i32>::new());
    assert_eq!(rows_or_empty::<i32>(Err(StoreError::Unavailable)), Vec::<i32>::new());
    assert_eq!(rows_or_empty::<i32>(Err(StoreError::Failed)), Vec::<i32>::new());
}
