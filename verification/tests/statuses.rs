use tasks_api::memory::MemoryStore;
use tasks_api::models::TaskStatus;
use tasks_api::statuses::{
    create_task_status, delete_task_status, get_task_status, get_task_statuses,
    update_task_status, TaskStatusInput,
};

fn named(status_name: &str) -> TaskStatusInput {
    TaskStatusInput { status_name: status_name.to_string() }
}

fn status(id: i32, status_name: &str) -> TaskStatus {
    TaskStatus { id, status_name: status_name.to_string() }
}

#[test]
fn first_status_gets_id_one() {
    let mut store = MemoryStore::new(1);
    assert_eq!(create_task_status(&mut store, named("open")), Some(status(1, "open")));
}

#[test]
fn posted_status_is_read_back() {
    let mut store = MemoryStore::new(1);
    let created = create_task_status(&mut store, named("in progress")).unwrap();
    assert_eq!(get_task_status(created.id, &mut store), Some(status(created.id, "in progress")));
}

#[test]
fn status_ids_count_upwards() {
    let mut store = MemoryStore::new(1);
    assert_eq!(create_task_status(&mut store, named("open")), Some(status(1, "open")));
    assert_eq!(create_task_status(&mut store, named("done")), Some(status(2, "done")));
    assert_eq!(create_task_status(&mut store, named("open")), Some(status(3, "open")));
}

#[test]
fn status_id_of_a_deleted_row_is_not_given_again() {
    let mut store = MemoryStore::new(1);
    create_task_status(&mut store, named("open"));
    create_task_status(&mut store, named("done"));
    assert_eq!(delete_task_status(2, &mut store), Some(1));
    assert_eq!(create_task_status(&mut store, named("closed")), Some(status(3, "closed")));
    assert_eq!(get_task_status(2, &mut store), None);
}

#[test]
fn put_renames_the_status() {
    let mut store = MemoryStore::new(1);
    create_task_status(&mut store, named("open"));
    create_task_status(&mut store, named("done"));
    assert_eq!(update_task_status(1, &mut store, named("reopened")), Some(status(1, "reopened")));
    assert_eq!(get_task_status(1, &mut store), Some(status(1, "reopened")));
    assert_eq!(get_task_status(2, &mut store), Some(status(2, "done")));
}

#[test]
fn put_on_missing_status_is_absent_and_creates_no_row() {
    let mut store = MemoryStore::new(1);
    assert_eq!(update_task_status(1, &mut store, named("open")), None);
    assert_eq!(get_task_status(1, &mut store), None);
    assert_eq!(get_task_statuses(&mut store), Vec::<TaskStatus>::new());
    assert_eq!(create_task_status(&mut store, named("open")), Some(status(1, "open")));
}

#[test]
fn delete_of_status_returns_one_and_the_row_is_gone() {
    let mut store = MemoryStore::new(1);
    create_task_status(&mut store, named("open"));
    create_task_status(&mut store, named("done"));
    assert_eq!(delete_task_status(1, &mut store), Some(1));
    assert_eq!(get_task_status(1, &mut store), None);
    assert_eq!(get_task_statuses(&mut store), vec![status(2, "done")]);
}

#[test]
fn second_delete_of_status_returns_zero_and_changes_nothing() {
    let mut store = MemoryStore::new(1);
    create_task_status(&mut store, named("open"));
    create_task_status(&mut store, named("done"));
    assert_eq!(delete_task_status(1, &mut store), Some(1));
    assert_eq!(delete_task_status(1, &mut store), Some(0));
    assert_eq!(get_task_statuses(&mut store), vec![status(2, "done")]);
}

#[test]
fn empty_store_lists_no_statuses() {
    let mut store = MemoryStore::new(1);
    assert_eq!(get_task_statuses(&mut store), Vec::<TaskStatus>::new());
}

#[test]
fn statuses_are_listed_once_each() {
    let mut store = MemoryStore::new(1);
    create_task_status(&mut store, named("open"));
    create_task_status(&mut store, named(""));
    create_task_status(&mut store, named("open"));
    assert_eq!(
        get_task_statuses(&mut store),
        vec![status(1, "open"), status(2, ""), status(3, "open")]
    );
}

#[test]
fn status_requests_are_absent_when_the_pool_is_exhausted() {
    let mut store = MemoryStore::new(0);
    assert_eq!(create_task_status(&mut store, named("open")), None);
    assert_eq!(get_task_status(1, &mut store), None);
    assert_eq!(update_task_status(1, &mut store, named("done")), None);
    assert_eq!(delete_task_status(1, &mut store), None);
    assert_eq!(get_task_statuses(&mut store), Vec::<TaskStatus>::new());
}

#[test]
fn status_requests_are_absent_while_the_store_is_offline() {
    let mut store = MemoryStore::new(1);
    create_task_status(&mut store, named("open"));
    store.set_online(false);
    assert_eq!(create_task_status(&mut store, named("done")), None);
    assert_eq!(get_task_status(1, &mut store), None);
    assert_eq!(update_task_status(1, &mut store, named("done")), None);
    assert_eq!(delete_task_status(1, &mut store), None);
    assert_eq!(get_task_statuses(&mut store), Vec::<TaskStatus>::new());
    store.set_online(true);
    assert_eq!(get_task_statuses(&mut store), vec![status(1, "open")]);
    assert_eq!(create_task_status(&mut store, named("done")), Some(status(2, "done")));
}

#[test]
fn status_input_and_row_clone_to_equal_values() {
    let body = named("open");
    assert_eq!(body.clone(), body);
    let row = status(4, "done");
    assert_eq!(row.clone(), row);
}
