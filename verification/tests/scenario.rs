use tasks_api::assignments::{
    create_user_task, delete_user_task, get_user_task, update_user_task, UserTaskInput,
};
use tasks_api::memory::MemoryStore;
use tasks_api::models::{TaskStatus, UserTask};
use tasks_api::statuses::{create_task_status, TaskStatusInput};

#[test]
fn status_then_assignment_created_updated_and_deleted() {
    let mut store = MemoryStore::new(4);

    let status = create_task_status(
        &mut store,
        TaskStatusInput { status_name: String::from("open") },
    );
    assert_eq!(status, Some(TaskStatus { id: 1, status_name: String::from("open") }));

    let created = create_user_task(
        &mut store,
        UserTaskInput { user_id: 1, task_id: 1, task_status_id: 1 },
    );
    assert_eq!(created, Some(UserTask { user_id: 1, task_id: 1, task_status_id: 1 }));

    let updated = update_user_task(
        1,
        1,
        &mut store,
        UserTaskInput { user_id: 1, task_id: 1, task_status_id: 2 },
    );
    assert_eq!(updated, Some(UserTask { user_id: 1, task_id: 1, task_status_id: 2 }));

    assert_eq!(delete_user_task(1, 1, &mut store), Some(1));
    assert_eq!(get_user_task(1, 1, &mut store), None);
}

#[test]
fn status_of_an_assignment_is_not_checked_against_the_statuses() {
    let mut store = MemoryStore::new(1);
    let created = create_user_task(
        &mut store,
        UserTaskInput { user_id: 1, task_id: 1, task_status_id: 77 },
    );
    assert_eq!(created, Some(UserTask { user_id: 1, task_id: 1, task_status_id: 77 }));
}
