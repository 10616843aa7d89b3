use todo_service::memory::MemoryRepo;
use todo_service::model::{NewTodo, Todo, UpdateTodo};
use todo_service::repository::{
    new_row, plan_update, removed_any, row_with_id, StoreError, TodoRepository,
};

fn version_of(id: u128) -> u128 {
    (id >> 76) & 0xf
}

fn variant_of(id: u128) -> u128 {
    (id >> 62) & 0x3
}

#[test]
fn row_with_id_is_not_completed() {
    let todo = row_with_id(42, NewTodo { title: "buy milk".to_string() });
    assert_eq!(todo, Todo { id: 42, title: "buy milk".to_string(), completed: false });
}

#[test]
fn new_row_has_a_random_uuid() {
    let todo = new_row(NewTodo { title: "buy milk".to_string() });
    assert_eq!(todo.title, "buy milk");
    assert!(!todo.completed);
    assert_eq!(version_of(todo.id), 4);
    assert_eq!(variant_of(todo.id), 2);
    let text = uuid::Uuid::from_u128(todo.id);
    assert_eq!(text.get_version_num(), 4);
}

#[test]
fn new_rows_get_different_ids() {
    let a = new_row(NewTodo { title: "a".to_string() });
    let b = new_row(NewTodo { title: "a".to_string() });
    assert_ne!(a.id, b.id);
}

#[test]
fn plan_update_of_nothing_is_nothing() {
    let plan = plan_update(None, UpdateTodo { title: Some("x".to_string()), completed: None });
    assert_eq!(plan, None);
}

#[test]
fn plan_update_merges_into_the_row_that_was_read() {
    let read = Todo { id: 7, title: "buy milk".to_string(), completed: false };
    let plan = plan_update(Some(read), UpdateTodo { title: None, completed: Some(true) });
    assert_eq!(plan, Some(Todo { id: 7, title: "buy milk".to_string(), completed: true }));
}

#[test]
fn removed_any_is_true_from_one_row_on() {
    assert!(!removed_any(0));
    assert!(removed_any(1));
    assert!(removed_any(2));
    assert!(removed_any(u64::MAX));
}

#[test]
fn store_error_gives_its_message() {
    let error = StoreError::new("connection refused");
    assert_eq!(error.message, "connection refused");
    assert_eq!(error.to_string(), "connection refused");
}

#[test]
fn new_store_is_empty() {
    let repo = MemoryRepo::new();
    assert_eq!(repo.list().unwrap(), vec![]);
    assert_eq!(repo.get(1).unwrap(), None);
}

#[test]
fn insert_keeps_the_todo_as_given() {
    let mut repo = MemoryRepo::new();
    let todo = Todo { id: 9, title: "done already".to_string(), completed: true };
    assert_eq!(repo.insert(todo.clone()).unwrap(), todo);
    assert_eq!(repo.get(9).unwrap(), Some(todo));
}

#[test]
fn insert_of_a_taken_id_fails_and_changes_nothing() {
    let mut repo = MemoryRepo::new();
    let first = Todo { id: 9, title: "first".to_string(), completed: false };
    repo.insert(first.clone()).unwrap();
    let error = repo
        .insert(Todo { id: 9, title: "second".to_string(), completed: true })
        .unwrap_err();
    assert_eq!(error.to_string(), "duplicate id");
    assert_eq!(repo.list().unwrap(), vec![first]);
}

#[test]
fn create_stores_under_a_new_id() {
    let mut repo = MemoryRepo::new();
    let a = repo.create(NewTodo { title: "same".to_string() }).unwrap();
    let b = repo.create(NewTodo { title: "same".to_string() }).unwrap();
    assert_ne!(a.id, b.id);
    assert_eq!(a.title, "same");
    assert_eq!(b.title, "same");
    assert!(!a.completed && !b.completed);
    assert_eq!(version_of(a.id), 4);
    assert_eq!(variant_of(a.id), 2);
    assert_eq!(repo.list().unwrap(), vec![a, b]);
}

#[test]
fn list_keeps_the_order_of_creation() {
    let mut repo = MemoryRepo::new();
    for id in [5u128, 3, 8] {
        repo.insert(Todo { id, title: format!("todo {}", id), completed: false }).unwrap();
    }
    let ids: Vec<u128> = repo.list().unwrap().iter().map(|t| t.id).collect();
    assert_eq!(ids, vec![5, 3, 8]);

    repo.update(3, UpdateTodo { title: None, completed: Some(true) }).unwrap();
    let ids: Vec<u128> = repo.list().unwrap().iter().map(|t| t.id).collect();
    assert_eq!(ids, vec![5, 3, 8]);

    assert!(repo.delete(5).unwrap());
    let ids: Vec<u128> = repo.list().unwrap().iter().map(|t| t.id).collect();
    assert_eq!(ids, vec![3, 8]);
}

#[test]
fn update_touches_one_row_only() {
    let mut repo = MemoryRepo::new();
    let a = Todo { id: 1, title: "a".to_string(), completed: false };
    let b = Todo { id: 2, title: "b".to_string(), completed: false };
    repo.insert(a.clone()).unwrap();
    repo.insert(b.clone()).unwrap();
    let answer = repo
        .update(2, UpdateTodo { title: Some("B".to_string()), completed: None })
        .unwrap();
    let changed = Todo { id: 2, title: "B".to_string(), completed: false };
    assert_eq!(answer, Some(changed.clone()));
    assert_eq!(repo.get(1).unwrap(), Some(a));
    assert_eq!(repo.get(2).unwrap(), Some(changed));
}

#[test]
fn update_of_a_missing_id_answers_nothing() {
    let mut repo = MemoryRepo::new();
    let a = Todo { id: 1, title: "a".to_string(), completed: false };
    repo.insert(a.clone()).unwrap();
    let answer = repo
        .update(2, UpdateTodo { title: Some("B".to_string()), completed: Some(true) })
        .unwrap();
    assert_eq!(answer, None);
    assert_eq!(repo.list().unwrap(), vec![a]);
}

#[test]
fn delete_says_whether_a_row_was_there() {
    let mut repo = MemoryRepo::new();
    repo.insert(Todo { id: 1, title: "a".to_string(), completed: false }).unwrap();
    assert!(!repo.delete(2).unwrap());
    assert!(repo.delete(1).unwrap());
    assert!(!repo.delete(1).unwrap());
    assert_eq!(repo.list().unwrap(), vec![]);
}

#[test]
fn an_id_can_be_used_again_after_its_delete() {
    let mut repo = MemoryRepo::new();
    repo.insert(Todo { id: 1, title: "a".to_string(), completed: true }).unwrap();
    assert!(repo.delete(1).unwrap());
    let again = Todo { id: 1, title: "b".to_string(), completed: false };
    assert_eq!(repo.insert(again.clone()).unwrap(), again);
    assert_eq!(repo.get(1).unwrap(), Some(again));
}
