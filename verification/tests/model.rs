use todo_service::model::{NewTodo, Todo, UpdateTodo};

fn milk() -> Todo {
    Todo { id: 0x1234, title: "buy milk".to_string(), completed: false }
}

#[test]
fn apply_with_nothing_keeps_the_todo() {
    let next = UpdateTodo { title: None, completed: None }.apply(&milk());
    assert_eq!(next, milk());
}

#[test]
fn apply_with_a_title_keeps_the_flag() {
    let mut current = milk();
    current.completed = true;
    let next = UpdateTodo { title: Some("buy bread".to_string()), completed: None }.apply(&current);
    assert_eq!(next.id, 0x1234);
    assert_eq!(next.title, "buy bread");
    assert!(next.completed);
}

#[test]
fn apply_with_a_flag_keeps_the_title() {
    let next = UpdateTodo { title: None, completed: Some(true) }.apply(&milk());
    assert_eq!(next.id, 0x1234);
    assert_eq!(next.title, "buy milk");
    assert!(next.completed);
}

#[test]
fn apply_with_both_fields_replaces_both() {
    let next =
        UpdateTodo { title: Some("walk".to_string()), completed: Some(true) }.apply(&milk());
    assert_eq!(next, Todo { id: 0x1234, title: "walk".to_string(), completed: true });
}

#[test]
fn apply_accepts_an_empty_title() {
    let next = UpdateTodo { title: Some(String::new()), completed: None }.apply(&milk());
    assert_eq!(next.title, "");
    assert!(!next.completed);
}

#[test]
fn apply_can_clear_the_flag() {
    let mut current = milk();
    current.completed = true;
    let next = UpdateTodo { title: None, completed: Some(false) }.apply(&current);
    assert_eq!(next, milk());
}

#[test]
fn apply_twice_is_apply_once() {
    let change = UpdateTodo { title: Some("walk".to_string()), completed: None };
    let once = change.clone().apply(&milk());
    let twice = change.apply(&once);
    assert_eq!(twice, once);
}

#[test]
fn todos_are_equal_when_all_fields_are() {
    assert_eq!(milk(), milk());
    assert_ne!(milk(), Todo { id: 0x1235, ..milk() });
    assert_ne!(milk(), Todo { title: "buy Milk".to_string(), ..milk() });
    assert_ne!(milk(), Todo { completed: true, ..milk() });
}

#[test]
fn clones_are_equal_to_their_source() {
    let todo = milk();
    assert_eq!(todo.clone(), todo);
    let new = NewTodo { title: "x".to_string() };
    assert_eq!(new.clone().title, "x");
    let change = UpdateTodo { title: Some("y".to_string()), completed: Some(true) };
    let copy = change.clone();
    assert_eq!(copy.title, Some("y".to_string()));
    assert_eq!(copy.completed, Some(true));
}
