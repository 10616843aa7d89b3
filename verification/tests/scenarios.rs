use todo_service::handlers::{
    create_todo, delete_todo, get_todo, list_todos, update_todo, Body, Response, Status,
};
use todo_service::memory::MemoryRepo;
use todo_service::model::{NewTodo, Todo, UpdateTodo};
use todo_service::service::TodoService;

fn service() -> TodoService<MemoryRepo> {
    TodoService::new(MemoryRepo::new())
}

fn todo_of(resp: &Response) -> Todo {
    match &resp.body {
        Body::Todo(todo) => todo.clone(),
        other => panic!("expected one todo, got {:?}", other),
    }
}

fn todos_of(resp: &Response) -> Vec<Todo> {
    match &resp.body {
        Body::Todos(todos) => todos.clone(),
        other => panic!("expected a list of todos, got {:?}", other),
    }
}

fn text_of(resp: &Response) -> String {
    match &resp.body {
        Body::Text(text) => text.clone(),
        other => panic!("expected text, got {:?}", other),
    }
}

fn buy_milk(svc: &mut TodoService<MemoryRepo>) -> Todo {
    let resp = create_todo(svc, NewTodo { title: "buy milk".to_string() });
    assert_eq!(resp.status, Status::Created);
    todo_of(&resp)
}

#[test]
fn list_of_an_empty_store_is_empty() {
    let svc = service();
    let resp = list_todos(&svc);
    assert_eq!(resp.status, Status::Success);
    assert_eq!(resp.status.code(), 200);
    assert_eq!(todos_of(&resp), vec![]);
}

#[test]
fn create_then_get_gives_the_same_todo() {
    let mut svc = service();
    let resp = create_todo(&mut svc, NewTodo { title: "buy milk".to_string() });
    assert_eq!(resp.status.code(), 201);
    let made = todo_of(&resp);
    assert_eq!(made.title, "buy milk");
    assert!(!made.completed);

    let resp = get_todo(&svc, made.id);
    assert_eq!(resp.status.code(), 200);
    assert_eq!(todo_of(&resp), made);
}

#[test]
fn update_of_the_flag_keeps_the_title_and_shows_in_the_list() {
    let mut svc = service();
    let made = buy_milk(&mut svc);

    let resp = update_todo(&mut svc, made.id, UpdateTodo { title: None, completed: Some(true) });
    assert_eq!(resp.status.code(), 200);
    let expected = Todo { id: made.id, title: "buy milk".to_string(), completed: true };
    assert_eq!(todo_of(&resp), expected);

    let resp = list_todos(&svc);
    assert_eq!(resp.status.code(), 200);
    assert_eq!(todos_of(&resp), vec![expected]);
}

#[test]
fn update_with_nothing_changes_nothing() {
    let mut svc = service();
    let made = buy_milk(&mut svc);
    let resp = update_todo(&mut svc, made.id, UpdateTodo { title: None, completed: Some(true) });
    let before = todo_of(&resp);

    let resp = update_todo(&mut svc, made.id, UpdateTodo { title: None, completed: None });
    assert_eq!(resp.status.code(), 200);
    assert_eq!(todo_of(&resp), before);
    assert_eq!(todo_of(&get_todo(&svc, made.id)), before);

    let resp = update_todo(&mut svc, made.id, UpdateTodo { title: None, completed: None });
    assert_eq!(resp.status.code(), 200);
    assert_eq!(todo_of(&resp), before);
}

#[test]
fn delete_then_get_and_delete_find_nothing() {
    let mut svc = service();
    let made = buy_milk(&mut svc);

    let resp = delete_todo(&mut svc, made.id);
    assert_eq!(resp.status, Status::NoContent);
    assert_eq!(resp.status.code(), 204);
    assert!(matches!(resp.body, Body::Empty));

    let resp = get_todo(&svc, made.id);
    assert_eq!(resp.status.code(), 404);
    assert_eq!(text_of(&resp), "Not found");

    let resp = delete_todo(&mut svc, made.id);
    assert_eq!(resp.status.code(), 404);
    assert_eq!(text_of(&resp), "Not found");

    assert_eq!(todos_of(&list_todos(&svc)), vec![]);
}

#[test]
fn update_of_an_unknown_id_is_not_found_and_writes_nothing() {
    let mut svc = service();
    let made = buy_milk(&mut svc);
    let other = made.id ^ 1;

    let resp = update_todo(
        &mut svc,
        other,
        UpdateTodo { title: Some("x".to_string()), completed: Some(true) },
    );
    assert_eq!(resp.status, Status::NotFound);
    assert_eq!(text_of(&resp), "Not found");
    assert_eq!(todos_of(&list_todos(&svc)), vec![made]);
}
