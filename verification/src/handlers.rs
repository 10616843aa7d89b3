//! The handlers: one per route. Each asks the service and turns what it
//! answers into a status and a body.

use vstd::prelude::*;
use crate::ident::is_random_uuid;
use crate::model::{NewTodo, Todo, TodoView, UpdateTodo, UpdateView, created, no_change, row};
use crate::repository::{StoreError, TodoRepository};
use crate::service::TodoService;
use crate::store::{Rows, after_delete, after_update, is_listing, stored, update_answer, with_row};

verus! {

/// The statuses that the handlers answer with.
#[derive(Clone, Copy, Debug, PartialEq, Eq, Structural)]
pub enum Status {
    Success,
    Created,
    NoContent,
    NotFound,
    InternalServerError,
}

impl Status {
    /// The number of the status.
    pub open spec fn number(self) -> u16 {
        match self {
            Status::Success => 200,
            Status::Created => 201,
            Status::NoContent => 204,
            Status::NotFound => 404,
            Status::InternalServerError => 500,
        }
    }

    /// The number of the status.
    pub fn code(&self) -> (code: u16)
        ensures
            code == self.number(),
    {
        match self {
            Status::Success => 200,
            Status::Created => 201,
            Status::NoContent => 204,
            Status::NotFound => 404,
            Status::InternalServerError => 500,
        }
    }
}

/// What a response carries: nothing, plain text, or a todo or a list of
/// todos to be written as JSON.
#[derive(Debug)]
pub enum Body {
    Empty,
    Text(String),
    Todo(Todo),
    Todos(Vec<Todo>),
}

/// A body as a mathematical value.
pub enum BodyView {
    Empty,
    Text(Seq<char>),
    Todo(TodoView),
    Todos(Seq<TodoView>),
}

impl View for Body {
    type V = BodyView;

    open spec fn view(&self) -> BodyView {
        match self {
            Body::Empty => BodyView::Empty,
            Body::Text(text) => BodyView::Text(text@),
            Body::Todo(todo) => BodyView::Todo(todo@),
            Body::Todos(todos) => BodyView::Todos(todos.deep_view()),
        }
    }
}

/// A response: a status and a body.
#[derive(Debug)]
pub struct Response {
    pub status: Status,
    pub body: Body,
}

/// A response as a mathematical value.
pub struct ResponseView {
    pub status: Status,
    pub body: BodyView,
}

impl View for Response {
    type V = ResponseView;

    open spec fn view(&self) -> ResponseView {
        ResponseView { status: self.status, body: self.body@ }
    }
}

/// The text of a response that found no todo.
pub open spec fn not_found_text() -> Seq<char> {
    "Not found"@
}

/// The response that carries one todo under `status`.
pub open spec fn one_todo(status: Status, todo: TodoView) -> ResponseView {
    ResponseView { status, body: BodyView::Todo(todo) }
}

/// The response that carries every todo.
pub open spec fn all_todos(listed: Seq<TodoView>) -> ResponseView {
    ResponseView { status: Status::Success, body: BodyView::Todos(listed) }
}

/// The response to a request for a todo that is not there.
pub open spec fn not_found() -> ResponseView {
    ResponseView { status: Status::NotFound, body: BodyView::Text(not_found_text()) }
}

/// The response to a request on which the store failed with `message`.
pub open spec fn failure(message: Seq<char>) -> ResponseView {
    ResponseView { status: Status::InternalServerError, body: BodyView::Text(message) }
}

/// The response that reports a removal: 204 without a body.
pub open spec fn removed() -> ResponseView {
    ResponseView { status: Status::NoContent, body: BodyView::Empty }
}

/// The response to a list request that the service answered with `answer`.
pub open spec fn list_response(answer: Result<Vec<Todo>, StoreError>) -> ResponseView {
    match answer {
        Ok(todos) => all_todos(todos.deep_view()),
        Err(error) => failure(error@),
    }
}

/// The response to a create request that the service answered with `answer`.
pub open spec fn create_response(answer: Result<Todo, StoreError>) -> ResponseView {
    match answer {
        Ok(todo) => one_todo(Status::Created, todo@),
        Err(error) => failure(error@),
    }
}

/// The response to a get or an update request that the service answered with
/// `answer`.
pub open spec fn lookup_response(answer: Result<Option<Todo>, StoreError>) -> ResponseView {
    match answer {
        Ok(Some(todo)) => one_todo(Status::Success, todo@),
        Ok(None) => not_found(),
        Err(error) => failure(error@),
    }
}

/// The response to a delete request that the service answered with `answer`.
pub open spec fn delete_response(answer: Result<bool, StoreError>) -> ResponseView {
    match answer {
        Ok(true) => removed(),
        Ok(false) => not_found(),
        Err(error) => failure(error@),
    }
}

fn not_found_reply() -> (resp: Response)
    ensures
        resp@ == not_found(),
{
    Response { status: Status::NotFound, body: Body::Text("Not found".to_owned()) }
}

fn failure_reply(error: StoreError) -> (resp: Response)
    ensures
        resp@ == failure(error@),
{
    Response { status: Status::InternalServerError, body: Body::Text(error.to_string()) }
}

/// Answers a list request from what the service said: 200 with the todos, or
/// 500 with the failure's message.
pub fn list_reply(answer: Result<Vec<Todo>, StoreError>) -> (resp: Response)
    ensures
        resp@ == list_response(answer),
{
    match answer {
        Ok(todos) => Response { status: Status::Success, body: Body::Todos(todos) },
        Err(error) => failure_reply(error),
    }
}

/// Answers a create request from what the service said: 201 with the new
/// todo, or 500 with the failure's message.
pub fn create_reply(answer: Result<Todo, StoreError>) -> (resp: Response)
    ensures
        resp@ == create_response(answer),
{
    match answer {
        Ok(todo) => Response { status: Status::Created, body: Body::Todo(todo) },
        Err(error) => failure_reply(error),
    }
}

/// Answers a get request from what the service said: 200 with the todo, 404
/// where there is none, or 500 with the failure's message.
pub fn get_reply(answer: Result<Option<Todo>, StoreError>) -> (resp: Response)
    ensures
        resp@ == lookup_response(answer),
{
    match answer {
        Ok(Some(todo)) => Response { status: Status::Success, body: Body::Todo(todo) },
        Ok(None) => not_found_reply(),
        Err(error) => failure_reply(error),
    }
}

/// Answers an update request from what the service said: 200 with the
/// updated todo, 404 where there is none, or 500 with the failure's message.
pub fn update_reply(answer: Result<Option<Todo>, StoreError>) -> (resp: Response)
    ensures
        resp@ == lookup_response(answer),
{
    match answer {
        Ok(Some(todo)) => Response { status: Status::Success, body: Body::Todo(todo) },
        Ok(None) => not_found_reply(),
        Err(error) => failure_reply(error),
    }
}

/// Answers a delete request from what the service said: 204 without a body
/// where a todo was removed, 404 where there was none, or 500 with the
/// failure's message.
pub fn delete_reply(answer: Result<bool, StoreError>) -> (resp: Response)
    ensures
        resp@ == delete_response(answer),
{
    match answer {
        Ok(true) => Response { status: Status::NoContent, body: Body::Empty },
        Ok(false) => not_found_reply(),
        Err(error) => failure_reply(error),
    }
}

/// Whether `resp` is a response to a request on which the store failed.
pub open spec fn is_failure(resp: ResponseView) -> bool {
    resp.status == Status::InternalServerError && resp.body is Text
}

/// Whether `resp` answers a list request on a store that holds `rows`.
pub open spec fn answers_list(rows: Rows, resp: ResponseView) -> bool {
    ||| {
        &&& resp.status == Status::Success
        &&& resp.body matches BodyView::Todos(listed)
        &&& is_listing(rows, listed)
    }
    ||| is_failure(resp)
}

/// Whether `resp` answers a create request for `title` that took a store
/// from `before` to `after`.
pub open spec fn answers_create(
    before: Rows,
    after: Rows,
    title: Seq<char>,
    resp: ResponseView,
) -> bool {
    ||| {
        &&& resp.status == Status::Created
        &&& resp.body matches BodyView::Todo(todo)
        &&& is_random_uuid(todo.id)
        &&& !before.contains_key(todo.id)
        &&& todo == created(todo.id, title)
        &&& after == with_row(before, todo)
    }
    ||| is_failure(resp)
}

/// Whether `resp` answers a get request for `id` on a store that holds `rows`.
pub open spec fn answers_get(rows: Rows, id: u128, resp: ResponseView) -> bool {
    ||| {
        &&& stored(rows, id) matches Some(todo)
        &&& resp == one_todo(Status::Success, todo)
    }
    ||| {
        &&& stored(rows, id) is None
        &&& resp == not_found()
    }
    ||| is_failure(resp)
}

/// Whether `resp` answers an update request for `id` with `change` that took
/// a store from `before` to `after`.
pub open spec fn answers_update(
    before: Rows,
    after: Rows,
    id: u128,
    change: UpdateView,
    resp: ResponseView,
) -> bool {
    ||| {
        &&& update_answer(before, id, change) matches Some(todo)
        &&& resp == one_todo(Status::Success, todo)
        &&& after == after_update(before, id, change)
    }
    ||| {
        &&& update_answer(before, id, change) is None
        &&& resp == not_found()
        &&& after == before
    }
    ||| is_failure(resp)
}

/// Whether `resp` answers a delete request for `id` that took a store from
/// `before` to `after`.
pub open spec fn answers_delete(before: Rows, after: Rows, id: u128, resp: ResponseView) -> bool {
    ||| {
        &&& before.contains_key(id)
        &&& resp == removed()
        &&& after == after_delete(before, id)
    }
    ||| {
        &&& !before.contains_key(id)
        &&& resp == not_found()
        &&& after == before
    }
    ||| is_failure(resp)
}

/// After a create that was answered with 201, a get of the new id that the
/// store does not fail on is answered with 200 and the body of the create.
pub proof fn lemma_get_after_create(
    before: Rows,
    after: Rows,
    title: Seq<char>,
    made: ResponseView,
    id: u128,
    got: ResponseView,
)
    requires
        answers_create(before, after, title, made),
        made.body == BodyView::Todo(created(id, title)),
        made.status == Status::Created,
        answers_get(after, id, got),
        !is_failure(got),
    ensures
        got.status == Status::Success,
        got.body == made.body,
{
}

/// After an update that was answered with 200, a get of the same id that the
/// store does not fail on is answered with 200 and the body of the update.
pub proof fn lemma_get_after_update(
    before: Rows,
    after: Rows,
    id: u128,
    change: UpdateView,
    updated: ResponseView,
    got: ResponseView,
)
    requires
        answers_update(before, after, id, change, updated),
        updated.status == Status::Success,
        answers_get(after, id, got),
        !is_failure(got),
    ensures
        got == updated,
{
}

/// After a delete that was answered with 204, a get and a second delete of
/// the same id are answered with 404 unless the store fails on them, and the
/// second delete that is answered with 404 changes nothing.
pub proof fn lemma_gone_after_delete(
    before: Rows,
    after: Rows,
    id: u128,
    deleted: ResponseView,
    got: ResponseView,
    last: Rows,
    again: ResponseView,
)
    requires
        answers_delete(before, after, id, deleted),
        deleted.status == Status::NoContent,
        answers_get(after, id, got),
        answers_delete(after, last, id, again),
    ensures
        got == not_found() || is_failure(got),
        again == not_found() || is_failure(again),
        again == not_found() ==> last == after,
{
}

/// An update that carries nothing and finds its todo is answered with 200
/// and the stored todo, and leaves the store as it was.
pub proof fn lemma_empty_update(before: Rows, after: Rows, id: u128, resp: ResponseView)
    requires
        before.contains_key(id),
        answers_update(before, after, id, no_change(), resp),
        !is_failure(resp),
    ensures
        resp == one_todo(Status::Success, row(id, before[id])),
        after == before,
{
    assert(after_update(before, id, no_change()) =~= before);
}

/// An update that is answered with 200 answers the todo of that id with the
/// fields that the change carries, and every other field as the store held
/// it.
pub proof fn lemma_update_keeps_other_field(
    before: Rows,
    after: Rows,
    id: u128,
    change: UpdateView,
    resp: ResponseView,
)
    requires
        answers_update(before, after, id, change, resp),
        resp.status == Status::Success,
    ensures
        before.contains_key(id),
        resp.body is Todo,
        resp.body->Todo_0.id == id,
        change.title is None ==> resp.body->Todo_0.title == before[id].title,
        change.completed is None ==> resp.body->Todo_0.completed == before[id].completed,
        change.title is Some ==> resp.body->Todo_0.title == change.title->0,
        change.completed is Some ==> resp.body->Todo_0.completed == change.completed->0,
{
}

/// `GET /todos`: 200 with every todo, or 500 where the store failed.
pub fn list_todos<R: TodoRepository>(svc: &TodoService<R>) -> (resp: Response)
    ensures
        answers_list(svc.repo.rows(), resp@),
        (exists|answer: Result<Vec<Todo>, StoreError>|
            #[trigger] call_ensures(TodoService::<R>::list, (svc,), answer) && resp@
                == list_response(answer)),
{
    list_reply(svc.list())
}

/// `POST /todos`: 201 with the todo that was created, or 500 where the store
/// failed.
pub fn create_todo<R: TodoRepository>(svc: &mut TodoService<R>, payload: NewTodo) -> (resp: Response)
    ensures
        answers_create(old(svc).repo.rows(), final(svc).repo.rows(), payload@, resp@),
        (exists|service: &mut TodoService<R>, answer: Result<Todo, StoreError>|
            #[trigger] call_ensures(TodoService::<R>::create, (service, payload), answer)
                && *service == *old(svc) && *final(service) == *final(svc) && resp@
                == create_response(answer)),
{
    create_reply(svc.create(payload))
}

/// `GET /todos/{id}`: 200 with the todo, 404 where there is none, or 500
/// where the store failed.
pub fn get_todo<R: TodoRepository>(svc: &TodoService<R>, id: u128) -> (resp: Response)
    ensures
        answers_get(svc.repo.rows(), id, resp@),
        (exists|answer: Result<Option<Todo>, StoreError>|
            #[trigger] call_ensures(TodoService::<R>::get, (svc, id), answer) && resp@
                == lookup_response(answer)),
{
    get_reply(svc.get(id))
}

/// `PUT /todos/{id}`: 200 with the updated todo, 404 where there is none, or
/// 500 where the store failed.
pub fn update_todo<R: TodoRepository>(
    svc: &mut TodoService<R>,
    id: u128,
    payload: UpdateTodo,
) -> (resp: Response)
    ensures
        answers_update(old(svc).repo.rows(), final(svc).repo.rows(), id, payload@, resp@),
        (exists|service: &mut TodoService<R>, answer: Result<Option<Todo>, StoreError>|
            #[trigger] call_ensures(TodoService::<R>::update, (service, id, payload), answer)
                && *service == *old(svc) && *final(service) == *final(svc) && resp@
                == lookup_response(answer)),
{
    update_reply(svc.update(id, payload))
}

/// `DELETE /todos/{id}`: 204 where the todo was removed, 404 where there was
/// none, or 500 where the store failed.
pub fn delete_todo<R: TodoRepository>(svc: &mut TodoService<R>, id: u128) -> (resp: Response)
    ensures
        answers_delete(old(svc).repo.rows(), final(svc).repo.rows(), id, resp@),
        (exists|service: &mut TodoService<R>, answer: Result<bool, StoreError>|
            #[trigger] call_ensures(TodoService::<R>::delete, (service, id), answer)
                && *service == *old(svc) && *final(service) == *final(svc) && resp@
                == delete_response(answer)),
{
    let answer = svc.delete(id);
    proof {
        if answer == Ok::<bool, StoreError>(false) {
            assert(after_delete(old(svc).repo.rows(), id) =~= old(svc).repo.rows());
        }
    }
    delete_reply(answer)
}

} // verus!
