//! The interface between the service and whatever keeps the todos.

use vstd::prelude::*;
use crate::ident::{fresh_id, is_random_uuid};
use crate::model::{NewTodo, Todo, UpdateTodo, created, merged};
use crate::store::{Rows, after_delete, after_update, is_listing, stored, update_answer, with_row};

verus! {

/// A failure of the store, carrying a message for a human reader.
#[derive(Debug)]
pub struct StoreError {
    pub message: String,
}

impl View for StoreError {
    type V = Seq<char>;

    open spec fn view(&self) -> Seq<char> {
        self.message@
    }
}

impl StoreError {
    /// A failure with the given message.
    pub fn new(message: &str) -> (error: Self)
        ensures
            error@ == message@,
    {
        StoreError { message: message.to_owned() }
    }

    /// The message, as the text that a failed request is answered with.
    pub fn to_string(&self) -> (text: String)
        ensures
            text@ == self@,
    {
        self.message.clone()
    }
}

/// The five operations that the service needs of a store of todos.
///
/// `rows` is what the store holds. Each operation may fail, and nothing is
/// said of the store after a failure; where it succeeds, its answer and the
/// rows after it are the ones that the functions of `store` give for the rows
/// before it. The operations that write take the repository exclusively: the
/// contracts describe a store that nobody else writes to in the meantime.
///
/// An implementation that is not verified, such as one that talks to a
/// database, is held to these contracts by trust alone.
pub trait TodoRepository {
    /// What the store holds. Contracts alone speak of it: nothing calls it
    /// when the program runs.
    spec fn rows(&self) -> Rows;

    /// Every todo, each once, in no particular order.
    fn list(&self) -> (answer: Result<Vec<Todo>, StoreError>)
        ensures
            answer matches Ok(todos) ==> is_listing(self.rows(), todos.deep_view()),
    ;

    /// Stores a todo with the given title under a new random id, not
    /// completed, and answers it.
    fn create(&mut self, new: NewTodo) -> (answer: Result<Todo, StoreError>)
        ensures
            answer matches Ok(todo) ==> ({
                &&& is_random_uuid(todo.id)
                &&& !old(self).rows().contains_key(todo.id)
                &&& todo@ == created(todo.id, new@)
                &&& final(self).rows() == with_row(old(self).rows(), todo@)
            }),
    ;

    /// The todo stored under `id`, or nothing.
    fn get(&self, id: u128) -> (answer: Result<Option<Todo>, StoreError>)
        ensures
            answer matches Ok(found) ==> found.deep_view() == stored(self.rows(), id),
    ;

    /// Merges `upd` into the todo stored under `id`, stores the outcome and
    /// answers it; answers nothing, and writes nothing, where no todo has
    /// that id.
    fn update(&mut self, id: u128, upd: UpdateTodo) -> (answer: Result<Option<Todo>, StoreError>)
        ensures
            answer matches Ok(found) ==> ({
                &&& found.deep_view() == update_answer(old(self).rows(), id, upd@)
                &&& final(self).rows() == after_update(old(self).rows(), id, upd@)
            }),
    ;

    /// Removes the todo stored under `id` and says whether there was one.
    fn delete(&mut self, id: u128) -> (answer: Result<bool, StoreError>)
        ensures
            answer matches Ok(removed) ==> ({
                &&& removed == old(self).rows().contains_key(id)
                &&& final(self).rows() == after_delete(old(self).rows(), id)
            }),
    ;
}

/// The todo that a create request becomes under the id `id`.
pub fn row_with_id(id: u128, new: NewTodo) -> (todo: Todo)
    ensures
        todo@ == created(id, new@),
{
    Todo { id, title: new.title, completed: false }
}

/// The todo that a create request becomes: the requested title under a new
/// random id, not completed. Which id it gets is not determined.
pub fn new_row(new: NewTodo) -> (todo: Todo)
    ensures
        is_random_uuid(todo.id),
        todo@ == created(todo.id, new@),
{
    let id: u128 = fresh_id();
    row_with_id(id, new)
}

/// What an update writes: the todo that was read with `upd` merged into it,
/// or nothing where the read found no row.
pub fn plan_update(existing: Option<Todo>, upd: UpdateTodo) -> (next: Option<Todo>)
    ensures
        next.deep_view() == (match existing {
            Some(current) => Some(merged(current@, upd@)),
            None => None,
        }),
{
    match existing {
        Some(current) => Some(upd.apply(&current)),
        None => None,
    }
}

/// Whether a delete that touched `rows_affected` rows removed a todo.
pub fn removed_any(rows_affected: u64) -> (removed: bool)
    ensures
        removed == (rows_affected > 0),
{
    rows_affected > 0
}

} // verus!
