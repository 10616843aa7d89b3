//! The service: the boundary between the handlers and the repository.

use vstd::prelude::*;
use crate::ident::is_random_uuid;
use crate::model::{NewTodo, Todo, UpdateTodo, created};
use crate::repository::{StoreError, TodoRepository};
use crate::store::{after_delete, after_update, is_listing, stored, update_answer, with_row};

verus! {

/// The todo service over a repository `R`. It adds no rule of its own yet:
/// each operation hands its arguments to the repository's operation of the
/// same name and hands back what that one answers. The contracts say so in
/// their last clause: the answer, and for an operation that writes the step
/// of the repository from its value before to its value after, is an outcome
/// of the repository's own operation.
pub struct TodoService<R: TodoRepository> {
    pub repo: R,
}

impl<R: TodoRepository> TodoService<R> {
    /// The service over `repo`.
    pub fn new(repo: R) -> (svc: Self)
        ensures
            svc.repo == repo,
    {
        Self { repo }
    }

    /// Every todo, each once, in no particular order.
    pub fn list(&self) -> (answer: Result<Vec<Todo>, StoreError>)
        ensures
            answer matches Ok(todos) ==> is_listing(self.repo.rows(), todos.deep_view()),
            call_ensures(R::list, (&self.repo,), answer),
    {
        self.repo.list()
    }

    /// Stores a todo with the given title under a new random id, not
    /// completed, and answers it.
    pub fn create(&mut self, new: NewTodo) -> (answer: Result<Todo, StoreError>)
        ensures
            answer matches Ok(todo) ==> ({
                &&& is_random_uuid(todo.id)
                &&& !old(self).repo.rows().contains_key(todo.id)
                &&& todo@ == created(todo.id, new@)
                &&& final(self).repo.rows() == with_row(old(self).repo.rows(), todo@)
            }),
            (exists|repo: &mut R|
                #[trigger] call_ensures(R::create, (repo, new), answer) && *repo == old(self).repo
                    && *final(repo) == final(self).repo),
    {
        self.repo.create(new)
    }

    /// The todo stored under `id`, or nothing.
    pub fn get(&self, id: u128) -> (answer: Result<Option<Todo>, StoreError>)
        ensures
            answer matches Ok(found) ==> found.deep_view() == stored(self.repo.rows(), id),
            call_ensures(R::get, (&self.repo, id), answer),
    {
        self.repo.get(id)
    }

    /// Merges `upd` into the todo stored under `id` and answers the outcome,
    /// or nothing where no todo has that id.
    pub fn update(&mut self, id: u128, upd: UpdateTodo) -> (answer: Result<Option<Todo>, StoreError>)
        ensures
            answer matches Ok(found) ==> ({
                &&& found.deep_view() == update_answer(old(self).repo.rows(), id, upd@)
                &&& final(self).repo.rows() == after_update(old(self).repo.rows(), id, upd@)
            }),
            (exists|repo: &mut R|
                #[trigger] call_ensures(R::update, (repo, id, upd), answer) && *repo == old(
                    self,
                ).repo && *final(repo) == final(self).repo),
    {
        self.repo.update(id, upd)
    }

    /// Removes the todo stored under `id` and says whether there was one.
    pub fn delete(&mut self, id: u128) -> (answer: Result<bool, StoreError>)
        ensures
            answer matches Ok(removed) ==> ({
                &&& removed == old(self).repo.rows().contains_key(id)
                &&& final(self).repo.rows() == after_delete(old(self).repo.rows(), id)
            }),
            (exists|repo: &mut R|
                #[trigger] call_ensures(R::delete, (repo, id), answer) && *repo == old(self).repo
                    && *final(repo) == final(self).repo),
    {
        self.repo.delete(id)
    }
}

} // verus!
