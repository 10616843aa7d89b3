//! A repository that keeps its todos in memory, in the order in which they
//! were created.

use vstd::prelude::*;
use crate::ident::is_random_uuid;
use crate::model::{Content, NewTodo, Todo, TodoView, UpdateTodo, UpdateView, merged};
use crate::repository::{StoreError, TodoRepository, new_row, plan_update};
use crate::store::{
    Rows, after_delete, distinct_ids, has_id, is_listing, lemma_same_rows, stored, with_row,
};

verus! {

/// The todos of a sequence as mathematical values.
pub open spec fn views(todos: Seq<Todo>) -> Seq<TodoView> {
    Seq::new(todos.len(), |i: int| todos[i]@)
}

/// A place in `listed` at which the id `id` stands, where there is one.
pub open spec fn index_of(listed: Seq<TodoView>, id: u128) -> int {
    choose|i: int| 0 <= i < listed.len() && (#[trigger] listed[i]).id == id
}

/// The rows that a sequence of todos stands for: under each id that occurs,
/// the content of a todo with that id.
pub open spec fn rows_of(listed: Seq<TodoView>) -> Rows {
    Map::new(|id: u128| has_id(listed, id), |id: u128| listed[index_of(listed, id)].content())
}

/// `listed` after an update of `id` by `change`: the merged todo stands where
/// the old one stood.
pub open spec fn listed_after_update(
    listed: Seq<TodoView>,
    id: u128,
    change: UpdateView,
) -> Seq<TodoView> {
    if has_id(listed, id) {
        let at = index_of(listed, id);
        listed.update(at, merged(listed[at], change))
    } else {
        listed
    }
}

/// `listed` after a delete of `id`: the others, in the order that they had.
pub open spec fn listed_after_delete(listed: Seq<TodoView>, id: u128) -> Seq<TodoView> {
    if has_id(listed, id) {
        listed.remove(index_of(listed, id))
    } else {
        listed
    }
}

/// Among todos with distinct ids, each stands at the one place of its id and
/// is the one that the rows hold under it.
pub proof fn lemma_rows_at(listed: Seq<TodoView>, at: int)
    requires
        distinct_ids(listed),
        0 <= at < listed.len(),
    ensures
        has_id(listed, listed[at].id),
        index_of(listed, listed[at].id) == at,
        stored(rows_of(listed), listed[at].id) == Some(listed[at]),
{
    let chosen = index_of(listed, listed[at].id);
    if chosen < at {
        assert(listed[chosen].id != listed[at].id);
    } else if at < chosen {
        assert(listed[at].id != listed[chosen].id);
    }
}

/// Todos with distinct ids are a listing of the rows that they stand for.
pub proof fn lemma_rows_listed(listed: Seq<TodoView>)
    requires
        distinct_ids(listed),
    ensures
        is_listing(rows_of(listed), listed),
{
    assert forall|i: int| 0 <= i < listed.len() implies stored(
        rows_of(listed),
        (#[trigger] listed[i]).id,
    ) == Some(listed[i]) by {
        lemma_rows_at(listed, i);
    }
}

/// Appending a todo whose id does not occur yet writes one row.
pub proof fn lemma_rows_push(listed: Seq<TodoView>, todo: TodoView)
    requires
        distinct_ids(listed),
        !has_id(listed, todo.id),
    ensures
        distinct_ids(listed.push(todo)),
        rows_of(listed.push(todo)) == with_row(rows_of(listed), todo),
{
    let longer = listed.push(todo);
    let last = listed.len() as int;
    assert(distinct_ids(longer)) by {
        assert forall|i: int, j: int| 0 <= i < j < longer.len() implies (#[trigger] longer[i]).id
            != (#[trigger] longer[j]).id by {
            assert(listed[i].id != longer[j].id);
        }
    }
    assert forall|id: u128|
        #[trigger] stored(rows_of(longer), id) == stored(with_row(rows_of(listed), todo), id) by {
        if id == todo.id {
            lemma_rows_at(longer, last);
        } else if has_id(listed, id) {
            let i = index_of(listed, id);
            assert(longer[i] == listed[i]);
            lemma_rows_at(longer, i);
            lemma_rows_at(listed, i);
        } else if has_id(longer, id) {
            assert(listed[index_of(longer, id)].id == id);
        }
    }
    lemma_same_rows(rows_of(longer), with_row(rows_of(listed), todo));
}

/// Putting a todo in the place of one with the same id rewrites that row.
pub proof fn lemma_rows_update(listed: Seq<TodoView>, at: int, todo: TodoView)
    requires
        distinct_ids(listed),
        0 <= at < listed.len(),
        listed[at].id == todo.id,
    ensures
        distinct_ids(listed.update(at, todo)),
        rows_of(listed.update(at, todo)) == with_row(rows_of(listed), todo),
{
    let changed = listed.update(at, todo);
    assert(distinct_ids(changed)) by {
        assert forall|i: int, j: int| 0 <= i < j < changed.len() implies (#[trigger] changed[i]).id
            != (#[trigger] changed[j]).id by {
            assert(listed[i].id != listed[j].id);
        }
    }
    assert forall|id: u128|
        #[trigger] stored(rows_of(changed), id) == stored(with_row(rows_of(listed), todo), id) by {
        if id == todo.id {
            lemma_rows_at(changed, at);
        } else if has_id(listed, id) {
            let i = index_of(listed, id);
            assert(changed[i] == listed[i]);
            lemma_rows_at(changed, i);
            lemma_rows_at(listed, i);
        } else if has_id(changed, id) {
            assert(listed[index_of(changed, id)].id == id);
        }
    }
    lemma_same_rows(rows_of(changed), with_row(rows_of(listed), todo));
}

/// Taking a todo out removes its row and no other.
pub proof fn lemma_rows_remove(listed: Seq<TodoView>, at: int)
    requires
        distinct_ids(listed),
        0 <= at < listed.len(),
    ensures
        distinct_ids(listed.remove(at)),
        rows_of(listed.remove(at)) == after_delete(rows_of(listed), listed[at].id),
{
    let shorter = listed.remove(at);
    let gone = listed[at].id;
    let from = |i: int| if i < at { i } else { i + 1 };
    assert forall|i: int| 0 <= i < shorter.len() implies #[trigger] shorter[i] == listed[from(i)] by {}
    assert(distinct_ids(shorter)) by {
        assert forall|i: int, j: int| 0 <= i < j < shorter.len() implies (#[trigger] shorter[i]).id
            != (#[trigger] shorter[j]).id by {
            assert(listed[from(i)].id != listed[from(j)].id);
        }
    }
    assert forall|id: u128|
        #[trigger] stored(rows_of(shorter), id) == stored(after_delete(rows_of(listed), gone), id) by {
        if has_id(shorter, id) {
            let i = index_of(shorter, id);
            lemma_rows_at(shorter, i);
            lemma_rows_at(listed, from(i));
            lemma_rows_at(listed, at);
        } else if has_id(listed, id) && id != gone {
            let i = index_of(listed, id);
            let to = if i < at { i } else { i - 1 };
            assert(shorter[to].id == id);
        }
    }
    lemma_same_rows(rows_of(shorter), after_delete(rows_of(listed), gone));
}

/// A store of todos in memory. It keeps them in the order in which they were
/// created, and no two of them share an id. It fails on one occasion only:
/// when the id drawn for a new todo is already taken.
pub struct MemoryRepo {
    items: Vec<Todo>,
}

impl MemoryRepo {
    #[verifier::type_invariant]
    spec fn well_formed(&self) -> bool {
        distinct_ids(views(self.items@))
    }

    /// The todos in the order in which they were created.
    pub closed spec fn listed(&self) -> Seq<TodoView> {
        views(self.items@)
    }

    /// A store without todos.
    pub fn new() -> (repo: Self)
        ensures
            repo.listed() == Seq::<TodoView>::empty(),
            repo.rows() == Map::<u128, Content>::empty(),
            distinct_ids(repo.listed()),
    {
        let repo = MemoryRepo { items: Vec::new() };
        assert(views(repo.items@) =~= Seq::<TodoView>::empty());
        assert(rows_of(Seq::<TodoView>::empty()) =~= Map::<u128, Content>::empty());
        repo
    }

    /// Hands out the todos and leaves none behind.
    fn take_items(&mut self) -> (items: Vec<Todo>)
        ensures
            items == old(self).items,
            final(self).items@ == Seq::<Todo>::empty(),
    {
        let mut items: Vec<Todo> = Vec::new();
        assert(views(items@) =~= Seq::<TodoView>::empty());
        core::mem::swap(&mut self.items, &mut items);
        items
    }

    /// Takes `items` as the todos of this store.
    fn put_items(&mut self, items: Vec<Todo>)
        requires
            distinct_ids(views(items@)),
        ensures
            final(self).items == items,
    {
        let mut items = items;
        core::mem::swap(&mut self.items, &mut items);
    }

    /// Where the todo with the id `id` stands, if there is one.
    fn position(&self, id: u128) -> (at: Option<usize>)
        ensures
            at matches Some(i) ==> i < self.items.len() && self.items[i as int].id == id,
            at is None ==> !has_id(self.listed(), id),
    {
        let mut i: usize = 0;
        while i < self.items.len()
            invariant
                i <= self.items.len(),
                forall|k: int| 0 <= k < i ==> (#[trigger] self.items[k]).id != id,
            decreases self.items.len() - i,
        {
            if self.items[i].id == id {
                return Some(i);
            }
            i += 1;
        }
        assert forall|k: int| 0 <= k < self.listed().len() implies (#[trigger] self.listed()[k]).id
            != id by {
            assert(self.items[k].id != id);
        }
        None
    }

    /// Stores `todo` under its own id, behind the todos that are there. Fails,
    /// and changes nothing, exactly when a todo with that id is already there.
    pub fn insert(&mut self, todo: Todo) -> (answer: Result<Todo, StoreError>)
        ensures
            distinct_ids(final(self).listed()),
            answer is Ok <==> !has_id(old(self).listed(), todo.id),
            answer matches Ok(kept) ==> kept == todo,
            answer matches Err(error) ==> error@ == "duplicate id"@,
            final(self).listed() == (if answer is Ok {
                old(self).listed().push(todo@)
            } else {
                old(self).listed()
            }),
            final(self).rows() == (if answer is Ok {
                with_row(old(self).rows(), todo@)
            } else {
                old(self).rows()
            }),
    {
        proof {
            use_type_invariant(&*self);
        }
        match self.position(todo.id) {
            Some(i) => {
                proof {
                    lemma_rows_at(views(self.items@), i as int);
                }
                Err(StoreError::new("duplicate id"))
            },
            None => {
                let kept = todo.clone();
                proof {
                    lemma_rows_push(views(self.items@), todo@);
                    assert(views(self.items@.push(todo)) =~= views(self.items@).push(todo@));
                }
                let mut items = self.take_items();
                items.push(todo);
                self.put_items(items);
                Ok(kept)
            },
        }
    }
}

impl TodoRepository for MemoryRepo {
    open spec fn rows(&self) -> Rows {
        rows_of(self.listed())
    }

    /// Every todo, in the order of creation. Never fails.
    fn list(&self) -> (answer: Result<Vec<Todo>, StoreError>)
        ensures
            answer matches Ok(todos) && todos.deep_view() == self.listed(),
            distinct_ids(self.listed()),
    {
        proof {
            use_type_invariant(self);
            lemma_rows_listed(views(self.items@));
        }
        let todos = self.items.clone();
        assert(todos.deep_view() =~= views(self.items@));
        Ok(todos)
    }

    /// Draws an id and stores the new todo behind the others. Fails, and
    /// changes nothing, exactly when the id that was drawn is taken. On a
    /// store without todos it therefore succeeds.
    fn create(&mut self, new: NewTodo) -> (answer: Result<Todo, StoreError>)
        ensures
            distinct_ids(final(self).listed()),
            (exists|id: u128|
                #[trigger] is_random_uuid(id) && (answer is Ok <==> !has_id(
                    old(self).listed(),
                    id,
                )) && (answer matches Ok(todo) ==> todo.id == id)),
            old(self).listed().len() == 0 ==> answer is Ok,
            answer matches Ok(todo) ==> final(self).listed() == old(self).listed().push(todo@),
            answer matches Err(error) ==> error@ == "duplicate id"@,
            answer is Err ==> final(self).listed() == old(self).listed(),
    {
        let drawn = new_row(new);
        assert(is_random_uuid(drawn.id));
        self.insert(drawn)
    }

    /// The todo with the id `id`, if there is one. Never fails.
    fn get(&self, id: u128) -> (answer: Result<Option<Todo>, StoreError>)
        ensures
            answer is Ok,
            distinct_ids(self.listed()),
    {
        proof {
            use_type_invariant(self);
        }
        match self.position(id) {
            Some(i) => {
                proof {
                    lemma_rows_at(views(self.items@), i as int);
                }
                Ok(Some(self.items[i].clone()))
            },
            None => Ok(None),
        }
    }

    /// Reads the todo with the id `id`, merges `upd` into it and writes the
    /// outcome in its place. Never fails.
    fn update(&mut self, id: u128, upd: UpdateTodo) -> (answer: Result<Option<Todo>, StoreError>)
        ensures
            answer is Ok,
            distinct_ids(final(self).listed()),
            final(self).listed() == listed_after_update(old(self).listed(), id, upd@),
    {
        proof {
            use_type_invariant(&*self);
        }
        let at = self.position(id);
        let existing = match at {
            Some(i) => Some(self.items[i].clone()),
            None => None,
        };
        match (at, plan_update(existing, upd)) {
            (Some(i), Some(next)) => {
                let answer = next.clone();
                proof {
                    let before = views(self.items@);
                    lemma_rows_at(before, i as int);
                    lemma_rows_update(before, i as int, next@);
                    assert(views(self.items@.update(i as int, next)) =~= before.update(
                        i as int,
                        next@,
                    ));
                }
                let mut items = self.take_items();
                items.set(i, next);
                self.put_items(items);
                Ok(Some(answer))
            },
            _ => Ok(None),
        }
    }

    /// Takes out the todo with the id `id`, if there is one. Never fails.
    fn delete(&mut self, id: u128) -> (answer: Result<bool, StoreError>)
        ensures
            answer is Ok,
            distinct_ids(final(self).listed()),
            final(self).listed() == listed_after_delete(old(self).listed(), id),
    {
        proof {
            use_type_invariant(&*self);
        }
        match self.position(id) {
            Some(i) => {
                proof {
                    let before = views(self.items@);
                    lemma_rows_at(before, i as int);
                    lemma_rows_remove(before, i as int);
                    assert(views(self.items@.remove(i as int)) =~= before.remove(i as int));
                }
                let mut items = self.take_items();
                items.remove(i);
                self.put_items(items);
                Ok(true)
            },
            None => {
                assert(after_delete(self.rows(), id) =~= self.rows());
                Ok(false)
            },
        }
    }
}

} // verus!
