//! What a store of todos holds, as a map from ids to contents, and what each
//! of the five operations makes of it.

use vstd::prelude::*;
use crate::model::{Content, TodoView, UpdateView, created, merged, no_change, row};

verus! {

/// The rows of a store: the content of each todo, by its id.
pub type Rows = Map<u128, Content>;

/// The todo stored under `id`, if there is one.
pub open spec fn stored(rows: Rows, id: u128) -> Option<TodoView> {
    if rows.contains_key(id) {
        Some(row(id, rows[id]))
    } else {
        None
    }
}

/// The rows once `todo` has been written under its id.
pub open spec fn with_row(rows: Rows, todo: TodoView) -> Rows {
    rows.insert(todo.id, todo.content())
}

/// What an update of `id` by `change` answers: the merged todo, or nothing
/// where no row has that id.
pub open spec fn update_answer(rows: Rows, id: u128, change: UpdateView) -> Option<TodoView> {
    match stored(rows, id) {
        Some(current) => Some(merged(current, change)),
        None => None,
    }
}

/// The rows after an update of `id` by `change`: the merged todo stands in
/// place of the old one; where no row has that id nothing is written.
pub open spec fn after_update(rows: Rows, id: u128, change: UpdateView) -> Rows {
    match update_answer(rows, id, change) {
        Some(next) => with_row(rows, next),
        None => rows,
    }
}

/// The rows after a delete of `id`.
pub open spec fn after_delete(rows: Rows, id: u128) -> Rows {
    rows.remove(id)
}

/// Whether no two of `listed` share an id.
pub open spec fn distinct_ids(listed: Seq<TodoView>) -> bool {
    forall|i: int, j: int|
        0 <= i < j < listed.len() ==> (#[trigger] listed[i]).id != (#[trigger] listed[j]).id
}

/// Whether one of `listed` has the id `id`.
pub open spec fn has_id(listed: Seq<TodoView>, id: u128) -> bool {
    exists|i: int| 0 <= i < listed.len() && (#[trigger] listed[i]).id == id
}

/// Whether `listed` names every row of `rows` exactly once, each with the
/// content that the store holds for it. The order is left open.
pub open spec fn is_listing(rows: Rows, listed: Seq<TodoView>) -> bool {
    &&& distinct_ids(listed)
    &&& forall|i: int|
        0 <= i < listed.len() ==> stored(rows, (#[trigger] listed[i]).id) == Some(listed[i])
    &&& forall|id: u128| #[trigger] rows.contains_key(id) ==> has_id(listed, id)
}

/// Two stores in which every lookup finds the same hold the same rows.
pub proof fn lemma_same_rows(left: Rows, right: Rows)
    requires
        forall|id: u128| stored(left, id) == stored(right, id),
    ensures
        left == right,
{
    assert forall|id: u128| left.contains_key(id) == right.contains_key(id) by {
        assert(stored(left, id) == stored(right, id));
    }
    assert forall|id: u128| left.contains_key(id) implies left[id] == right[id] by {
        assert(stored(left, id) == stored(right, id));
    }
    assert(left =~= right);
}

/// A todo that was just written is what a lookup of its id finds.
pub proof fn lemma_lookup_after_write(rows: Rows, todo: TodoView)
    ensures
        stored(with_row(rows, todo), todo.id) == Some(todo),
{
}

/// A todo that was just created is what a lookup of its id finds, and it
/// carries the requested title and is not completed.
pub proof fn lemma_lookup_after_create(rows: Rows, id: u128, title: Seq<char>)
    ensures
        stored(with_row(rows, created(id, title)), id) == Some(created(id, title)),
        created(id, title).id == id,
        created(id, title).title == title,
        !created(id, title).completed,
{
}

/// After an update that found its row, a lookup of the same id finds exactly
/// the todo that the update answered.
pub proof fn lemma_lookup_after_update(rows: Rows, id: u128, change: UpdateView)
    requires
        rows.contains_key(id),
    ensures
        stored(after_update(rows, id, change), id) == update_answer(rows, id, change),
        update_answer(rows, id, change) is Some,
{
}

/// Creating or updating one todo leaves every other id as it was.
pub proof fn lemma_other_rows_kept(rows: Rows, id: u128, other: u128, title: Seq<char>, change: UpdateView)
    requires
        other != id,
    ensures
        stored(with_row(rows, created(id, title)), other) == stored(rows, other),
        stored(after_update(rows, id, change), other) == stored(rows, other),
        stored(after_delete(rows, id), other) == stored(rows, other),
{
}

/// Once an id has been deleted, a lookup finds nothing under it and a second
/// delete has no row to remove and changes nothing.
pub proof fn lemma_deleted_is_gone(rows: Rows, id: u128)
    ensures
        stored(after_delete(rows, id), id) is None,
        !after_delete(rows, id).contains_key(id),
        after_delete(after_delete(rows, id), id) == after_delete(rows, id),
{
    assert(after_delete(after_delete(rows, id), id) =~= after_delete(rows, id));
}

/// An update that carries nothing answers the stored todo and leaves the
/// rows as they were.
pub proof fn lemma_empty_update_keeps_row(rows: Rows, id: u128)
    requires
        rows.contains_key(id),
    ensures
        update_answer(rows, id, no_change()) == stored(rows, id),
        after_update(rows, id, no_change()) == rows,
{
    assert(after_update(rows, id, no_change()) =~= rows);
}

/// Applying the same change twice gives what applying it once gives.
pub proof fn lemma_update_twice(rows: Rows, id: u128, change: UpdateView)
    ensures
        after_update(after_update(rows, id, change), id, change) == after_update(rows, id, change),
        update_answer(after_update(rows, id, change), id, change) == update_answer(
            rows,
            id,
            change,
        ),
{
    assert(after_update(after_update(rows, id, change), id, change) =~= after_update(
        rows,
        id,
        change,
    ));
}

/// A change of the title alone keeps the flag, a change of the flag alone
/// keeps the title, and neither touches the id.
pub proof fn lemma_update_keeps_other_field(current: TodoView, title: Seq<char>, completed: bool)
    ensures
        merged(current, UpdateView { title: Some(title), completed: None }) == (TodoView {
            id: current.id,
            title,
            completed: current.completed,
        }),
        merged(current, UpdateView { title: None, completed: Some(completed) }) == (TodoView {
            id: current.id,
            title: current.title,
            completed,
        }),
{
}

/// A todo that was read from one store is rebuilt in another, up to its id,
/// by creating a todo with its title and then updating that one with both of
/// its fields.
pub proof fn lemma_rebuild(rows: Rows, seen: TodoView, id: u128)
    ensures
        ({
            let change = UpdateView { title: Some(seen.title), completed: Some(seen.completed) };
            let made = with_row(rows, created(id, seen.title));
            &&& update_answer(made, id, change) == Some(row(id, seen.content()))
            &&& stored(after_update(made, id, change), id) == Some(row(id, seen.content()))
        }),
{
}

/// A listing of a store without rows is empty.
pub proof fn lemma_listing_of_empty(listed: Seq<TodoView>)
    requires
        is_listing(Map::<u128, Content>::empty(), listed),
    ensures
        listed.len() == 0,
{
    if listed.len() > 0 {
        assert(stored(Map::<u128, Content>::empty(), listed[0].id) == Some(listed[0]));
    }
}

} // verus!
