//! The todo record and the two records that requests carry.

use vstd::prelude::*;

verus! {

/// What a stored todo holds besides its id.
pub struct Content {
    pub title: Seq<char>,
    pub completed: bool,
}

/// A todo as a mathematical value.
pub struct TodoView {
    pub id: u128,
    pub title: Seq<char>,
    pub completed: bool,
}

impl TodoView {
    /// The title and the flag, without the id.
    pub open spec fn content(self) -> Content {
        Content { title: self.title, completed: self.completed }
    }
}

/// The todo with id `id` that holds `content`.
pub open spec fn row(id: u128, content: Content) -> TodoView {
    TodoView { id, title: content.title, completed: content.completed }
}

/// A change as a mathematical value: each field is either a new value or absent.
pub struct UpdateView {
    pub title: Option<Seq<char>>,
    pub completed: Option<bool>,
}

/// The todo that a create request with title `title` makes under id `id`.
pub open spec fn created(id: u128, title: Seq<char>) -> TodoView {
    TodoView { id, title, completed: false }
}

/// `current` with each field that `change` carries put in place of its own.
/// The id is never touched.
pub open spec fn merged(current: TodoView, change: UpdateView) -> TodoView {
    TodoView {
        id: current.id,
        title: match change.title {
            Some(t) => t,
            None => current.title,
        },
        completed: match change.completed {
            Some(c) => c,
            None => current.completed,
        },
    }
}

/// The change that carries nothing.
pub open spec fn no_change() -> UpdateView {
    UpdateView { title: None, completed: None }
}

/// A todo: a 128-bit id, a title and a completion flag.
#[derive(Debug)]
pub struct Todo {
    pub id: u128,
    pub title: String,
    pub completed: bool,
}

impl View for Todo {
    type V = TodoView;

    open spec fn view(&self) -> TodoView {
        TodoView { id: self.id, title: self.title@, completed: self.completed }
    }
}

impl DeepView for Todo {
    type V = TodoView;

    open spec fn deep_view(&self) -> TodoView {
        self@
    }
}

impl Clone for Todo {
    fn clone(&self) -> (copy: Self)
        ensures
            copy == *self,
    {
        Todo { id: self.id, title: self.title.clone(), completed: self.completed }
    }
}

impl PartialEq for Todo {
    fn eq(&self, other: &Self) -> (same: bool) {
        self.id == other.id && self.title == other.title && self.completed == other.completed
    }
}

impl vstd::std_specs::cmp::PartialEqSpecImpl for Todo {
    open spec fn obeys_eq_spec() -> bool {
        true
    }

    open spec fn eq_spec(&self, other: &Self) -> bool {
        self@ == other@
    }
}

/// The body of a create request.
#[derive(Debug)]
pub struct NewTodo {
    pub title: String,
}

impl View for NewTodo {
    type V = Seq<char>;

    open spec fn view(&self) -> Seq<char> {
        self.title@
    }
}

impl Clone for NewTodo {
    fn clone(&self) -> (copy: Self)
        ensures
            copy == *self,
    {
        NewTodo { title: self.title.clone() }
    }
}

/// The body of an update request. An absent field leaves the stored one as it is.
#[derive(Debug)]
pub struct UpdateTodo {
    pub title: Option<String>,
    pub completed: Option<bool>,
}

impl View for UpdateTodo {
    type V = UpdateView;

    open spec fn view(&self) -> UpdateView {
        UpdateView {
            title: match self.title {
                Some(t) => Some(t@),
                None => None,
            },
            completed: self.completed,
        }
    }
}

impl Clone for UpdateTodo {
    fn clone(&self) -> (copy: Self)
        ensures
            copy == *self,
    {
        let title = match &self.title {
            Some(t) => Some(t.clone()),
            None => None,
        };
        UpdateTodo { title, completed: self.completed }
    }
}

impl UpdateTodo {
    /// Merges this change into `current`: a field that the change carries
    /// replaces the stored one, an absent field keeps it.
    pub fn apply(self, current: &Todo) -> (next: Todo)
        ensures
            next@ == merged(current@, self@),
    {
        let title = match self.title {
            Some(t) => t,
            None => current.title.clone(),
        };
        let completed = match self.completed {
            Some(c) => c,
            None => current.completed,
        };
        Todo { id: current.id, title, completed }
    }
}

} // verus!
