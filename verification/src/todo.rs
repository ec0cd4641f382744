//! The to-do entity and the two inputs that create and replace it.

use vstd::prelude::*;

verus! {

/// A persisted entry. `id`, `created_at` and `updated_at` are assigned by the store; the two
/// times are seconds since the Unix epoch.
#[derive(Debug)]
pub struct Todo {
    id: i64,
    body: String,
    completed: bool,
    created_at: i64,
    updated_at: i64,
}

/// The mathematical content of a [`Todo`].
pub ghost struct TodoSpec {
    pub id: i64,
    pub body: Seq<char>,
    pub completed: bool,
    pub created_at: i64,
    pub updated_at: i64,
}

impl View for Todo {
    type V = TodoSpec;

    closed spec fn view(&self) -> TodoSpec {
        TodoSpec {
            id: self.id,
            body: self.body@,
            completed: self.completed,
            created_at: self.created_at,
            updated_at: self.updated_at,
        }
    }
}

/// The contents of a run of entries, in order.
pub open spec fn contents(todos: Seq<Todo>) -> Seq<TodoSpec> {
    Seq::new(todos.len(), |i: int| todos[i]@)
}

impl Clone for Todo {
    fn clone(&self) -> (copy: Todo)
        ensures
            copy == *self,
    {
        Todo {
            id: self.id,
            body: self.body.clone(),
            completed: self.completed,
            created_at: self.created_at,
            updated_at: self.updated_at,
        }
    }
}

impl Todo {
    /// An entry with the given fields, as a store hands it out.
    pub fn new(id: i64, body: String, completed: bool, created_at: i64, updated_at: i64) -> (todo:
        Todo)
        ensures
            todo@ == (TodoSpec { id, body: body@, completed, created_at, updated_at }),
    {
        Todo { id, body, completed, created_at, updated_at }
    }

    pub fn id(&self) -> (id: i64)
        ensures
            id == self@.id,
    {
        self.id
    }

    pub fn body(&self) -> (body: &str)
        ensures
            body@ == self@.body,
    {
        self.body.as_str()
    }

    pub fn completed(&self) -> (completed: bool)
        ensures
            completed == self@.completed,
    {
        self.completed
    }

    pub fn created_at(&self) -> (created_at: i64)
        ensures
            created_at == self@.created_at,
    {
        self.created_at
    }

    pub fn updated_at(&self) -> (updated_at: i64)
        ensures
            updated_at == self@.updated_at,
    {
        self.updated_at
    }
}

/// Input of a creation: the text of the new entry. Completion and both times are the store's.
#[derive(Debug)]
pub struct CreateTodo {
    body: String,
}

impl View for CreateTodo {
    type V = Seq<char>;

    closed spec fn view(&self) -> Seq<char> {
        self.body@
    }
}

impl CreateTodo {
    pub fn new(body: String) -> (input: CreateTodo)
        ensures
            input@ == body@,
    {
        CreateTodo { body }
    }

    pub fn body(&self) -> (body: &str)
        ensures
            body@ == self@,
    {
        self.body.as_str()
    }
}

/// Input of an update: the whole of what an update may change, text and completion.
#[derive(Debug)]
pub struct UpdateTodo {
    body: String,
    completed: bool,
}

impl View for UpdateTodo {
    type V = (Seq<char>, bool);

    closed spec fn view(&self) -> (Seq<char>, bool) {
        (self.body@, self.completed)
    }
}

impl UpdateTodo {
    pub fn new(body: String, completed: bool) -> (input: UpdateTodo)
        ensures
            input@ == (body@, completed),
    {
        UpdateTodo { body, completed }
    }

    pub fn body(&self) -> (body: &str)
        ensures
            body@ == self@.0,
    {
        self.body.as_str()
    }

    pub fn completed(&self) -> (completed: bool)
        ensures
            completed == self@.1,
    {
        self.completed
    }
}

} // verus!
