//! What the service answers: a status code and a body.

use vstd::prelude::*;
use crate::todo::{contents, Todo, TodoSpec};

verus! {

/// A response body. Entries are handed out as values; how they are written on the wire is
/// the caller's concern.
#[derive(Debug)]
pub enum Body {
    Empty,
    /// Plain text.
    Text(String),
    /// A document that is already serialised as JSON.
    Json(String),
    /// One entry.
    Todo(Todo),
    /// Entries, in the order in which they are to appear.
    Todos(Vec<Todo>),
}

/// The mathematical content of a [`Body`].
pub ghost enum BodySpec {
    Empty,
    Text(Seq<char>),
    Json(Seq<char>),
    Todo(TodoSpec),
    Todos(Seq<TodoSpec>),
}

impl View for Body {
    type V = BodySpec;

    open spec fn view(&self) -> BodySpec {
        match *self {
            Body::Empty => BodySpec::Empty,
            Body::Text(text) => BodySpec::Text(text@),
            Body::Json(text) => BodySpec::Json(text@),
            Body::Todo(todo) => BodySpec::Todo(todo@),
            Body::Todos(todos) => BodySpec::Todos(contents(todos@)),
        }
    }
}

/// A status code with a body.
#[derive(Debug)]
pub struct Response {
    status: u16,
    body: Body,
}

/// The mathematical content of a [`Response`].
pub ghost struct ResponseSpec {
    pub status: u16,
    pub body: BodySpec,
}

impl View for Response {
    type V = ResponseSpec;

    closed spec fn view(&self) -> ResponseSpec {
        ResponseSpec { status: self.status, body: self.body@ }
    }
}

impl Response {
    pub fn new(status: u16, body: Body) -> (response: Response)
        ensures
            response@ == (ResponseSpec { status, body: body@ }),
    {
        Response { status, body }
    }

    pub fn status(&self) -> (status: u16)
        ensures
            status == self@.status,
    {
        self.status
    }

    pub fn body(&self) -> (body: &Body)
        ensures
            body@ == self@.body,
    {
        &self.body
    }

    /// Takes the response apart.
    pub fn into_parts(self) -> (parts: (u16, Body))
        ensures
            parts.0 == self@.status,
            parts.1@ == self@.body,
    {
        (self.status, self.body)
    }
}

} // verus!
