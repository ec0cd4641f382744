//! The handlers, one per endpoint, and the service as a whole: from a request and the store
//! to a response and the store after it.
//!
//! For a store that is reached by statements the same decisions come in two steps: [`begin`]
//! answers at once or names the statement to send, and [`finish`] maps what the store handed
//! back to the response.

use vstd::prelude::*;
use crate::error::{failure_of, Error, ErrorSpec, StoreError, StoreErrorSpec, NOT_FOUND};
use crate::repository::{
    awaited_row, first_row, no_row, settle, settled, surface, surfaced, Statement, StatementSpec,
};
use crate::response::{Body, BodySpec, Response, ResponseSpec};
use crate::router::{resolve_in, Endpoint, Method, Resolution, RouteSpec, Router, Target};
use crate::store::{plain_view, row_view, rows_view, Store, Table};
use crate::todo::{CreateTodo, Todo, TodoSpec, UpdateTodo};

verus! {

pub const OK: u16 = 200;

pub const NO_CONTENT: u16 = 204;

pub const METHOD_NOT_ALLOWED: u16 = 405;

/// The text of a success that has nothing else to say.
pub open spec fn ok_text() -> Seq<char> {
    "OK"@
}

/// The reason given where the last segment of a path is no identifier.
pub open spec fn invalid_id_text() -> Seq<char> {
    "invalid to-do identifier: the last path segment must be a 64-bit integer"@
}

/// The reason given where a request that needs a body has none.
pub open spec fn missing_body_text() -> Seq<char> {
    "missing request body"@
}

/// The reason given where the body of an update lacks the completion.
pub open spec fn missing_completed_text() -> Seq<char> {
    "missing field `completed`"@
}

/// The content of a text, or of the error in its place.
pub open spec fn text_view(outcome: Result<String, Error>) -> Result<Seq<char>, ErrorSpec> {
    match outcome {
        Ok(text) => Ok(text@),
        Err(error) => Err(error@),
    }
}

/// The content of an input, or the reason why there is none.
pub open spec fn input_view<T: View>(input: Result<T, String>) -> Result<T::V, Seq<char>> {
    match input {
        Ok(value) => Ok(value@),
        Err(reason) => Err(reason@),
    }
}

/// What the handlers answer, over the table and the content of their arguments.
impl Table {
    pub open spec fn ready(self) -> Result<Seq<char>, ErrorSpec> {
        match self.ping() {
            Ok(_) => Ok(ok_text()),
            Err(failure) => Err(failure_of(failure)),
        }
    }

    pub open spec fn created(self, input: Result<Seq<char>, Seq<char>>) -> Result<
        TodoSpec,
        ErrorSpec,
    > {
        match input {
            Ok(body) => surfaced(self.insert(body)),
            Err(reason) => Err(ErrorSpec::Validation(reason)),
        }
    }

    pub open spec fn after_created(self, input: Result<Seq<char>, Seq<char>>) -> Table {
        match input {
            Ok(body) => self.after_insert(body),
            Err(_) => self,
        }
    }

    pub open spec fn replaced(self, id: i64, input: Result<(Seq<char>, bool), Seq<char>>) -> Result<
        TodoSpec,
        ErrorSpec,
    > {
        match input {
            Ok(fields) => settled(self.update(id, fields.0, fields.1)),
            Err(reason) => Err(ErrorSpec::Validation(reason)),
        }
    }

    pub open spec fn after_replaced(
        self,
        id: i64,
        input: Result<(Seq<char>, bool), Seq<char>>,
    ) -> Table {
        match input {
            Ok(fields) => self.after_update(id, fields.0, fields.1),
            Err(_) => self,
        }
    }

    pub open spec fn removed(self, id: i64) -> Result<u16, ErrorSpec> {
        match self.delete(id) {
            Ok(_) => Ok(NO_CONTENT),
            Err(failure) => Err(failure_of(failure)),
        }
    }
}

/// Liveness: the text that is answered without a look at the store.
pub fn alive() -> (text: String)
    ensures
        text@ == ok_text(),
{
    String::from_str("OK")
}

/// What readiness answers to the store's answer to the trivial statement: `OK`, or a
/// failure of the store whatever the store reports.
pub fn pong(answer: Result<(), StoreError>) -> (outcome: Result<String, Error>)
    ensures
        text_view(outcome) == (match answer {
            Ok(_) => Ok(ok_text()),
            Err(failure) => Err(failure_of(failure@)),
        }),
{
    match answer {
        Ok(_) => Ok(alive()),
        Err(failure) => Err(Error::store_failure(failure)),
    }
}

/// What a creation or an update makes of its input: the input, or the error that says why
/// the request body is none.
pub fn checked<T: View>(input: Result<T, String>) -> (outcome: Result<T, Error>)
    ensures
        input matches Ok(value) ==> outcome == Ok::<T, Error>(value),
        input matches Err(reason) ==> outcome matches Err(error) && error@ == ErrorSpec::Validation(
            reason@,
        ),
{
    match input {
        Ok(value) => Ok(value),
        Err(reason) => Err(Error::Validation(reason)),
    }
}

/// What a deletion answers once the repository is done: the status of an empty success.
pub fn deleted(answer: Result<(), Error>) -> (outcome: Result<u16, Error>)
    ensures
        answer is Ok ==> outcome == Ok::<u16, Error>(NO_CONTENT),
        answer matches Err(error) ==> outcome == Err::<u16, Error>(error),
{
    match answer {
        Ok(_) => Ok(NO_CONTENT),
        Err(error) => Err(error),
    }
}

/// The error for a path whose last segment is no identifier.
pub fn invalid_id() -> (error: Error)
    ensures
        error@ == ErrorSpec::Validation(invalid_id_text()),
{
    Error::Validation(
        String::from_str("invalid to-do identifier: the last path segment must be a 64-bit integer"),
    )
}

/// Readiness: `OK` after a trivial round trip to the store, the store's failure otherwise.
pub fn ping(store: &Store) -> (outcome: Result<String, Error>)
    ensures
        text_view(outcome) == store@.ready(),
{
    pong(store.ping())
}

/// All entries.
pub fn todo_list(store: &Store) -> (outcome: Result<Vec<Todo>, Error>)
    ensures
        rows_view(outcome) == surfaced(store@.select_all()),
{
    Todo::list(store)
}

/// The entry that `id` names.
pub fn todo_read(store: &Store, id: i64) -> (outcome: Result<Todo, Error>)
    requires
        store@.wf(),
    ensures
        row_view(outcome) == settled(store@.select(id)),
{
    Todo::read(store, id)
}

/// Creates an entry. `input` is what the request body was read as: the input, or the reason
/// why it is none, on which the store is left alone.
pub fn todo_create(store: &mut Store, input: Result<CreateTodo, String>) -> (outcome: Result<
    Todo,
    Error,
>)
    requires
        old(store)@.wf(),
    ensures
        row_view(outcome) == old(store)@.created(input_view(input)),
        final(store)@ == old(store)@.after_created(input_view(input)),
        final(store)@.wf(),
{
    match checked(input) {
        Ok(new_todo) => Todo::create(store, new_todo),
        Err(error) => Err(error),
    }
}

/// Replaces the entry that `id` names. `input` is what the request body was read as: the
/// input, or the reason why it is none, on which the store is left alone.
pub fn todo_update(store: &mut Store, id: i64, input: Result<UpdateTodo, String>) -> (outcome:
    Result<Todo, Error>)
    requires
        old(store)@.wf(),
    ensures
        row_view(outcome) == old(store)@.replaced(id, input_view(input)),
        final(store)@ == old(store)@.after_replaced(id, input_view(input)),
        final(store)@.wf(),
{
    match checked(input) {
        Ok(update_todo) => Todo::update(store, id, update_todo),
        Err(error) => Err(error),
    }
}

/// Deletes the entry that `id` names and answers with the status of an empty success,
/// whether or not there was such an entry.
pub fn todo_delete(store: &mut Store, id: i64) -> (outcome: Result<u16, Error>)
    requires
        old(store)@.wf(),
    ensures
        plain_view(outcome) == old(store)@.removed(id),
        final(store)@ == old(store)@.after_delete(id),
        final(store)@.wf(),
{
    deleted(Todo::delete(store, id))
}

impl ResponseSpec {
    /// A success with a text.
    pub open spec fn text(outcome: Result<Seq<char>, ErrorSpec>) -> ResponseSpec {
        match outcome {
            Ok(text) => ResponseSpec { status: OK, body: BodySpec::Text(text) },
            Err(error) => error.response(),
        }
    }

    /// A success with one entry.
    pub open spec fn todo(outcome: Result<TodoSpec, ErrorSpec>) -> ResponseSpec {
        match outcome {
            Ok(todo) => ResponseSpec { status: OK, body: BodySpec::Todo(todo) },
            Err(error) => error.response(),
        }
    }

    /// A success with entries.
    pub open spec fn todos(outcome: Result<Seq<TodoSpec>, ErrorSpec>) -> ResponseSpec {
        match outcome {
            Ok(todos) => ResponseSpec { status: OK, body: BodySpec::Todos(todos) },
            Err(error) => error.response(),
        }
    }

    /// A success that is a status alone.
    pub open spec fn bare(outcome: Result<u16, ErrorSpec>) -> ResponseSpec {
        match outcome {
            Ok(status) => ResponseSpec { status, body: BodySpec::Empty },
            Err(error) => error.response(),
        }
    }
}

/// The response to a request whose outcome is a text.
pub fn respond_text(outcome: Result<String, Error>) -> (response: Response)
    ensures
        response@ == ResponseSpec::text(text_view(outcome)),
{
    match outcome {
        Ok(text) => Response::new(OK, Body::Text(text)),
        Err(error) => error.into_response(),
    }
}

/// The response to a request whose outcome is one entry.
pub fn respond_todo(outcome: Result<Todo, Error>) -> (response: Response)
    ensures
        response@ == ResponseSpec::todo(row_view(outcome)),
{
    match outcome {
        Ok(todo) => Response::new(OK, Body::Todo(todo)),
        Err(error) => error.into_response(),
    }
}

/// The response to a request whose outcome is a run of entries.
pub fn respond_todos(outcome: Result<Vec<Todo>, Error>) -> (response: Response)
    ensures
        response@ == ResponseSpec::todos(rows_view(outcome)),
{
    match outcome {
        Ok(todos) => Response::new(OK, Body::Todos(todos)),
        Err(error) => error.into_response(),
    }
}

/// The response to a request whose outcome is a status alone.
pub fn respond_status(outcome: Result<u16, Error>) -> (response: Response)
    ensures
        response@ == ResponseSpec::bare(plain_view(outcome)),
{
    match outcome {
        Ok(status) => Response::new(status, Body::Empty),
        Err(error) => error.into_response(),
    }
}

/// What the body of a request was read as.
#[derive(Debug)]
pub enum Payload {
    /// There was no body.
    Absent,
    /// An object with a text `body` and no boolean `completed`.
    Create(CreateTodo),
    /// An object with a text `body` and a boolean `completed`.
    Update(UpdateTodo),
    /// Anything else; the reason why it is neither of the two.
    Malformed(String),
}

/// The mathematical content of a [`Payload`].
pub ghost enum PayloadSpec {
    Absent,
    Create(Seq<char>),
    Update(Seq<char>, bool),
    Malformed(Seq<char>),
}

impl View for Payload {
    type V = PayloadSpec;

    open spec fn view(&self) -> PayloadSpec {
        match *self {
            Payload::Absent => PayloadSpec::Absent,
            Payload::Create(input) => PayloadSpec::Create(input@),
            Payload::Update(input) => PayloadSpec::Update(input@.0, input@.1),
            Payload::Malformed(reason) => PayloadSpec::Malformed(reason@),
        }
    }
}

impl PayloadSpec {
    /// The payload as the input of a creation. Members other than `body` do not count.
    pub open spec fn as_create(self) -> Result<Seq<char>, Seq<char>> {
        match self {
            PayloadSpec::Absent => Err(missing_body_text()),
            PayloadSpec::Create(body) => Ok(body),
            PayloadSpec::Update(body, _) => Ok(body),
            PayloadSpec::Malformed(reason) => Err(reason),
        }
    }

    /// The payload as the input of an update. Both members are needed.
    pub open spec fn as_update(self) -> Result<(Seq<char>, bool), Seq<char>> {
        match self {
            PayloadSpec::Absent => Err(missing_body_text()),
            PayloadSpec::Create(_) => Err(missing_completed_text()),
            PayloadSpec::Update(body, completed) => Ok((body, completed)),
            PayloadSpec::Malformed(reason) => Err(reason),
        }
    }
}

impl Payload {
    /// The payload as the input of a creation.
    pub fn into_create(self) -> (input: Result<CreateTodo, String>)
        ensures
            input_view(input) == self@.as_create(),
    {
        match self {
            Payload::Absent => Err(String::from_str("missing request body")),
            Payload::Create(input) => Ok(input),
            Payload::Update(input) => Ok(CreateTodo::new(String::from_str(input.body()))),
            Payload::Malformed(reason) => Err(reason),
        }
    }

    /// The payload as the input of an update.
    pub fn into_update(self) -> (input: Result<UpdateTodo, String>)
        ensures
            input_view(input) == self@.as_update(),
    {
        match self {
            Payload::Absent => Err(String::from_str("missing request body")),
            Payload::Create(_) => Err(String::from_str("missing field `completed`")),
            Payload::Update(input) => Ok(input),
            Payload::Malformed(reason) => Err(reason),
        }
    }
}

/// A request: its method, the path of its target and what its body was read as.
#[derive(Debug)]
pub struct Request {
    method: Method,
    path: String,
    payload: Payload,
}

/// The mathematical content of a [`Request`].
pub ghost struct RequestSpec {
    pub method: Method,
    pub path: Seq<char>,
    pub payload: PayloadSpec,
}

impl View for Request {
    type V = RequestSpec;

    closed spec fn view(&self) -> RequestSpec {
        RequestSpec { method: self.method, path: self.path@, payload: self.payload@ }
    }
}

impl Request {
    pub fn new(method: Method, path: String, payload: Payload) -> (request: Request)
        ensures
            request@ == (RequestSpec { method, path: path@, payload: payload@ }),
    {
        Request { method, path, payload }
    }
}

/// The response to a request that reached `target`, over the table as the request found it.
pub open spec fn response_at(target: Target, payload: PayloadSpec, table: Table) -> ResponseSpec {
    match target {
        Target::Alive => ResponseSpec::text(Ok(ok_text())),
        Target::Ready => ResponseSpec::text(table.ready()),
        Target::TodoList => ResponseSpec::todos(surfaced(table.select_all())),
        Target::TodoCreate => ResponseSpec::todo(table.created(payload.as_create())),
        Target::TodoRead(id) => ResponseSpec::todo(settled(table.select(id))),
        Target::TodoUpdate(id) => ResponseSpec::todo(table.replaced(id, payload.as_update())),
        Target::TodoDelete(id) => ResponseSpec::bare(table.removed(id)),
    }
}

/// The table after a request that reached `target`.
pub open spec fn table_after(target: Target, payload: PayloadSpec, table: Table) -> Table {
    match target {
        Target::TodoCreate => table.after_created(payload.as_create()),
        Target::TodoUpdate(id) => table.after_replaced(id, payload.as_update()),
        Target::TodoDelete(id) => table.after_delete(id),
        _ => table,
    }
}

/// The response of the service.
pub open spec fn response_to(routes: Seq<RouteSpec>, request: RequestSpec, table: Table) -> ResponseSpec {
    match resolve_in(routes, request.method, request.path) {
        Resolution::Found(target) => response_at(target, request.payload, table),
        Resolution::InvalidId => ErrorSpec::Validation(invalid_id_text()).response(),
        Resolution::WrongMethod => ResponseSpec { status: METHOD_NOT_ALLOWED, body: BodySpec::Empty },
        Resolution::NoRoute => ResponseSpec { status: NOT_FOUND, body: BodySpec::Empty },
    }
}

/// The table after the service has answered.
pub open spec fn table_served(routes: Seq<RouteSpec>, request: RequestSpec, table: Table) -> Table {
    match resolve_in(routes, request.method, request.path) {
        Resolution::Found(target) => table_after(target, request.payload, table),
        _ => table,
    }
}

/// Carries a request out at the target it reached.
pub fn dispatch(store: &mut Store, target: Target, payload: Payload) -> (response: Response)
    requires
        old(store)@.wf(),
    ensures
        response@ == response_at(target, payload@, old(store)@),
        final(store)@ == table_after(target, payload@, old(store)@),
        final(store)@.wf(),
{
    match target {
        Target::Alive => respond_text(Ok(alive())),
        Target::Ready => respond_text(ping(store)),
        Target::TodoList => respond_todos(todo_list(store)),
        Target::TodoCreate => respond_todo(todo_create(store, payload.into_create())),
        Target::TodoRead(id) => respond_todo(todo_read(store, id)),
        Target::TodoUpdate(id) => respond_todo(todo_update(store, id, payload.into_update())),
        Target::TodoDelete(id) => respond_status(todo_delete(store, id)),
    }
}

/// Answers a request: resolves its method and path against the router, carries it out on
/// the store and maps the outcome to a response.
pub fn serve(router: &Router, store: &mut Store, request: Request) -> (response: Response)
    requires
        old(store)@.wf(),
    ensures
        response@ == response_to(router@.routes, request@, old(store)@),
        final(store)@ == table_served(router@.routes, request@, old(store)@),
        final(store)@.wf(),
{
    match router.resolve(request.method, request.path.as_str()) {
        Resolution::Found(target) => dispatch(store, target, request.payload),
        Resolution::InvalidId => invalid_id().into_response(),
        Resolution::WrongMethod => Response::new(METHOD_NOT_ALLOWED, Body::Empty),
        Resolution::NoRoute => Response::new(NOT_FOUND, Body::Empty),
    }
}

/// What is to be done next for a request on a store that is reached by statements: to answer
/// at once, or to send a statement and await what the store hands back.
#[derive(Debug)]
pub enum Step {
    Answer(Response),
    Ask(Statement),
}

/// The mathematical content of a [`Step`].
pub ghost enum StepSpec {
    Answer(ResponseSpec),
    Ask(StatementSpec),
}

impl View for Step {
    type V = StepSpec;

    open spec fn view(&self) -> StepSpec {
        match *self {
            Step::Answer(response) => StepSpec::Answer(response@),
            Step::Ask(statement) => StepSpec::Ask(statement@),
        }
    }
}

/// The response that refuses a path whose last segment is no identifier.
pub open spec fn invalid_id_response() -> ResponseSpec {
    ErrorSpec::Validation(invalid_id_text()).response()
}

/// The first step for a request that reached `endpoint`. `id` is what the last segment of
/// the path was read as, where the endpoint works on one to-do. Liveness is answered at
/// once. A path without an identifier is refused before the body is looked at, and a body
/// that is no input before anything is sent; everything else is a statement for the store.
pub open spec fn plan(endpoint: Endpoint, id: Option<i64>, payload: PayloadSpec) -> StepSpec {
    match endpoint {
        Endpoint::Alive => StepSpec::Answer(ResponseSpec::text(Ok(ok_text()))),
        Endpoint::Ready => StepSpec::Ask(StatementSpec::ping()),
        Endpoint::TodoList => StepSpec::Ask(StatementSpec::list()),
        Endpoint::TodoCreate => match payload.as_create() {
            Ok(body) => StepSpec::Ask(StatementSpec::create(body)),
            Err(reason) => StepSpec::Answer(ErrorSpec::Validation(reason).response()),
        },
        Endpoint::TodoRead => match id {
            Some(id) => StepSpec::Ask(StatementSpec::read(id)),
            None => StepSpec::Answer(invalid_id_response()),
        },
        Endpoint::TodoUpdate => match (id, payload.as_update()) {
            (None, _) => StepSpec::Answer(invalid_id_response()),
            (Some(_), Err(reason)) => StepSpec::Answer(ErrorSpec::Validation(reason).response()),
            (Some(id), Ok(fields)) => StepSpec::Ask(StatementSpec::update(id, fields.0, fields.1)),
        },
        Endpoint::TodoDelete => match id {
            Some(id) => StepSpec::Ask(StatementSpec::delete(id)),
            None => StepSpec::Answer(invalid_id_response()),
        },
    }
}

/// The response to a request that reached `endpoint`, once the store has answered the
/// statement of [`plan`] with `answer`: the rows that came, or the failure.
pub open spec fn conclusion(
    endpoint: Endpoint,
    answer: Result<Seq<TodoSpec>, StoreErrorSpec>,
) -> ResponseSpec {
    match endpoint {
        Endpoint::Alive => ResponseSpec::text(Ok(ok_text())),
        Endpoint::Ready => ResponseSpec::text(
            match answer {
                Ok(_) => Ok(ok_text()),
                Err(failure) => Err(failure_of(failure)),
            },
        ),
        Endpoint::TodoList => ResponseSpec::todos(surfaced(answer)),
        Endpoint::TodoCreate => ResponseSpec::todo(surfaced(awaited_row(answer))),
        Endpoint::TodoRead => ResponseSpec::todo(settled(awaited_row(answer))),
        Endpoint::TodoUpdate => ResponseSpec::todo(settled(awaited_row(answer))),
        Endpoint::TodoDelete => ResponseSpec::bare(
            match answer {
                Ok(_) => Ok(NO_CONTENT),
                Err(failure) => Err(failure_of(failure)),
            },
        ),
    }
}

/// Decides the first step for a request that reached `endpoint`.
pub fn begin(endpoint: Endpoint, id: Option<i64>, payload: Payload) -> (step: Step)
    ensures
        step@ == plan(endpoint, id, payload@),
{
    match endpoint {
        Endpoint::Alive => Step::Answer(respond_text(Ok(alive()))),
        Endpoint::Ready => Step::Ask(Statement::ping()),
        Endpoint::TodoList => Step::Ask(Statement::list()),
        Endpoint::TodoCreate => match checked(payload.into_create()) {
            Ok(new_todo) => Step::Ask(Statement::create(&new_todo)),
            Err(error) => Step::Answer(error.into_response()),
        },
        Endpoint::TodoRead => match id {
            Some(id) => Step::Ask(Statement::read(id)),
            None => Step::Answer(invalid_id().into_response()),
        },
        Endpoint::TodoUpdate => match id {
            Some(id) => match checked(payload.into_update()) {
                Ok(update_todo) => Step::Ask(Statement::update(id, &update_todo)),
                Err(error) => Step::Answer(error.into_response()),
            },
            None => Step::Answer(invalid_id().into_response()),
        },
        Endpoint::TodoDelete => match id {
            Some(id) => Step::Ask(Statement::delete(id)),
            None => Step::Answer(invalid_id().into_response()),
        },
    }
}

/// Maps what the store handed back for the statement of [`begin`] to the response.
pub fn finish(endpoint: Endpoint, answer: Result<Vec<Todo>, StoreError>) -> (response: Response)
    ensures
        response@ == conclusion(endpoint, rows_view(answer)),
{
    match endpoint {
        Endpoint::Alive => respond_text(Ok(alive())),
        Endpoint::Ready => respond_text(pong(no_row(answer))),
        Endpoint::TodoList => respond_todos(surface(answer)),
        Endpoint::TodoCreate => respond_todo(surface(first_row(answer))),
        Endpoint::TodoRead => respond_todo(settle(first_row(answer))),
        Endpoint::TodoUpdate => respond_todo(settle(first_row(answer))),
        Endpoint::TodoDelete => respond_status(deleted(surface(no_row(answer)))),
    }
}

} // verus!
