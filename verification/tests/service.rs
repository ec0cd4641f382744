use todo_api::api::{
    begin, dispatch, finish, ping, respond_status, respond_text, respond_todo, respond_todos,
    serve, todo_create, todo_delete, todo_list, todo_read, todo_update, Payload, Request, Step,
};
use todo_api::error::{Error, StoreError};
use todo_api::repository::Fetch;
use todo_api::response::{Body, Response};
use todo_api::router::{create_router, Endpoint, Method, Target};
use todo_api::store::Store;
use todo_api::todo::{CreateTodo, Todo, UpdateTodo};

fn create(store: &mut Store, body: &str) -> Todo {
    todo_create(store, Ok(CreateTodo::new(body.to_string()))).expect("the store is open")
}

fn request(method: Method, path: &str, payload: Payload) -> Request {
    Request::new(method, path.to_string(), payload)
}

fn error_text(response: &Response) -> String {
    match response.body() {
        Body::Json(document) => document.clone(),
        other => panic!("no error envelope: {:?}", other),
    }
}

fn one(response: &Response) -> Todo {
    match response.body() {
        Body::Todo(todo) => todo.clone(),
        other => panic!("no entry: {:?}", other),
    }
}

#[test]
fn create_then_read_round_trip() {
    let mut store = Store::new();
    store.advance(1_700_000_000);
    let created = create(&mut store, "buy milk");
    assert_eq!(created.id(), 1);
    assert_eq!(created.body(), "buy milk");
    assert!(!created.completed());
    assert_eq!(created.created_at(), 1_700_000_000);
    assert_eq!(created.updated_at(), 1_700_000_000);
    let read = todo_read(&store, created.id()).expect("the entry is there");
    assert_eq!(read.id(), created.id());
    assert_eq!(read.body(), "buy milk");
    assert!(!read.completed());
    assert_eq!(read.created_at(), created.created_at());
    assert_eq!(read.updated_at(), created.updated_at());
}

#[test]
fn update_sets_both_fields_and_refreshes_the_time() {
    let mut store = Store::new();
    store.advance(1_000);
    let created = create(&mut store, "buy milk");
    store.advance(1_060);
    let updated = todo_update(&mut store, created.id(), Ok(UpdateTodo::new("x".to_string(), true)))
        .expect("the entry is there");
    assert_eq!(updated.id(), created.id());
    assert_eq!(updated.body(), "x");
    assert!(updated.completed());
    let read = todo_read(&store, created.id()).expect("the entry is there");
    assert_eq!(read.id(), created.id());
    assert_eq!(read.body(), "x");
    assert!(read.completed());
    assert_eq!(read.created_at(), 1_000);
    assert_eq!(read.updated_at(), 1_060);
    assert!(read.updated_at() > created.created_at());
}

#[test]
fn an_update_within_the_second_of_creation_keeps_the_times_equal() {
    let mut store = Store::new();
    store.advance(1_000);
    let created = create(&mut store, "buy milk");
    let updated = todo_update(&mut store, created.id(), Ok(UpdateTodo::new("x".to_string(), true)))
        .expect("the entry is there");
    assert_eq!(updated.created_at(), 1_000);
    assert_eq!(updated.updated_at(), 1_000);
}

#[test]
fn the_clock_of_the_store_never_runs_backwards() {
    let mut store = Store::new();
    store.advance(2_000);
    let created = create(&mut store, "a");
    store.advance(1_500);
    let updated = todo_update(&mut store, created.id(), Ok(UpdateTodo::new("b".to_string(), false)))
        .expect("the entry is there");
    assert_eq!(updated.created_at(), 2_000);
    assert_eq!(updated.updated_at(), 2_000);
    assert!(updated.updated_at() >= updated.created_at());
}

#[test]
fn delete_then_read_is_not_found() {
    let mut store = Store::new();
    let created = create(&mut store, "buy milk");
    assert_eq!(todo_delete(&mut store, created.id()).expect("the store is open"), 204);
    let read = todo_read(&store, created.id());
    assert!(matches!(read, Err(Error::NotFound)));
    let response = respond_todo(read);
    assert_eq!(response.status(), 404);
    assert_eq!(error_text(&response), "{\"error\":\"Resource not found\"}");
}

#[test]
fn delete_of_an_absent_entry_succeeds() {
    let mut store = Store::new();
    create(&mut store, "a");
    let response = respond_status(todo_delete(&mut store, 7));
    assert_eq!(response.status(), 204);
    assert!(matches!(response.body(), Body::Empty));
    assert_eq!(todo_list(&store).expect("the store is open").len(), 1);
    let again = respond_status(todo_delete(&mut store, 7));
    assert_eq!(again.status(), 204);
}

#[test]
fn reading_a_never_created_id_is_not_found() {
    let mut store = Store::new();
    create(&mut store, "a");
    let response = respond_todo(todo_read(&store, 999999));
    assert_eq!(response.status(), 404);
    assert_eq!(error_text(&response), "{\"error\":\"Resource not found\"}");
    assert_eq!(respond_todo(todo_read(&store, 0)).status(), 404);
    assert_eq!(respond_todo(todo_read(&store, -1)).status(), 404);
    assert_eq!(respond_todo(todo_read(&Store::new(), 1)).status(), 404);
}

#[test]
fn list_reflects_live_entries_only() {
    let mut store = Store::new();
    let first = create(&mut store, "one");
    let second = create(&mut store, "two");
    let third = create(&mut store, "three");
    assert_eq!((first.id(), second.id(), third.id()), (1, 2, 3));
    todo_delete(&mut store, second.id()).expect("the store is open");
    let listed = todo_list(&store).expect("the store is open");
    assert_eq!(listed.len(), 2);
    assert_eq!(listed[0].id(), first.id());
    assert_eq!(listed[0].body(), "one");
    assert_eq!(listed[1].id(), third.id());
    assert_eq!(listed[1].body(), "three");
    let response = respond_todos(todo_list(&store));
    assert_eq!(response.status(), 200);
    match response.body() {
        Body::Todos(todos) => {
            assert_eq!(todos.iter().map(|todo| todo.id()).collect::<Vec<i64>>(), vec![1, 3]);
        }
        other => panic!("no entries: {:?}", other),
    }
}

#[test]
fn identifiers_are_not_handed_out_twice() {
    let mut store = Store::new();
    let first = create(&mut store, "one");
    todo_delete(&mut store, first.id()).expect("the store is open");
    let second = create(&mut store, "two");
    assert_eq!(first.id(), 1);
    assert_eq!(second.id(), 2);
    assert!(matches!(todo_read(&store, 1), Err(Error::NotFound)));
}

#[test]
fn an_empty_store_lists_nothing() {
    let store = Store::new();
    assert!(todo_list(&store).expect("the store is open").is_empty());
}

#[test]
fn malformed_create_is_a_bad_request_and_inserts_nothing() {
    let mut store = Store::new();
    create(&mut store, "a");
    let outcome = todo_create(&mut store, Err("missing field `body`".to_string()));
    assert!(matches!(&outcome, Err(Error::Validation(reason)) if reason == "missing field `body`"));
    let response = respond_todo(outcome);
    assert_eq!(response.status(), 400);
    assert_eq!(error_text(&response), "{\"error\":\"missing field `body`\"}");
    assert_eq!(todo_list(&store).expect("the store is open").len(), 1);
    assert_eq!(create(&mut store, "b").id(), 2);
}

#[test]
fn malformed_update_is_a_bad_request_and_changes_nothing() {
    let mut store = Store::new();
    let created = create(&mut store, "a");
    let response =
        respond_todo(todo_update(&mut store, created.id(), Err("expected a boolean".to_string())));
    assert_eq!(response.status(), 400);
    assert_eq!(error_text(&response), "{\"error\":\"expected a boolean\"}");
    let response = respond_todo(todo_update(&mut store, 99, Err("bad".to_string())));
    assert_eq!(response.status(), 400);
    let read = todo_read(&store, created.id()).expect("the entry is there");
    assert_eq!(read.body(), "a");
    assert!(!read.completed());
}

#[test]
fn update_of_an_absent_entry_is_not_found() {
    let mut store = Store::new();
    create(&mut store, "a");
    let outcome = todo_update(&mut store, 2, Ok(UpdateTodo::new("b".to_string(), true)));
    assert!(matches!(outcome, Err(Error::NotFound)));
    assert_eq!(respond_todo(outcome).status(), 404);
    assert_eq!(todo_read(&store, 1).expect("the entry is there").body(), "a");
}

#[test]
fn two_updates_leave_one_of_the_two_states() {
    for first_wins in [false, true] {
        let mut store = Store::new();
        let created = create(&mut store, "start");
        let a = ("left", true);
        let b = ("right", false);
        let (earlier, later) = if first_wins { (b, a) } else { (a, b) };
        todo_update(&mut store, created.id(), Ok(UpdateTodo::new(earlier.0.to_string(), earlier.1)))
            .expect("the entry is there");
        todo_update(&mut store, created.id(), Ok(UpdateTodo::new(later.0.to_string(), later.1)))
            .expect("the entry is there");
        let read = todo_read(&store, created.id()).expect("the entry is there");
        let state = (read.body(), read.completed());
        assert!(state == a || state == b);
        assert_eq!(state, later);
        assert_eq!(todo_list(&store).expect("the store is open").len(), 1);
    }
}

#[test]
fn readiness_follows_the_store() {
    let mut store = Store::new();
    assert_eq!(ping(&store).expect("the store is open"), "OK");
    let response = respond_text(ping(&store));
    assert_eq!(response.status(), 200);
    assert!(matches!(response.body(), Body::Text(text) if text == "OK"));
    store.close();
    let response = respond_text(ping(&store));
    assert_eq!(response.status(), 500);
    assert_eq!(
        error_text(&response),
        "{\"error\":\"attempted to acquire a connection on a closed pool\"}"
    );
}

#[test]
fn a_closed_store_fails_every_operation_and_keeps_its_rows() {
    let mut store = Store::new();
    create(&mut store, "a");
    store.close();
    let closed = "attempted to acquire a connection on a closed pool";
    assert!(matches!(todo_list(&store), Err(Error::Sqlx(text)) if text == closed));
    assert!(matches!(todo_read(&store, 1), Err(Error::Sqlx(text)) if text == closed));
    assert!(matches!(
        todo_create(&mut store, Ok(CreateTodo::new("b".to_string()))),
        Err(Error::Sqlx(text)) if text == closed
    ));
    assert!(matches!(
        todo_update(&mut store, 1, Ok(UpdateTodo::new("b".to_string(), true))),
        Err(Error::Sqlx(text)) if text == closed
    ));
    assert!(matches!(todo_delete(&mut store, 1), Err(Error::Sqlx(text)) if text == closed));
    assert_eq!(respond_todos(todo_list(&store)).status(), 500);
    assert!(matches!(
        todo_create(&mut store, Err("bad".to_string())),
        Err(Error::Validation(reason)) if reason == "bad"
    ));
}

#[test]
fn repository_and_handlers_agree() {
    let mut store = Store::new();
    let created = Todo::create(&mut store, CreateTodo::new("a".to_string())).expect("open");
    assert_eq!(Todo::read(&store, created.id()).expect("there").body(), "a");
    let updated = Todo::update(&mut store, created.id(), UpdateTodo::new("b".to_string(), true))
        .expect("there");
    assert_eq!((updated.body(), updated.completed()), ("b", true));
    assert_eq!(Todo::list(&store).expect("open").len(), 1);
    assert!(Todo::delete(&mut store, created.id()).is_ok());
    assert!(Todo::delete(&mut store, created.id()).is_ok());
    assert!(Todo::list(&store).expect("open").is_empty());
    assert!(matches!(Todo::read(&store, created.id()), Err(Error::NotFound)));
    assert!(matches!(
        Todo::update(&mut store, created.id(), UpdateTodo::new("c".to_string(), false)),
        Err(Error::NotFound)
    ));
}

#[test]
fn the_service_answers_the_whole_life_of_an_entry() {
    let router = create_router();
    let mut store = Store::new();
    store.advance(10);

    let alive = serve(&router, &mut store, request(Method::Get, "/alive", Payload::Absent));
    assert_eq!(alive.status(), 200);
    assert!(matches!(alive.body(), Body::Text(text) if text == "OK"));
    let ready = serve(&router, &mut store, request(Method::Get, "/ready", Payload::Absent));
    assert_eq!(ready.status(), 200);

    let created = serve(
        &router,
        &mut store,
        request(Method::Post, "/v1/todos", Payload::Create(CreateTodo::new("buy milk".to_string()))),
    );
    assert_eq!(created.status(), 200);
    let todo = one(&created);
    assert_eq!((todo.id(), todo.body(), todo.completed()), (1, "buy milk", false));

    let read = serve(&router, &mut store, request(Method::Get, "/v1/todos/1", Payload::Absent));
    assert_eq!(read.status(), 200);
    assert_eq!(one(&read).body(), "buy milk");

    store.advance(20);
    let updated = serve(
        &router,
        &mut store,
        request(Method::Put, "/v1/todos/1", Payload::Update(UpdateTodo::new("x".to_string(), true))),
    );
    assert_eq!(updated.status(), 200);
    let todo = one(&updated);
    assert_eq!((todo.body(), todo.completed()), ("x", true));
    assert_eq!((todo.created_at(), todo.updated_at()), (10, 20));

    let listed = serve(&router, &mut store, request(Method::Get, "/v1/todos", Payload::Absent));
    assert_eq!(listed.status(), 200);
    assert!(matches!(listed.body(), Body::Todos(todos) if todos.len() == 1));

    let deleted = serve(&router, &mut store, request(Method::Delete, "/v1/todos/1", Payload::Absent));
    assert_eq!(deleted.status(), 204);
    assert!(matches!(deleted.body(), Body::Empty));

    let gone = serve(&router, &mut store, request(Method::Get, "/v1/todos/1", Payload::Absent));
    assert_eq!(gone.status(), 404);
    assert_eq!(error_text(&gone), "{\"error\":\"Resource not found\"}");
    let never = serve(&router, &mut store, request(Method::Get, "/v1/todos/999999", Payload::Absent));
    assert_eq!(never.status(), 404);
}

#[test]
fn the_service_rejects_what_it_cannot_read() {
    let router = create_router();
    let mut store = Store::new();
    let missing = serve(
        &router,
        &mut store,
        request(Method::Post, "/v1/todos", Payload::Malformed("missing field `body`".to_string())),
    );
    assert_eq!(missing.status(), 400);
    assert_eq!(error_text(&missing), "{\"error\":\"missing field `body`\"}");
    let absent = serve(&router, &mut store, request(Method::Post, "/v1/todos", Payload::Absent));
    assert_eq!(absent.status(), 400);
    assert_eq!(error_text(&absent), "{\"error\":\"missing request body\"}");
    assert!(todo_list(&store).expect("the store is open").is_empty());

    let word = serve(&router, &mut store, request(Method::Get, "/v1/todos/abc", Payload::Absent));
    assert_eq!(word.status(), 400);
    assert_eq!(
        error_text(&word),
        "{\"error\":\"invalid to-do identifier: the last path segment must be a 64-bit integer\"}"
    );

    create(&mut store, "a");
    let partial = serve(
        &router,
        &mut store,
        request(Method::Put, "/v1/todos/1", Payload::Create(CreateTodo::new("b".to_string()))),
    );
    assert_eq!(partial.status(), 400);
    assert_eq!(error_text(&partial), "{\"error\":\"missing field `completed`\"}");
    assert_eq!(todo_read(&store, 1).expect("the entry is there").body(), "a");
}

#[test]
fn a_creation_ignores_members_other_than_the_text() {
    let router = create_router();
    let mut store = Store::new();
    let created = serve(
        &router,
        &mut store,
        request(Method::Post, "/v1/todos", Payload::Update(UpdateTodo::new("a".to_string(), true))),
    );
    assert_eq!(created.status(), 200);
    let todo = one(&created);
    assert_eq!((todo.body(), todo.completed()), ("a", false));
}

#[test]
fn the_service_knows_its_routes_only() {
    let router = create_router();
    let mut store = Store::new();
    let unknown = serve(&router, &mut store, request(Method::Get, "/v2/todos", Payload::Absent));
    assert_eq!(unknown.status(), 404);
    assert!(matches!(unknown.body(), Body::Empty));
    let method = serve(&router, &mut store, request(Method::Delete, "/v1/todos", Payload::Absent));
    assert_eq!(method.status(), 405);
    assert!(matches!(method.body(), Body::Empty));
}

#[test]
fn dispatch_carries_out_at_the_target() {
    let mut store = Store::new();
    let created =
        dispatch(&mut store, Target::TodoCreate, Payload::Create(CreateTodo::new("a".to_string())));
    assert_eq!(created.status(), 200);
    assert_eq!(dispatch(&mut store, Target::TodoRead(1), Payload::Absent).status(), 200);
    assert_eq!(dispatch(&mut store, Target::TodoDelete(1), Payload::Absent).status(), 204);
    assert_eq!(dispatch(&mut store, Target::TodoRead(1), Payload::Absent).status(), 404);
    assert_eq!(dispatch(&mut store, Target::Alive, Payload::Absent).status(), 200);
    store.close();
    assert_eq!(dispatch(&mut store, Target::Alive, Payload::Absent).status(), 200);
    assert_eq!(dispatch(&mut store, Target::Ready, Payload::Absent).status(), 500);
    assert_eq!(dispatch(&mut store, Target::TodoList, Payload::Absent).status(), 500);
}

#[test]
fn a_table_out_of_identifiers_fails_a_creation() {
    assert!(Store::with_sequence(-1).is_none());
    let mut store = Store::with_sequence(i64::MAX - 1).expect("the sequence is not negative");
    let last = create(&mut store, "last");
    assert_eq!(last.id(), i64::MAX);
    let outcome = todo_create(&mut store, Ok(CreateTodo::new("one more".to_string())));
    let full = "error returned from database: (code: 13) database or disk is full";
    assert!(matches!(&outcome, Err(Error::Sqlx(text)) if text == full));
    let response = respond_todo(outcome);
    assert_eq!(response.status(), 500);
    assert_eq!(
        error_text(&response),
        "{\"error\":\"error returned from database: (code: 13) database or disk is full\"}"
    );
    let listed = todo_list(&store).expect("the store is open");
    assert_eq!(listed.len(), 1);
    assert_eq!(listed[0].id(), i64::MAX);
    assert_eq!(todo_read(&store, i64::MAX).expect("the entry is there").body(), "last");
    let fresh = Store::with_sequence(0).expect("the sequence is not negative");
    assert!(todo_list(&fresh).expect("the store is open").is_empty());
}

fn asked(step: Step) -> (String, Vec<String>, Fetch) {
    match step {
        Step::Ask(statement) => (
            statement.sql().to_string(),
            statement.params().iter().map(|param| format!("{:?}", param)).collect(),
            statement.fetch(),
        ),
        Step::Answer(response) => panic!("answered at once: {:?}", response),
    }
}

fn answered(step: Step) -> Response {
    match step {
        Step::Answer(response) => response,
        Step::Ask(statement) => panic!("asked the store: {:?}", statement),
    }
}

fn row(id: i64, body: &str, completed: bool) -> Todo {
    Todo::new(id, body.to_string(), completed, 10, 20)
}

#[test]
fn the_first_step_is_a_statement_for_what_can_be_read() {
    assert_eq!(
        asked(begin(Endpoint::Ready, None, Payload::Absent)),
        ("SELECT 1".to_string(), vec![], Fetch::Nothing)
    );
    assert_eq!(
        asked(begin(Endpoint::TodoList, None, Payload::Absent)),
        ("SELECT * FROM todos ORDER BY id".to_string(), vec![], Fetch::All)
    );
    assert_eq!(
        asked(begin(Endpoint::TodoRead, Some(7), Payload::Absent)),
        ("SELECT * FROM todos WHERE id = ?".to_string(), vec!["Integer(7)".to_string()], Fetch::One)
    );
    assert_eq!(
        asked(begin(
            Endpoint::TodoCreate,
            None,
            Payload::Create(CreateTodo::new("buy milk".to_string()))
        )),
        (
            "INSERT INTO todos (body) VALUES (?) RETURNING *".to_string(),
            vec!["Text(\"buy milk\")".to_string()],
            Fetch::One
        )
    );
    assert_eq!(
        asked(begin(
            Endpoint::TodoCreate,
            None,
            Payload::Update(UpdateTodo::new("a".to_string(), true))
        ))
        .1,
        vec!["Text(\"a\")".to_string()]
    );
    assert_eq!(
        asked(begin(
            Endpoint::TodoUpdate,
            Some(7),
            Payload::Update(UpdateTodo::new("x".to_string(), true))
        )),
        (
            "UPDATE todos SET body = ?, completed = ?, updated_at = datetime('now') WHERE id = ? RETURNING *"
                .to_string(),
            vec!["Text(\"x\")".to_string(), "Boolean(true)".to_string(), "Integer(7)".to_string()],
            Fetch::One
        )
    );
    assert_eq!(
        asked(begin(Endpoint::TodoDelete, Some(7), Payload::Absent)),
        ("DELETE FROM todos WHERE id = ?".to_string(), vec!["Integer(7)".to_string()], Fetch::Nothing)
    );
}

#[test]
fn the_first_step_answers_what_cannot_be_read() {
    let invalid =
        "{\"error\":\"invalid to-do identifier: the last path segment must be a 64-bit integer\"}";
    let alive = answered(begin(Endpoint::Alive, None, Payload::Absent));
    assert_eq!(alive.status(), 200);
    assert!(matches!(alive.body(), Body::Text(text) if text == "OK"));
    for endpoint in [Endpoint::TodoRead, Endpoint::TodoUpdate, Endpoint::TodoDelete] {
        let refused = answered(begin(
            endpoint,
            None,
            Payload::Update(UpdateTodo::new("x".to_string(), true)),
        ));
        assert_eq!(refused.status(), 400);
        assert_eq!(error_text(&refused), invalid);
    }
    let both = answered(begin(Endpoint::TodoUpdate, None, Payload::Malformed("bad".to_string())));
    assert_eq!(error_text(&both), invalid);
    let body = answered(begin(Endpoint::TodoUpdate, Some(1), Payload::Malformed("bad".to_string())));
    assert_eq!(body.status(), 400);
    assert_eq!(error_text(&body), "{\"error\":\"bad\"}");
    let partial = answered(begin(
        Endpoint::TodoUpdate,
        Some(1),
        Payload::Create(CreateTodo::new("x".to_string())),
    ));
    assert_eq!(error_text(&partial), "{\"error\":\"missing field `completed`\"}");
    let missing = answered(begin(Endpoint::TodoCreate, None, Payload::Absent));
    assert_eq!(missing.status(), 400);
    assert_eq!(error_text(&missing), "{\"error\":\"missing request body\"}");
    let malformed = answered(begin(
        Endpoint::TodoCreate,
        None,
        Payload::Malformed("missing field `body`".to_string()),
    ));
    assert_eq!(error_text(&malformed), "{\"error\":\"missing field `body`\"}");
}

#[test]
fn the_last_step_maps_what_came_back() {
    let read = finish(Endpoint::TodoRead, Ok(vec![row(7, "a", true)]));
    assert_eq!(read.status(), 200);
    assert_eq!((one(&read).id(), one(&read).completed()), (7, true));
    for endpoint in [Endpoint::TodoRead, Endpoint::TodoUpdate] {
        assert_eq!(finish(endpoint, Err(StoreError::RowNotFound)).status(), 404);
        assert_eq!(finish(endpoint, Ok(Vec::new())).status(), 404);
        assert_eq!(finish(endpoint, Err(StoreError::Other("x".to_string()))).status(), 500);
        assert_eq!(finish(endpoint, Ok(vec![row(1, "a", false)])).status(), 200);
    }
    let created = finish(Endpoint::TodoCreate, Ok(vec![row(1, "a", false)]));
    assert_eq!(created.status(), 200);
    assert_eq!(one(&created).body(), "a");
    assert_eq!(finish(Endpoint::TodoCreate, Err(StoreError::RowNotFound)).status(), 500);
    assert_eq!(finish(Endpoint::TodoCreate, Ok(Vec::new())).status(), 500);
    let listed = finish(Endpoint::TodoList, Ok(vec![row(1, "a", false), row(3, "c", true)]));
    assert_eq!(listed.status(), 200);
    assert!(matches!(listed.body(), Body::Todos(todos) if todos.len() == 2 && todos[1].id() == 3));
    assert_eq!(finish(Endpoint::TodoList, Err(StoreError::RowNotFound)).status(), 500);
    let deleted = finish(Endpoint::TodoDelete, Ok(Vec::new()));
    assert_eq!(deleted.status(), 204);
    assert!(matches!(deleted.body(), Body::Empty));
    assert_eq!(finish(Endpoint::TodoDelete, Err(StoreError::RowNotFound)).status(), 500);
    let failed = finish(Endpoint::TodoDelete, Err(StoreError::Other("locked".to_string())));
    assert_eq!(failed.status(), 500);
    assert_eq!(error_text(&failed), "{\"error\":\"locked\"}");
    let ready = finish(Endpoint::Ready, Ok(Vec::new()));
    assert_eq!(ready.status(), 200);
    assert!(matches!(ready.body(), Body::Text(text) if text == "OK"));
    assert_eq!(finish(Endpoint::Ready, Err(StoreError::RowNotFound)).status(), 500);
    assert_eq!(finish(Endpoint::Ready, Err(StoreError::Other("x".to_string()))).status(), 500);
    assert_eq!(finish(Endpoint::Alive, Err(StoreError::Other("x".to_string()))).status(), 200);
}

#[test]
fn the_steps_answer_as_the_store_in_memory() {
    let mut store = Store::new();
    create(&mut store, "a");
    let by_model = dispatch(&mut store, Target::TodoRead(1), Payload::Absent);
    let by_steps = finish(Endpoint::TodoRead, todo_api::store::Store::select(&store, 1).map(|row| vec![row]));
    assert_eq!(by_model.status(), by_steps.status());
    assert_eq!(one(&by_model).body(), one(&by_steps).body());
    let by_model = dispatch(&mut store, Target::TodoRead(2), Payload::Absent);
    let by_steps = finish(Endpoint::TodoRead, todo_api::store::Store::select(&store, 2).map(|row| vec![row]));
    assert_eq!((by_model.status(), by_steps.status()), (404, 404));
    assert_eq!(error_text(&by_model), error_text(&by_steps));
}
