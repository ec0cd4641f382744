use todo_api::config::{database_url, log_directives};
use todo_api::error::{frame_error, Error, StoreError};
use todo_api::api::pong;
use todo_api::repository::{first_row, no_row, settle, surface, Fetch, Param, Statement};
use todo_api::response::{Body, Response};
use todo_api::text::{chars_of, has_char_from, prefix_at, same_chars};
use todo_api::todo::{CreateTodo, Todo, UpdateTodo};

fn document(response: &Response) -> String {
    match response.body() {
        Body::Json(text) => text.clone(),
        other => panic!("no error envelope: {:?}", other),
    }
}

fn envelope_by_serde(message: &str) -> String {
    let mut object = serde_json::Map::new();
    object.insert("error".to_string(), serde_json::Value::String(message.to_string()));
    serde_json::to_string(&serde_json::Value::Object(object)).expect("a string serialises")
}

fn shape(params: &Vec<Param>) -> Vec<String> {
    params.iter().map(|param| format!("{:?}", param)).collect()
}

#[test]
fn not_found_is_404_with_the_fixed_message() {
    assert_eq!(Error::NotFound.status(), 404);
    assert_eq!(Error::NotFound.message(), "Resource not found");
    let response = Error::NotFound.into_response();
    assert_eq!(response.status(), 404);
    assert_eq!(document(&response), "{\"error\":\"Resource not found\"}");
}

#[test]
fn a_store_failure_keeps_its_status_and_its_text() {
    let error = Error::Sqlx("error communicating with database: broken pipe".to_string());
    assert_eq!(error.status(), 500);
    assert_eq!(error.message(), "error communicating with database: broken pipe");
    let response = error.into_response();
    assert_eq!(response.status(), 500);
    assert_eq!(
        document(&response),
        "{\"error\":\"error communicating with database: broken pipe\"}"
    );
    assert_eq!(Error::Sqlx("busy".to_string()).status(), 500);
    assert_eq!(Error::Sqlx(String::new()).into_response().status(), 500);
}

#[test]
fn a_validation_failure_is_400_with_its_reason() {
    let error = Error::Validation("missing field `body`".to_string());
    assert_eq!(error.status(), 400);
    assert_eq!(error.message(), "missing field `body`");
    let response = error.into_response();
    assert_eq!(response.status(), 400);
    assert_eq!(document(&response), "{\"error\":\"missing field `body`\"}");
}

#[test]
fn the_envelope_escapes_as_json_asks() {
    let message = "near \"todos\": syntax\terror\\ at line 1\n\u{1}é";
    let response = Error::Sqlx(message.to_string()).into_response();
    assert_eq!(
        document(&response),
        "{\"error\":\"near \\\"todos\\\": syntax\\terror\\\\ at line 1\\n\\u0001é\"}"
    );
    assert_eq!(document(&response), envelope_by_serde(message));
    assert_eq!(document(&Error::NotFound.into_response()), envelope_by_serde("Resource not found"));
    assert_eq!(document(&Error::Validation(String::new()).into_response()), "{\"error\":\"\"}");
}

#[test]
fn the_envelope_reads_back_as_the_message() {
    let message = "a \"quoted\" word";
    let text = document(&Error::Validation(message.to_string()).into_response());
    let value: serde_json::Value = serde_json::from_str(&text).expect("the envelope is JSON");
    let object = value.as_object().expect("the envelope is an object");
    assert_eq!(object.len(), 1);
    assert_eq!(object.get("error").and_then(|member| member.as_str()), Some(message));
}

#[test]
fn frame_error_puts_a_literal_into_the_envelope() {
    assert_eq!(frame_error("\"x\""), "{\"error\":\"x\"}");
    assert_eq!(frame_error(""), "{\"error\":}");
    assert_eq!(frame_error("null"), "{\"error\":null}");
}

#[test]
fn failures_of_the_store_become_errors() {
    assert!(matches!(Error::from(StoreError::RowNotFound), Error::NotFound));
    assert!(matches!(
        Error::from(StoreError::Other("pool timed out".to_string())),
        Error::Sqlx(text) if text == "pool timed out"
    ));
    assert!(matches!(settle::<i64>(Ok(3)), Ok(3)));
    assert!(matches!(settle::<i64>(Err(StoreError::RowNotFound)), Err(Error::NotFound)));
    assert!(matches!(
        settle::<()>(Err(StoreError::Other("x".to_string()))),
        Err(Error::Sqlx(text)) if text == "x"
    ));
}

#[test]
fn the_statements_of_the_repository() {
    let list = Statement::list();
    assert_eq!(list.sql(), "SELECT * FROM todos ORDER BY id");
    assert!(list.params().is_empty());
    assert_eq!(list.fetch(), Fetch::All);

    let read = Statement::read(7);
    assert_eq!(read.sql(), "SELECT * FROM todos WHERE id = ?");
    assert_eq!(shape(read.params()), vec!["Integer(7)"]);
    assert_eq!(read.fetch(), Fetch::One);

    let create = Statement::create(&CreateTodo::new("buy milk".to_string()));
    assert_eq!(create.sql(), "INSERT INTO todos (body) VALUES (?) RETURNING *");
    assert_eq!(shape(create.params()), vec!["Text(\"buy milk\")"]);
    assert_eq!(create.fetch(), Fetch::One);

    let update = Statement::update(7, &UpdateTodo::new("x".to_string(), true));
    assert_eq!(
        update.sql(),
        "UPDATE todos SET body = ?, completed = ?, updated_at = datetime('now') WHERE id = ? RETURNING *"
    );
    assert_eq!(shape(update.params()), vec!["Text(\"x\")", "Boolean(true)", "Integer(7)"]);
    assert_eq!(update.fetch(), Fetch::One);

    let delete = Statement::delete(-3);
    assert_eq!(delete.sql(), "DELETE FROM todos WHERE id = ?");
    assert_eq!(shape(delete.params()), vec!["Integer(-3)"]);
    assert_eq!(delete.fetch(), Fetch::Nothing);

    let ping = Statement::ping();
    assert_eq!(ping.sql(), "SELECT 1");
    assert!(ping.params().is_empty());
    assert_eq!(ping.fetch(), Fetch::Nothing);

    let migrate = Statement::migrate();
    assert!(migrate.sql().starts_with("CREATE TABLE IF NOT EXISTS todos (id INTEGER PRIMARY KEY AUTOINCREMENT"));
    assert!(migrate.params().is_empty());
    assert_eq!(migrate.fetch(), Fetch::Nothing);
}

#[test]
fn a_statement_never_holds_a_value() {
    let hostile = "x'); DROP TABLE todos; --";
    let create = Statement::create(&CreateTodo::new(hostile.to_string()));
    assert_eq!(create.sql(), Statement::create(&CreateTodo::new(String::new())).sql());
    assert!(!create.sql().contains("DROP"));
    let update = Statement::update(1, &UpdateTodo::new(hostile.to_string(), false));
    assert_eq!(update.sql(), Statement::update(2, &UpdateTodo::new(String::new(), true)).sql());
    assert_eq!(update.sql().matches('?').count(), update.params().len());
    assert_eq!(create.sql().matches('?').count(), create.params().len());
    assert_eq!(Statement::read(1).sql().matches('?').count(), 1);
    assert_eq!(Statement::delete(1).sql().matches('?').count(), 1);
}

#[test]
fn inputs_and_entries_hand_out_their_fields() {
    let create = CreateTodo::new("a".to_string());
    assert_eq!(create.body(), "a");
    let update = UpdateTodo::new("b".to_string(), true);
    assert_eq!(update.body(), "b");
    assert!(update.completed());
    let todo = Todo::new(3, "c".to_string(), true, 10, 20);
    assert_eq!(
        (todo.id(), todo.body(), todo.completed(), todo.created_at(), todo.updated_at()),
        (3, "c", true, 10, 20)
    );
    let copy = todo.clone();
    assert_eq!(
        (copy.id(), copy.body(), copy.completed(), copy.created_at(), copy.updated_at()),
        (3, "c", true, 10, 20)
    );
}

#[test]
fn a_response_comes_apart() {
    let response = Response::new(200, Body::Text("OK".to_string()));
    assert_eq!(response.status(), 200);
    let (status, body) = response.into_parts();
    assert_eq!(status, 200);
    assert!(matches!(body, Body::Text(text) if text == "OK"));
}

#[test]
fn configuration_falls_back_on_defaults() {
    assert_eq!(database_url(None), "sqlite:db.sqlite");
    assert_eq!(database_url(Some("sqlite::memory:".to_string())), "sqlite::memory:");
    assert_eq!(database_url(Some(String::new())), "");
    assert_eq!(log_directives(None), "sqlx=info,tower_http=debug,info");
    assert_eq!(log_directives(Some("debug".to_string())), "debug");
}

#[test]
fn character_helpers() {
    assert_eq!(chars_of("a/é"), vec!['a', '/', 'é']);
    assert!(chars_of("").is_empty());
    let text = chars_of("/v1/todos/1");
    assert!(same_chars(&text, &chars_of("/v1/todos/1")));
    assert!(!same_chars(&text, &chars_of("/v1/todos/2")));
    assert!(!same_chars(&text, &chars_of("/v1/todos")));
    assert!(prefix_at(&text, &chars_of("/v1")));
    assert!(prefix_at(&text, &chars_of("")));
    assert!(!prefix_at(&text, &chars_of("/v2")));
    assert!(!prefix_at(&chars_of("/v"), &chars_of("/v1")));
    assert!(has_char_from(&text, 0, '/'));
    assert!(has_char_from(&text, 9, '/'));
    assert!(!has_char_from(&text, 10, '/'));
    assert!(!has_char_from(&text, 11, '/'));
}

#[test]
fn a_store_failure_is_a_server_error_whatever_it_is() {
    let no_rows = "no rows returned by a query that expected to return at least one row";
    assert!(matches!(
        Error::store_failure(StoreError::RowNotFound),
        Error::Sqlx(text) if text == no_rows
    ));
    assert!(matches!(
        Error::store_failure(StoreError::Other("pool timed out".to_string())),
        Error::Sqlx(text) if text == "pool timed out"
    ));
    assert_eq!(Error::store_failure(StoreError::RowNotFound).status(), 500);
    assert_eq!(Error::store_failure(StoreError::RowNotFound).into_response().status(), 500);
    assert!(matches!(surface::<i64>(Ok(3)), Ok(3)));
    assert!(matches!(
        surface::<i64>(Err(StoreError::RowNotFound)),
        Err(Error::Sqlx(text)) if text == no_rows
    ));
    assert!(matches!(
        surface::<()>(Err(StoreError::Other("x".to_string()))),
        Err(Error::Sqlx(text)) if text == "x"
    ));
}

#[test]
fn readiness_knows_success_and_server_error_only() {
    assert_eq!(pong(Ok(())).expect("the store answered"), "OK");
    let absent = pong(Err(StoreError::RowNotFound)).expect_err("the store failed");
    assert_eq!(absent.status(), 500);
    assert_eq!(
        absent.message(),
        "no rows returned by a query that expected to return at least one row"
    );
    let closed = pong(Err(StoreError::Other("closed".to_string()))).expect_err("the store failed");
    assert_eq!(closed.status(), 500);
    assert_eq!(closed.message(), "closed");
}

#[test]
fn the_awaited_row_is_the_first_that_came() {
    let rows = vec![Todo::new(4, "a".to_string(), false, 1, 2), Todo::new(5, "b".to_string(), true, 3, 4)];
    let first = first_row(Ok(rows)).expect("a row came");
    assert_eq!(
        (first.id(), first.body(), first.completed(), first.created_at(), first.updated_at()),
        (4, "a", false, 1, 2)
    );
    assert!(matches!(first_row(Ok(Vec::new())), Err(StoreError::RowNotFound)));
    assert!(matches!(first_row(Err(StoreError::RowNotFound)), Err(StoreError::RowNotFound)));
    assert!(matches!(
        first_row(Err(StoreError::Other("x".to_string()))),
        Err(StoreError::Other(text)) if text == "x"
    ));
    assert!(no_row(Ok(Vec::new())).is_ok());
    assert!(no_row(Ok(vec![Todo::new(4, "a".to_string(), false, 1, 2)])).is_ok());
    assert!(matches!(
        no_row(Err(StoreError::Other("x".to_string()))),
        Err(StoreError::Other(text)) if text == "x"
    ));
    assert!(matches!(no_row(Err(StoreError::RowNotFound)), Err(StoreError::RowNotFound)));
}

#[test]
fn every_character_is_escaped_as_the_literal_asks() {
    let escape = |c: char| -> String {
        let text = document(&Error::Validation(c.to_string()).into_response());
        text["{\"error\":\"".len()..text.len() - "\"}".len()].to_string()
    };
    assert_eq!(escape('"'), "\\\"");
    assert_eq!(escape('\\'), "\\\\");
    assert_eq!(escape('\u{8}'), "\\b");
    assert_eq!(escape('\t'), "\\t");
    assert_eq!(escape('\n'), "\\n");
    assert_eq!(escape('\u{c}'), "\\f");
    assert_eq!(escape('\r'), "\\r");
    let digits: Vec<char> = "0123456789abcdef".chars().collect();
    for code in 0u32..0x20 {
        if [0x8, 0x9, 0xa, 0xc, 0xd].contains(&code) {
            continue;
        }
        let c = char::from_u32(code).expect("a control character");
        let expected = format!("\\u00{}{}", digits[(code / 16) as usize], digits[(code % 16) as usize]);
        assert_eq!(escape(c), expected);
    }
    assert_eq!(escape('\u{1f}'), "\\u001f");
    assert_eq!(escape('\u{0}'), "\\u0000");
    for c in [' ', '!', '#', '/', '[', ']', 'a', 'Z', '~', '\u{7f}', '\u{80}', 'é', '\u{2028}', '😀'] {
        assert_eq!(escape(c), c.to_string());
    }
    assert_eq!(
        document(&Error::Validation("a\"b\\c\nd".to_string()).into_response()),
        "{\"error\":\"a\\\"b\\\\c\\nd\"}"
    );
}
