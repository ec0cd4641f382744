//! What holds of the service whatever the table holds and whatever is asked of it.

use vstd::prelude::*;
use crate::api::{
    conclusion, ok_text, plan, response_at, response_to, table_after, table_served, PayloadSpec,
    RequestSpec, StepSpec, METHOD_NOT_ALLOWED, NO_CONTENT, OK,
};
use crate::error::{
    is_plain, json_string, lemma_plain_text_is_quoted, ErrorSpec, StoreErrorSpec, BAD_REQUEST,
    INTERNAL_SERVER_ERROR, NOT_FOUND,
};
use crate::repository::StatementSpec;
use crate::response::{BodySpec, ResponseSpec};
use crate::router::{
    lemma_service_routes, resolve_in, service_table, Method, Resolution, RouteSpec, Target,
};
use crate::store::{lemma_index_of, Table};
use crate::todo::TodoSpec;

verus! {

/// Every statement leaves a well-formed table well formed; so do a reading of the clock and
/// the closing of the store. In particular no row is ever updated before it was created, and
/// no two rows ever share an identifier.
pub proof fn lemma_table_stays_well_formed(
    table: Table,
    id: i64,
    body: Seq<char>,
    completed: bool,
    now: i64,
)
    requires
        table.wf(),
    ensures
        table.after_insert(body).wf(),
        table.after_update(id, body, completed).wf(),
        table.after_delete(id).wf(),
        table.advance(now).wf(),
        table.close().wf(),
        Table::fresh().wf(),
{
    if table.open && table.has(id) {
        let i = table.index_of(id);
        assert(table.rows[i].id == id);
        let deleted = table.after_delete(id);
        assert forall|j: int, k: int| 0 <= j < k < deleted.rows.len() implies (
        #[trigger] deleted.rows[j]).id < (#[trigger] deleted.rows[k]).id by {
            let before_j = if j < i {
                j
            } else {
                j + 1
            };
            let before_k = if k < i {
                k
            } else {
                k + 1
            };
            assert(table.rows[before_j].id < table.rows[before_k].id);
        }
    }
}

/// An entry that has just been created is read back under the identifier that the creation
/// returned, with the text it was given and not completed.
pub proof fn lemma_create_then_read(table: Table, body: Seq<char>)
    requires
        table.wf(),
        table.can_insert(),
    ensures
        table.insert(body) == Ok::<TodoSpec, StoreErrorSpec>(table.inserted(body)),
        table.inserted(body).body == body,
        !table.inserted(body).completed,
        table.after_insert(body).select(table.inserted(body).id) == table.insert(body),
        response_at(
            Target::TodoRead(table.inserted(body).id),
            PayloadSpec::Absent,
            table_after(Target::TodoCreate, PayloadSpec::Create(body), table),
        ) == (ResponseSpec { status: OK, body: BodySpec::Todo(table.inserted(body)) }),
{
    let after = table.after_insert(body);
    lemma_table_stays_well_formed(table, 0, body, false, 0);
    let last = table.rows.len() as int;
    assert(after.rows[last] == table.inserted(body));
    lemma_index_of(after, last);
}

/// After an update the entry is read back with exactly the text and the completion of the
/// update, under its identifier and with its time of creation; its time of update is the
/// store's. That time is not before the creation, and it is after it if the store's clock
/// has moved on since.
pub proof fn lemma_update_then_read(table: Table, id: i64, body: Seq<char>, completed: bool)
    requires
        table.wf(),
        table.open,
        table.has(id),
    ensures
        table.after_update(id, body, completed).select(id) == table.update(id, body, completed),
        table.update(id, body, completed) == Ok::<TodoSpec, StoreErrorSpec>(
            TodoSpec {
                id,
                body,
                completed,
                created_at: table.row(id).created_at,
                updated_at: table.clock,
            },
        ),
        table.clock >= table.row(id).created_at,
        table.clock > table.row(id).created_at ==> table.updated(id, body, completed).updated_at
            > table.row(id).created_at,
        response_at(
            Target::TodoRead(id),
            PayloadSpec::Absent,
            table_after(Target::TodoUpdate(id), PayloadSpec::Update(body, completed), table),
        ) == (ResponseSpec {
            status: OK,
            body: BodySpec::Todo(table.updated(id, body, completed)),
        }),
{
    let i = table.index_of(id);
    let after = table.after_update(id, body, completed);
    lemma_table_stays_well_formed(table, id, body, completed, 0);
    assert(table.rows[i].id == id);
    assert(after.rows[i] == table.updated(id, body, completed));
    lemma_index_of(after, i);
}

/// A reading that follows a deletion finds nothing, whether or not the deletion did.
pub proof fn lemma_delete_then_read(table: Table, id: i64)
    requires
        table.wf(),
        table.open,
    ensures
        !table.after_delete(id).has(id),
        table.after_delete(id).select(id) == Err::<TodoSpec, StoreErrorSpec>(
            StoreErrorSpec::RowNotFound,
        ),
        response_at(
            Target::TodoDelete(id),
            PayloadSpec::Absent,
            table,
        ).status == NO_CONTENT,
        response_at(
            Target::TodoRead(id),
            PayloadSpec::Absent,
            table_after(Target::TodoDelete(id), PayloadSpec::Absent, table),
        ) == ErrorSpec::NotFound.response(),
        ErrorSpec::NotFound.response().status == NOT_FOUND,
{
    let after = table.after_delete(id);
    if table.has(id) {
        let i = table.index_of(id);
        assert forall|j: int| 0 <= j < after.rows.len() implies (#[trigger] after.rows[j]).id
            != id by {
            if j < i {
                assert(table.rows[j].id < table.rows[i].id);
            } else {
                assert(table.rows[i].id < table.rows[j + 1].id);
            }
        }
    }
}

/// An identifier that the store has not handed out names no entry: reading it finds nothing.
pub proof fn lemma_read_never_created(table: Table, id: i64)
    requires
        table.wf(),
        table.open,
        id < 1 || id > table.last_id,
    ensures
        !table.has(id),
        response_at(Target::TodoRead(id), PayloadSpec::Absent, table)
            == ErrorSpec::NotFound.response(),
        ErrorSpec::NotFound.response().status == NOT_FOUND,
{
    assert forall|j: int| 0 <= j < table.rows.len() implies (#[trigger] table.rows[j]).id
        != id by {
        assert(1 <= table.rows[j].id <= table.last_id);
    }
}

/// The list holds the entries that were created and not deleted, and no other: a creation
/// adds its entry at the end, a deletion takes out the entry it names and nothing else, and
/// an update changes neither the number nor the identifiers.
pub proof fn lemma_list_reflects_live_entries(
    table: Table,
    id: i64,
    body: Seq<char>,
    completed: bool,
)
    requires
        table.wf(),
        table.open,
    ensures
        table.select_all() == Ok::<Seq<TodoSpec>, StoreErrorSpec>(table.rows),
        table.after_delete(id).select_all() == Ok::<Seq<TodoSpec>, StoreErrorSpec>(
            table.after_delete(id).rows,
        ),
        table.can_insert() ==> table.after_insert(body).rows == table.rows.push(
            table.inserted(body),
        ),
        table.has(id) ==> table.after_delete(id).rows.len() == table.rows.len() - 1,
        !table.has(id) ==> table.after_delete(id).rows == table.rows,
        forall|other: i64| #[trigger]
            table.after_delete(id).has(other) <==> table.has(other) && other != id,
        forall|other: i64|
            other != id && table.has(other) ==> #[trigger] table.after_delete(id).row(other)
                == table.row(other),
        table.after_update(id, body, completed).rows.len() == table.rows.len(),
        forall|other: i64| #[trigger]
            table.after_update(id, body, completed).has(other) <==> table.has(other),
{
    let deleted = table.after_delete(id);
    lemma_table_stays_well_formed(table, id, body, completed, 0);
    lemma_delete_then_read(table, id);
    assert forall|other: i64| #[trigger] deleted.has(other) <==> table.has(other) && other
        != id by {
        if table.has(id) {
            let i = table.index_of(id);
            if deleted.has(other) {
                let j = deleted.index_of(other);
                if j < i {
                    assert(table.rows[j].id == other);
                } else {
                    assert(table.rows[j + 1].id == other);
                }
            }
            if table.has(other) && other != id {
                let k = table.index_of(other);
                if k < i {
                    assert(deleted.rows[k].id == other);
                } else {
                    assert(deleted.rows[k - 1].id == other);
                }
            }
        }
    }
    assert forall|other: i64| other != id && table.has(other) implies #[trigger] deleted.row(
        other,
    ) == table.row(other) by {
        if table.has(id) {
            let i = table.index_of(id);
            let k = table.index_of(other);
            let k2 = if k < i {
                k
            } else {
                k - 1
            };
            assert(deleted.rows[k2] == table.rows[k]);
            lemma_index_of(deleted, k2);
        }
    }
    let updated = table.after_update(id, body, completed);
    assert forall|other: i64| #[trigger] updated.has(other) <==> table.has(other) by {
        if table.has(id) {
            let i = table.index_of(id);
            assert(table.rows[i].id == id);
            if updated.has(other) {
                let j = updated.index_of(other);
                assert(table.rows[j].id == other);
            }
            if table.has(other) {
                let k = table.index_of(other);
                assert(updated.rows[k].id == other);
            }
        }
    }
}

/// A creation whose body could not be read as an input is answered with the status of a bad
/// request and the reason, and inserts nothing.
pub proof fn lemma_malformed_create(table: Table, reason: Seq<char>)
    ensures
        response_at(Target::TodoCreate, PayloadSpec::Malformed(reason), table)
            == ErrorSpec::Validation(reason).response(),
        ErrorSpec::Validation(reason).response().status == BAD_REQUEST,
        table_after(Target::TodoCreate, PayloadSpec::Malformed(reason), table) == table,
        table_after(Target::TodoCreate, PayloadSpec::Absent, table) == table,
        response_at(Target::TodoCreate, PayloadSpec::Absent, table).status == BAD_REQUEST,
{
}

/// Two updates of one entry, carried out one after the other in either order, leave the
/// entry with the text and the completion of one of them, the later one; the other entries
/// are as they were.
pub proof fn lemma_last_update_wins(
    table: Table,
    id: i64,
    first: (Seq<char>, bool),
    second: (Seq<char>, bool),
)
    requires
        table.wf(),
        table.open,
        table.has(id),
    ensures
        ({
            let after = table.after_update(id, first.0, first.1).after_update(
                id,
                second.0,
                second.1,
            );
            &&& after.has(id)
            &&& after.row(id) == table.updated(id, second.0, second.1)
            &&& after == table.after_update(id, second.0, second.1)
        }),
        ({
            let after = table.after_update(id, second.0, second.1).after_update(
                id,
                first.0,
                first.1,
            );
            &&& after.has(id)
            &&& after.row(id) == table.updated(id, first.0, first.1)
            &&& after == table.after_update(id, first.0, first.1)
        }),
{
    lemma_update_twice(table, id, first, second);
    lemma_update_twice(table, id, second, first);
}

/// An update that follows another of the same entry leaves the table as if it had come alone.
proof fn lemma_update_twice(
    table: Table,
    id: i64,
    earlier: (Seq<char>, bool),
    later: (Seq<char>, bool),
)
    requires
        table.wf(),
        table.open,
        table.has(id),
    ensures
        ({
            let after = table.after_update(id, earlier.0, earlier.1).after_update(
                id,
                later.0,
                later.1,
            );
            &&& after.has(id)
            &&& after.row(id) == table.updated(id, later.0, later.1)
            &&& after == table.after_update(id, later.0, later.1)
        }),
{
    let i = table.index_of(id);
    let middle = table.after_update(id, earlier.0, earlier.1);
    lemma_table_stays_well_formed(table, id, earlier.0, earlier.1, 0);
    assert(table.rows[i].id == id);
    assert(middle.rows[i].id == id);
    lemma_index_of(middle, i);
    let after = middle.after_update(id, later.0, later.1);
    lemma_table_stays_well_formed(middle, id, later.0, later.1, 0);
    assert(after.rows[i] == table.updated(id, later.0, later.1));
    lemma_index_of(after, i);
    assert(after.rows =~= table.after_update(id, later.0, later.1).rows);
}

/// Liveness is answered with `OK` whatever the store holds, open or closed, and leaves the
/// store alone.
pub proof fn lemma_liveness_ignores_the_store(table: Table, payload: PayloadSpec)
    ensures
        response_to(
            service_table(),
            RequestSpec { method: Method::Get, path: "/alive"@, payload },
            table,
        ) == (ResponseSpec { status: OK, body: BodySpec::Text(ok_text()) }),
        table_served(
            service_table(),
            RequestSpec { method: Method::Get, path: "/alive"@, payload },
            table,
        ) == table,
{
    lemma_service_routes(Method::Get, "/alive"@);
}

/// Readiness succeeds exactly while the store is open, fails with the status of a server
/// error otherwise, and leaves the store alone.
pub proof fn lemma_readiness_follows_the_store(table: Table, payload: PayloadSpec)
    ensures
        ({
            let request = RequestSpec { method: Method::Get, path: "/ready"@, payload };
            &&& response_to(service_table(), request, table).status == (if table.open {
                OK
            } else {
                INTERNAL_SERVER_ERROR
            })
            &&& table_served(service_table(), request, table) == table
        }),
{
    reveal_strlit("/alive");
    reveal_strlit("/ready");
    assert("/ready"@[1] != "/alive"@[1]);
    lemma_service_routes(Method::Get, "/ready"@);
}

/// Every response carries one of six statuses: success, empty success, bad request, not
/// found, method not allowed, or the status of a server error.
pub proof fn lemma_statuses_of_the_service(
    routes: Seq<RouteSpec>,
    request: RequestSpec,
    table: Table,
)
    ensures
        ({
            let status = response_to(routes, request, table).status;
            status == OK || status == NO_CONTENT || status == BAD_REQUEST || status == NOT_FOUND
                || status == METHOD_NOT_ALLOWED || status == INTERNAL_SERVER_ERROR
        }),
{
}

/// A request either succeeds or fails as a whole: one that is answered with a failure
/// leaves the store as it was. So do the requests that only read.
pub proof fn lemma_failures_and_readings_change_nothing(
    routes: Seq<RouteSpec>,
    request: RequestSpec,
    table: Table,
)
    ensures
        response_to(routes, request, table).status >= BAD_REQUEST ==> table_served(
            routes,
            request,
            table,
        ) == table,
        !(resolve_in(routes, request.method, request.path) matches Resolution::Found(target)
            && (target is TodoCreate || target is TodoUpdate || target is TodoDelete))
            ==> table_served(routes, request, table) == table,
{
}

/// The text of a statement never depends on the values that are sent with it: whatever the
/// identifier, the text or the completion, the statement of an operation has one text, and
/// the values travel beside it.
pub proof fn lemma_statements_hold_no_value(
    id: i64,
    body: Seq<char>,
    completed: bool,
    other_id: i64,
    other_body: Seq<char>,
    other_completed: bool,
)
    ensures
        StatementSpec::read(id).sql == StatementSpec::read(other_id).sql,
        StatementSpec::delete(id).sql == StatementSpec::delete(other_id).sql,
        StatementSpec::create(body).sql == StatementSpec::create(other_body).sql,
        StatementSpec::update(id, body, completed).sql == StatementSpec::update(
            other_id,
            other_body,
            other_completed,
        ).sql,
        StatementSpec::read(id).params.len() == 1,
        StatementSpec::delete(id).params.len() == 1,
        StatementSpec::create(body).params.len() == 1,
        StatementSpec::update(id, body, completed).params.len() == 3,
{
}

/// An error is never answered as a success: its status is that of a bad request, of an
/// absent resource or of a server error, and a failure of the store is always the last.
pub proof fn lemma_errors_are_failures(error: ErrorSpec)
    ensures
        error.status() == BAD_REQUEST || error.status() == NOT_FOUND || error.status()
            == INTERNAL_SERVER_ERROR,
        error is Sqlx ==> error.status() == INTERNAL_SERVER_ERROR,
        error.response().status == error.status(),
{
}

/// The body that tells of an absent resource, letter for letter.
pub proof fn lemma_body_of_not_found()
    ensures
        ErrorSpec::NotFound.response() == (ResponseSpec {
            status: NOT_FOUND,
            body: BodySpec::Json("{\"error\":\"Resource not found\"}"@),
        }),
{
    reveal_strlit("Resource not found");
    reveal_strlit("{\"error\":");
    reveal_strlit("}");
    reveal_strlit("{\"error\":\"Resource not found\"}");
    let message = "Resource not found"@;
    assert forall|i: int| 0 <= i < message.len() implies is_plain(#[trigger] message[i]) by {}
    lemma_plain_text_is_quoted(message);
    assert("{\"error\":"@ + json_string(message) + "}"@ =~= "{\"error\":\"Resource not found\"}"@);
}

/// The one row of a statement that yields one, as the rows that come back for it.
pub open spec fn as_rows(answer: Result<TodoSpec, StoreErrorSpec>) -> Result<
    Seq<TodoSpec>,
    StoreErrorSpec,
> {
    match answer {
        Ok(row) => Ok(seq![row]),
        Err(failure) => Err(failure),
    }
}

/// What a store that holds `table` hands back for the statement that is sent for a request
/// that reached `target`: the rows that the statement yields, or the failure.
pub open spec fn handed_back(table: Table, target: Target, payload: PayloadSpec) -> Result<
    Seq<TodoSpec>,
    StoreErrorSpec,
> {
    match target {
        Target::Alive => Ok(Seq::empty()),
        Target::Ready => match table.ping() {
            Ok(_) => Ok(Seq::empty()),
            Err(failure) => Err(failure),
        },
        Target::TodoList => table.select_all(),
        Target::TodoCreate => match payload.as_create() {
            Ok(body) => as_rows(table.insert(body)),
            Err(_) => Ok(Seq::empty()),
        },
        Target::TodoRead(id) => as_rows(table.select(id)),
        Target::TodoUpdate(id) => match payload.as_update() {
            Ok(fields) => as_rows(table.update(id, fields.0, fields.1)),
            Err(_) => Ok(Seq::empty()),
        },
        Target::TodoDelete(id) => match table.delete(id) {
            Ok(_) => Ok(Seq::empty()),
            Err(failure) => Err(failure),
        },
    }
}

/// A request is answered alike, whether it is carried out on a store in memory or step by
/// step through statements, as long as the store behind the statements hands back what the
/// table says.
pub proof fn lemma_steps_answer_as_the_store_in_memory(
    table: Table,
    target: Target,
    payload: PayloadSpec,
)
    ensures
        response_at(target, payload, table) == (match plan(
            target.endpoint(),
            target.id(),
            payload,
        ) {
            StepSpec::Answer(response) => response,
            StepSpec::Ask(_) => conclusion(
                target.endpoint(),
                handed_back(table, target, payload),
            ),
        }),
{
}

} // verus!
