//! The `todos` table: what a store holds and what each statement of the repository does to
//! it.
//!
//! [`Table`] is the mathematical table, with one function per statement. [`Store`] is a table
//! held in memory that carries the statements out as `Table` says; the contracts of the
//! repository and the laws of the service speak of `Table` alone.

use vstd::prelude::*;
use crate::error::{StoreError, StoreErrorSpec};
use crate::todo::{contents, Todo, TodoSpec};

verus! {

/// The state of the store. Identifiers are handed out in ascending order starting at 1 and
/// are never handed out twice; `last_id` is the largest one handed out so far. `clock` is the
/// store's time, in seconds since the Unix epoch. A store that is not `open` fails every
/// statement.
pub ghost struct Table {
    pub rows: Seq<TodoSpec>,
    pub last_id: i64,
    pub clock: i64,
    pub open: bool,
}

/// What the driver reports for a statement on a closed store.
pub open spec fn closed_text() -> Seq<char> {
    "attempted to acquire a connection on a closed pool"@
}

/// What the driver reports when the table has run out of identifiers.
pub open spec fn full_text() -> Seq<char> {
    "error returned from database: (code: 13) database or disk is full"@
}

impl Table {
    /// Rows are in ascending order of identifier, each identifier has been handed out, and no
    /// row was updated before it was created or after the store's present time.
    pub open spec fn wf(self) -> bool {
        &&& 0 <= self.last_id
        &&& forall|i: int|
            0 <= i < self.rows.len() ==> {
                &&& 1 <= (#[trigger] self.rows[i]).id <= self.last_id
                &&& self.rows[i].created_at <= self.rows[i].updated_at <= self.clock
            }
        &&& forall|i: int, j: int|
            0 <= i < j < self.rows.len() ==> (#[trigger] self.rows[i]).id < (
            #[trigger] self.rows[j]).id
    }

    /// The table right after its creation.
    pub open spec fn fresh() -> Table {
        Table::emptied(0)
    }

    /// An empty table that has handed out the identifiers up to `last_id`.
    pub open spec fn emptied(last_id: i64) -> Table {
        Table { rows: Seq::empty(), last_id, clock: 0, open: true }
    }

    /// Whether a row has this identifier.
    pub open spec fn has(self, id: i64) -> bool {
        exists|i: int| 0 <= i < self.rows.len() && (#[trigger] self.rows[i]).id == id
    }

    /// The position of the row with this identifier, where there is one.
    pub open spec fn index_of(self, id: i64) -> int {
        choose|i: int| 0 <= i < self.rows.len() && (#[trigger] self.rows[i]).id == id
    }

    /// The row with this identifier, where there is one.
    pub open spec fn row(self, id: i64) -> TodoSpec {
        self.rows[self.index_of(id)]
    }

    /// The failure of every statement on a closed store.
    pub open spec fn closed_failure() -> StoreErrorSpec {
        StoreErrorSpec::Other(closed_text())
    }

    /// The store's clock after a reading of `now`: it never runs backwards.
    pub open spec fn advance(self, now: i64) -> Table {
        Table {
            clock: if now > self.clock {
                now
            } else {
                self.clock
            },
            ..self
        }
    }

    /// The store after it has been closed.
    pub open spec fn close(self) -> Table {
        Table { open: false, ..self }
    }

    /// The answer to the trivial statement.
    pub open spec fn ping(self) -> Result<(), StoreErrorSpec> {
        if self.open {
            Ok(())
        } else {
            Err(Self::closed_failure())
        }
    }

    /// The answer to the selection of all rows: the rows in ascending order of identifier.
    pub open spec fn select_all(self) -> Result<Seq<TodoSpec>, StoreErrorSpec> {
        if self.open {
            Ok(self.rows)
        } else {
            Err(Self::closed_failure())
        }
    }

    /// The answer to the selection of one row.
    pub open spec fn select(self, id: i64) -> Result<TodoSpec, StoreErrorSpec> {
        if !self.open {
            Err(Self::closed_failure())
        } else if self.has(id) {
            Ok(self.row(id))
        } else {
            Err(StoreErrorSpec::RowNotFound)
        }
    }

    /// Whether an insertion succeeds.
    pub open spec fn can_insert(self) -> bool {
        self.open && self.last_id < i64::MAX
    }

    /// The row that an insertion of `body` adds.
    pub open spec fn inserted(self, body: Seq<char>) -> TodoSpec {
        TodoSpec {
            id: (self.last_id + 1) as i64,
            body,
            completed: false,
            created_at: self.clock,
            updated_at: self.clock,
        }
    }

    /// The answer to an insertion.
    pub open spec fn insert(self, body: Seq<char>) -> Result<TodoSpec, StoreErrorSpec> {
        if !self.open {
            Err(Self::closed_failure())
        } else if self.last_id < i64::MAX {
            Ok(self.inserted(body))
        } else {
            Err(StoreErrorSpec::Other(full_text()))
        }
    }

    /// The store after an insertion.
    pub open spec fn after_insert(self, body: Seq<char>) -> Table {
        if self.can_insert() {
            Table {
                rows: self.rows.push(self.inserted(body)),
                last_id: (self.last_id + 1) as i64,
                ..self
            }
        } else {
            self
        }
    }

    /// What the row with this identifier becomes by an update.
    pub open spec fn updated(self, id: i64, body: Seq<char>, completed: bool) -> TodoSpec {
        TodoSpec { body, completed, updated_at: self.clock, ..self.row(id) }
    }

    /// The answer to an update.
    pub open spec fn update(self, id: i64, body: Seq<char>, completed: bool) -> Result<
        TodoSpec,
        StoreErrorSpec,
    > {
        if !self.open {
            Err(Self::closed_failure())
        } else if self.has(id) {
            Ok(self.updated(id, body, completed))
        } else {
            Err(StoreErrorSpec::RowNotFound)
        }
    }

    /// The store after an update.
    pub open spec fn after_update(self, id: i64, body: Seq<char>, completed: bool) -> Table {
        if self.open && self.has(id) {
            Table {
                rows: self.rows.update(self.index_of(id), self.updated(id, body, completed)),
                ..self
            }
        } else {
            self
        }
    }

    /// The answer to a deletion: it succeeds whether or not a row had the identifier.
    pub open spec fn delete(self, id: i64) -> Result<(), StoreErrorSpec> {
        if self.open {
            Ok(())
        } else {
            Err(Self::closed_failure())
        }
    }

    /// The store after a deletion.
    pub open spec fn after_delete(self, id: i64) -> Table {
        if self.open && self.has(id) {
            Table { rows: self.rows.remove(self.index_of(id)), ..self }
        } else {
            self
        }
    }
}

/// In a well-formed table a row is found at one position only.
pub proof fn lemma_index_of(table: Table, i: int)
    requires
        table.wf(),
        0 <= i < table.rows.len(),
    ensures
        table.has(table.rows[i].id),
        table.index_of(table.rows[i].id) == i,
        table.row(table.rows[i].id) == table.rows[i],
{
    let id = table.rows[i].id;
    let j = table.index_of(id);
    assert(0 <= j < table.rows.len() && table.rows[j].id == id);
    if j < i {
        assert(table.rows[j].id < table.rows[i].id);
    }
    if i < j {
        assert(table.rows[i].id < table.rows[j].id);
    }
}

/// The content of a row, or of the failure in its place.
pub open spec fn row_view<E: View>(outcome: Result<Todo, E>) -> Result<TodoSpec, E::V> {
    match outcome {
        Ok(todo) => Ok(todo@),
        Err(failure) => Err(failure@),
    }
}

/// The content of rows, or of the failure in their place.
pub open spec fn rows_view<E: View>(outcome: Result<Vec<Todo>, E>) -> Result<Seq<TodoSpec>, E::V> {
    match outcome {
        Ok(todos) => Ok(contents(todos@)),
        Err(failure) => Err(failure@),
    }
}

/// A plain value, or the content of the failure in its place.
pub open spec fn plain_view<T, E: View>(outcome: Result<T, E>) -> Result<T, E::V> {
    match outcome {
        Ok(value) => Ok(value),
        Err(failure) => Err(failure@),
    }
}

/// A store held in memory. Every store that [`Store::new`] made and the functions of this
/// crate changed is well formed: `self@.wf()`.
pub struct Store {
    rows: Vec<Todo>,
    last_id: i64,
    clock: i64,
    open: bool,
}

impl View for Store {
    type V = Table;

    closed spec fn view(&self) -> Table {
        Table {
            rows: contents(self.rows@),
            last_id: self.last_id,
            clock: self.clock,
            open: self.open,
        }
    }
}

impl Store {
    /// An open store with an empty table, its clock at the epoch.
    pub fn new() -> (store: Store)
        ensures
            store@ == Table::fresh(),
            store@.wf(),
    {
        let store = Store { rows: Vec::new(), last_id: 0, clock: 0, open: true };
        assert(store@.rows =~= Seq::<TodoSpec>::empty());
        store
    }

    /// An open store with an empty table that has handed out the identifiers up to `last_id`,
    /// its clock at the epoch; none where `last_id` is negative.
    pub fn with_sequence(last_id: i64) -> (store: Option<Store>)
        ensures
            store is Some <==> last_id >= 0,
            store matches Some(store) ==> store@ == Table::emptied(last_id) && store@.wf(),
    {
        if last_id < 0 {
            return None;
        }
        let store = Store { rows: Vec::new(), last_id, clock: 0, open: true };
        assert(store@.rows =~= Seq::<TodoSpec>::empty());
        Some(store)
    }

    /// Tells the store the time. A reading earlier than the store's own is ignored.
    pub fn advance(&mut self, now: i64)
        requires
            old(self)@.wf(),
        ensures
            final(self)@ == old(self)@.advance(now),
            final(self)@.wf(),
    {
        if now > self.clock {
            self.clock = now;
        }
    }

    /// Closes the store: from now on every statement fails.
    pub fn close(&mut self)
        requires
            old(self)@.wf(),
        ensures
            final(self)@ == old(self)@.close(),
            final(self)@.wf(),
    {
        self.open = false;
        assert(self@.rows == old(self)@.rows);
    }

    fn closed_failure() -> (failure: StoreError)
        ensures
            failure@ == Table::closed_failure(),
    {
        StoreError::Other(
            String::from_str("attempted to acquire a connection on a closed pool"),
        )
    }

    fn position(&self, id: i64) -> (found: Option<usize>)
        requires
            self@.wf(),
        ensures
            found is Some <==> self@.has(id),
            found matches Some(i) ==> i < self.rows@.len() && i == self@.index_of(id),
    {
        let mut i: usize = 0;
        while i < self.rows.len()
            invariant
                i <= self.rows@.len(),
                self@.wf(),
                forall|j: int| 0 <= j < i ==> (#[trigger] self@.rows[j]).id != id,
            decreases self.rows.len() - i,
        {
            if self.rows[i].id() == id {
                proof {
                    lemma_index_of(self@, i as int);
                }
                return Some(i);
            }
            i = i + 1;
        }
        None
    }

    /// Carries out the trivial statement.
    pub fn ping(&self) -> (outcome: Result<(), StoreError>)
        ensures
            plain_view(outcome) == self@.ping(),
    {
        if self.open {
            Ok(())
        } else {
            Err(Self::closed_failure())
        }
    }

    /// Selects all rows.
    pub fn select_all(&self) -> (outcome: Result<Vec<Todo>, StoreError>)
        ensures
            rows_view(outcome) == self@.select_all(),
    {
        if !self.open {
            return Err(Self::closed_failure());
        }
        let mut todos: Vec<Todo> = Vec::new();
        let mut i: usize = 0;
        while i < self.rows.len()
            invariant
                i <= self.rows@.len(),
                todos@ == self.rows@.take(i as int),
            decreases self.rows.len() - i,
        {
            todos.push(self.rows[i].clone());
            i = i + 1;
        }
        assert(self.rows@.take(self.rows@.len() as int) == self.rows@);
        Ok(todos)
    }

    /// Selects the row with this identifier.
    pub fn select(&self, id: i64) -> (outcome: Result<Todo, StoreError>)
        requires
            self@.wf(),
        ensures
            row_view(outcome) == self@.select(id),
    {
        if !self.open {
            return Err(Self::closed_failure());
        }
        match self.position(id) {
            Some(i) => Ok(self.rows[i].clone()),
            None => Err(StoreError::RowNotFound),
        }
    }

    /// Inserts a row with this text and hands it out.
    pub fn insert(&mut self, body: &str) -> (outcome: Result<Todo, StoreError>)
        requires
            old(self)@.wf(),
        ensures
            row_view(outcome) == old(self)@.insert(body@),
            final(self)@ == old(self)@.after_insert(body@),
            final(self)@.wf(),
    {
        if !self.open {
            return Err(Self::closed_failure());
        }
        if self.last_id == i64::MAX {
            return Err(
                StoreError::Other(
                    String::from_str(
                        "error returned from database: (code: 13) database or disk is full",
                    ),
                ),
            );
        }
        let id = self.last_id + 1;
        let todo = Todo::new(id, String::from_str(body), false, self.clock, self.clock);
        let copy = todo.clone();
        let ghost before = self@;
        self.last_id = id;
        self.rows.push(todo);
        assert(self@.rows =~= before.rows.push(before.inserted(body@)));
        Ok(copy)
    }

    /// Replaces text and completion of the row with this identifier and hands the row out.
    pub fn update(&mut self, id: i64, body: &str, completed: bool) -> (outcome: Result<
        Todo,
        StoreError,
    >)
        requires
            old(self)@.wf(),
        ensures
            row_view(outcome) == old(self)@.update(id, body@, completed),
            final(self)@ == old(self)@.after_update(id, body@, completed),
            final(self)@.wf(),
    {
        if !self.open {
            return Err(Self::closed_failure());
        }
        match self.position(id) {
            Some(i) => {
                let ghost before = self@;
                let todo = Todo::new(
                    id,
                    String::from_str(body),
                    completed,
                    self.rows[i].created_at(),
                    self.clock,
                );
                let copy = todo.clone();
                self.rows.set(i, todo);
                assert(self@.rows =~= before.rows.update(
                    i as int,
                    before.updated(id, body@, completed),
                ));
                Ok(copy)
            },
            None => Err(StoreError::RowNotFound),
        }
    }

    /// Deletes the row with this identifier, if there is one.
    pub fn delete(&mut self, id: i64) -> (outcome: Result<(), StoreError>)
        requires
            old(self)@.wf(),
        ensures
            plain_view(outcome) == old(self)@.delete(id),
            final(self)@ == old(self)@.after_delete(id),
            final(self)@.wf(),
    {
        if !self.open {
            return Err(Self::closed_failure());
        }
        match self.position(id) {
            Some(i) => {
                let ghost before = self@;
                self.rows.remove(i);
                assert(self@.rows =~= before.rows.remove(i as int));
            },
            None => {},
        }
        Ok(())
    }
}

} // verus!
