use crate::model::{
    created_todo, is_normalized, new_todo, todo_from_row, todo_of_row, CreateTodo, Todo, TodoRow,
    UpdateTodo,
};
use crate::model::{TodoRowView, TodoView};
use crate::statement::{id_params, insert_params, strings_view, update_params, update_statement};
use crate::update::{opt_todo_view, update_outcome};
use r2d2::{Pool, PooledConnection};
use r2d2_sqlite::SqliteConnectionManager;
use vstd::prelude::*;

verus! {

#[verifier::external_type_specification]
#[verifier::external_body]
pub struct ExSqliteConnectionManager(SqliteConnectionManager);

#[verifier::external_type_specification]
#[verifier::external_body]
pub struct ExPoolError(r2d2::Error);

#[verifier::external_type_specification]
#[verifier::external_body]
pub struct ExSqlError(rusqlite::Error);

/// A pool of connections to the store's data file.
///
/// It holds an `r2d2::Pool`, whose `ManageConnection` bound keeps Verus from
/// declaring the type itself; the struct is opaque instead.
#[verifier::external_body]
pub struct DbPool {
    pool: Pool<SqliteConnectionManager>,
}

/// A connection checked out of the pool; it goes back when dropped.
#[verifier::external_body]
pub struct DbConnection {
    conn: PooledConnection<SqliteConnectionManager>,
}

/// The data file that `create_pool` opens.
pub const DATABASE_FILE: &'static str = "todos.db";

/// Creates the table when it does not exist yet.
pub const SCHEMA_SQL: &'static str = "CREATE TABLE IF NOT EXISTS todos (
            id TEXT PRIMARY KEY,
            title TEXT NOT NULL,
            description TEXT,
            completed BOOLEAN NOT NULL DEFAULT 0,
            created_at TEXT NOT NULL
        )";

pub const INSERT_SQL: &'static str = "INSERT INTO todos (id, title, description, completed, created_at) VALUES (?1, ?2, ?3, ?4, ?5)";

pub const SELECT_ALL_SQL: &'static str = "SELECT id, title, description, completed, created_at FROM todos ORDER BY created_at COLLATE BINARY DESC";

pub const SELECT_ONE_SQL: &'static str = "SELECT id, title, description, completed, created_at FROM todos WHERE id = ?1 COLLATE BINARY";

pub const DELETE_SQL: &'static str = "DELETE FROM todos WHERE id = ?1 COLLATE BINARY";

/// A failure of the store: the pool could not hand out a connection, or the
/// database refused a statement.
#[derive(Debug)]
pub enum StorageError {
    Pool(r2d2::Error),
    Sql(rusqlite::Error),
}

/// Relies on `r2d2_sqlite::SqliteConnectionManager::file`: a manager for the
/// data file at `path`; nothing is opened yet.
#[verifier::external_body]
fn file_manager(path: &str) -> SqliteConnectionManager {
    SqliteConnectionManager::file(path)
}

/// Relies on `r2d2::Pool::new`: builds a pool with the default settings,
/// which opens its first connections.
#[verifier::external_body]
fn new_pool(manager: SqliteConnectionManager) -> Result<DbPool, r2d2::Error> {
    Pool::new(manager).map(|pool| DbPool { pool })
}

/// Relies on `r2d2::Pool::get`: checks a connection out of the pool, waiting
/// up to the pool's timeout.
#[verifier::external_body]
fn checkout(pool: &DbPool) -> Result<DbConnection, r2d2::Error> {
    pool.pool.get().map(|conn| DbConnection { conn })
}

/// Relies on `rusqlite::Connection::execute`: runs one statement with the
/// values bound to its placeholders in order, and returns the number of rows
/// it changed.
#[verifier::external_body]
fn execute(conn: &DbConnection, sql: &str, params: &Vec<String>) -> Result<usize, rusqlite::Error> {
    conn.conn.execute(sql, rusqlite::params_from_iter(params.iter()))
}

/// Descending-or-equal order of texts by the characters' code points, a
/// prefix first. On ASCII texts this is SQLite's BINARY collation (`memcmp`
/// of the stored bytes), whatever the encoding of the data file.
pub open spec fn text_at_least(a: Seq<char>, b: Seq<char>) -> bool
    decreases a.len(),
{
    if b.len() == 0 {
        true
    } else if a.len() == 0 {
        false
    } else if a[0] != b[0] {
        (a[0] as u32) > (b[0] as u32)
    } else {
        text_at_least(a.drop_first(), b.drop_first())
    }
}

/// A text made of ASCII characters only.
pub open spec fn is_ascii_text(s: Seq<char>) -> bool {
    forall|i: int| 0 <= i < s.len() ==> (#[trigger] s[i] as u32) < 128
}

/// Every row's `created_at` is ASCII text.
pub open spec fn ascii_created(rows: Seq<TodoRowView>) -> bool {
    forall|i: int| 0 <= i < rows.len() ==> is_ascii_text(#[trigger] rows[i].created_at)
}

/// Rows ordered by `created_at` descending.
pub open spec fn newest_first(rows: Seq<TodoRowView>) -> bool {
    forall|i: int, j: int|
        0 <= i < j < rows.len() ==> text_at_least(#[trigger] rows[i].created_at, #[trigger] rows[j].created_at)
}

/// Relies on `rusqlite::Connection::prepare`, `Statement::query_map` and
/// `Row::get`: runs a query with the values bound in order, and reads the
/// five columns of each row that it yields, in the order it yields them.
/// Of the two queries of this module it relies on what SQLite documents:
/// an explicit `COLLATE BINARY` overrides the column's own collation and
/// compares the stored bytes with `memcmp`. So `ORDER BY created_at COLLATE
/// BINARY DESC` yields rows whose `created_at` texts are all ASCII in
/// descending code-point order (ASCII bytes order alike in every encoding),
/// and `WHERE id = ?1 COLLATE BINARY` yields only rows whose id has the same
/// bytes as the bound text, that is, the same text. A row whose columns are
/// not TEXT makes `Row::get` fail, and the whole query with it.
#[verifier::external_body]
fn query_rows(conn: &DbConnection, sql: &str, params: &Vec<String>) -> (r: Result<Vec<TodoRow>, rusqlite::Error>)
    ensures
        sql@ == SELECT_ALL_SQL@ ==> (r matches Ok(rows) ==> (ascii_created(rows_view(rows@))
            ==> newest_first(rows_view(rows@)))),
        sql@ == SELECT_ONE_SQL@ && params@.len() == 1 ==> (r matches Ok(rows) ==> forall|i: int|
            0 <= i < rows@.len() ==> #[trigger] rows@[i].id@ == params@[0]@),
{
    let mut stmt = conn.conn.prepare(sql)?;
    let rows = stmt.query_map(rusqlite::params_from_iter(params.iter()), |row| {
        Ok(TodoRow {
            id: row.get(0)?,
            title: row.get(1)?,
            description: row.get(2)?,
            completed: row.get(3)?,
            created_at: row.get(4)?,
        })
    })?;
    let collected = rows.collect();
    collected
}

/// The hyphenated text form of a UUID: 36 characters, with `-` at 8, 13, 18 and 23.
pub open spec fn is_hyphenated_uuid(s: Seq<char>) -> bool {
    &&& s.len() == 36
    &&& s[8] == '-'
    &&& s[13] == '-'
    &&& s[18] == '-'
    &&& s[23] == '-'
}

/// An RFC 3339 timestamp in UTC as chrono writes it: at least
/// `YYYY-MM-DDTHH:MM:SS+00:00`, ending in the offset `+00:00`.
pub open spec fn is_utc_timestamp(s: Seq<char>) -> bool {
    &&& s.len() >= 25
    &&& s.subrange(s.len() - 6, s.len() as int) == "+00:00"@
}

/// Relies on `uuid::Uuid::new_v4` and its `Display` form, the hyphenated one
/// (`uuid::fmt::Hyphenated::LENGTH` is 36).
#[verifier::external_body]
fn new_id() -> (r: String)
    ensures
        is_hyphenated_uuid(r@),
{
    uuid::Uuid::new_v4().to_string()
}

/// Relies on `chrono::Utc::now` and `DateTime::to_rfc3339`: the current time
/// as RFC 3339 text, whose offset for UTC is written `+00:00` (chrono's
/// `write_rfc3339` with `use_z` false); the date and time before it take at
/// least 19 characters.
#[verifier::external_body]
fn now_rfc3339() -> (r: String)
    ensures
        is_utc_timestamp(r@),
{
    chrono::Utc::now().to_rfc3339()
}

/// The records that the rows stand for, in the order of the rows.
pub fn todos_from_rows(rows: &Vec<TodoRow>) -> (r: Vec<Todo>)
    ensures
        r@.len() == rows@.len(),
        forall|i: int| 0 <= i < rows@.len() ==> #[trigger] r@[i]@ == todo_of_row(rows@[i]@),
{
    let mut r: Vec<Todo> = Vec::new();
    let mut i: usize = 0;
    while i < rows.len()
        invariant
            i <= rows@.len(),
            r@.len() == i,
            forall|k: int| 0 <= k < i ==> #[trigger] r@[k]@ == todo_of_row(rows@[k]@),
        decreases rows@.len() - i,
    {
        r.push(todo_from_row(&rows[i]));
        i = i + 1;
    }
    r
}

/// The record that the first row stands for, if there is a row.
pub fn first_todo(rows: &Vec<TodoRow>) -> (r: Option<Todo>)
    ensures
        rows@.len() == 0 ==> r is None,
        rows@.len() > 0 ==> (r matches Some(t) && t@ == todo_of_row(rows@[0]@)),
{
    if rows.len() == 0 {
        None
    } else {
        Some(todo_from_row(&rows[0]))
    }
}

/// Whether a statement that changed the given number of rows removed a record.
pub open spec fn removed_from(rows_affected: usize) -> bool {
    rows_affected > 0
}

/// Whether a delete removed a record, from the number of rows it changed.
pub fn removed_any(rows_affected: usize) -> (r: bool)
    ensures
        r == removed_from(rows_affected),
{
    rows_affected > 0
}

pub open spec fn rows_view(rows: Seq<TodoRow>) -> Seq<TodoRowView> {
    rows.map_values(|r: TodoRow| r@)
}

/// The record that the first row of a query stands for, if there is a row.
pub open spec fn first_record(rows: Seq<TodoRowView>) -> Option<TodoView> {
    if rows.len() == 0 {
        None
    } else {
        Some(todo_of_row(rows[0]))
    }
}

/// The answer to a lookup by id, from what the query returned.
pub fn lookup_outcome(r: Result<Vec<TodoRow>, rusqlite::Error>) -> (out: Result<Option<Todo>, StorageError>)
    ensures
        r matches Ok(rows) ==> (out matches Ok(o) && opt_todo_view(o) == first_record(rows_view(rows@))),
        r matches Err(e) ==> (out matches Err(StorageError::Sql(e2)) && e2 == e),
        out matches Ok(Some(t)) ==> is_normalized(t@),
{
    match r {
        Ok(rows) => Ok(first_todo(&rows)),
        Err(e) => Err(StorageError::Sql(e)),
    }
}

/// The answer to a listing, from what the query returned: one record per
/// row, in the order of the rows.
pub fn listing_outcome(r: Result<Vec<TodoRow>, rusqlite::Error>) -> (out: Result<Vec<Todo>, StorageError>)
    ensures
        r matches Ok(rows) ==> (out matches Ok(v) && v@.len() == rows@.len() && forall|i: int|
            0 <= i < rows@.len() ==> #[trigger] v@[i]@ == todo_of_row(rows@[i]@)),
        r matches Err(e) ==> (out matches Err(StorageError::Sql(e2)) && e2 == e),
{
    match r {
        Ok(rows) => Ok(todos_from_rows(&rows)),
        Err(e) => Err(StorageError::Sql(e)),
    }
}

/// The answer to a delete, from the number of rows the statement changed:
/// whether a record was removed.
pub fn delete_outcome(r: Result<usize, rusqlite::Error>) -> (out: Result<bool, StorageError>)
    ensures
        r matches Ok(n) ==> (out matches Ok(b) && b == removed_from(n)),
        r matches Err(e) ==> (out matches Err(StorageError::Sql(e2)) && e2 == e),
{
    match r {
        Ok(n) => Ok(removed_any(n)),
        Err(e) => Err(StorageError::Sql(e)),
    }
}

/// The answer to a create, from what the insert returned: the new record when
/// the row was stored, the store's error otherwise.
pub fn insert_outcome(r: Result<usize, rusqlite::Error>, todo: Todo) -> (out: Result<Todo, StorageError>)
    ensures
        r is Ok ==> (out matches Ok(t) && t == todo),
        r matches Err(e) ==> (out matches Err(StorageError::Sql(e2)) && e2 == e),
{
    match r {
        Ok(_) => Ok(todo),
        Err(e) => Err(StorageError::Sql(e)),
    }
}

/// Opens a pool on the data file at `path` and creates the table if it is
/// not there yet.
pub fn open_pool(path: &str) -> (r: Result<DbPool, StorageError>) {
    let pool = match new_pool(file_manager(path)) {
        Ok(p) => p,
        Err(e) => return Err(StorageError::Pool(e)),
    };
    let conn = match checkout(&pool) {
        Ok(c) => c,
        Err(e) => return Err(StorageError::Pool(e)),
    };
    match execute(&conn, SCHEMA_SQL, &Vec::new()) {
        Ok(_) => {},
        Err(e) => return Err(StorageError::Sql(e)),
    }
    Ok(pool)
}

/// Opens the pool on the service's data file, `todos.db`.
pub fn create_pool() -> (r: Result<DbPool, StorageError>) {
    open_pool(DATABASE_FILE)
}

/// Reads the record with the given id on an open connection.
fn fetch_todo(conn: &DbConnection, id: &str) -> (r: Result<Option<Todo>, StorageError>)
    ensures
        r matches Ok(Some(t)) ==> is_normalized(t@) && t.id@ == id@,
{
    let params = id_params(id);
    let rows = query_rows(conn, SELECT_ONE_SQL, &params);
    proof {
        assert(strings_view(params@).len() == 1);
        assert(params@.len() == 1);
        assert(strings_view(params@)[0] == params@[0]@);
        assert(params@[0]@ == id@);
    }
    let ghost found = rows;
    let out = lookup_outcome(rows);
    proof {
        if let Ok(rs) = found {
            if rs@.len() > 0 {
                assert(rows_view(rs@)[0] == rs@[0]@);
                assert(rs@[0].id@ == params@[0]@);
            }
        }
    }
    out
}

/// Stores a new record built from the request, with a fresh 36-character id,
/// the current time and `completed` false, and returns it. A failure to get
/// a connection or to insert the row (an id already taken, say) is an error.
pub fn create_todo(pool: &DbPool, request: CreateTodo) -> (r: Result<Todo, StorageError>)
    ensures
        r matches Ok(t) ==> (t@ == created_todo(t.id@, t.created_at@, request@) && is_hyphenated_uuid(t.id@)
            && is_utc_timestamp(t.created_at@)),
{
    let conn = match checkout(pool) {
        Ok(c) => c,
        Err(e) => return Err(StorageError::Pool(e)),
    };
    let todo = new_todo(new_id(), now_rfc3339(), request);
    insert_outcome(execute(&conn, INSERT_SQL, &insert_params(&todo)), todo)
}

/// Lists every record, most recently created first.
pub fn get_todos(pool: &DbPool) -> (r: Result<Vec<Todo>, StorageError>)
    ensures
        r matches Ok(v) ==> forall|i: int| 0 <= i < v@.len() ==> is_normalized(#[trigger] v@[i]@),
        r matches Ok(v) ==> ((forall|i: int| 0 <= i < v@.len() ==> is_ascii_text(#[trigger] v@[i].created_at@))
            ==> forall|i: int, j: int|
            0 <= i < j < v@.len() ==> text_at_least(#[trigger] v@[i].created_at@, #[trigger] v@[j].created_at@)),
{
    let conn = match checkout(pool) {
        Ok(c) => c,
        Err(e) => return Err(StorageError::Pool(e)),
    };
    let rows = query_rows(&conn, SELECT_ALL_SQL, &Vec::new());
    let ghost found = rows;
    let out = listing_outcome(rows);
    let ghost listed = out;
    proof {
        if let Ok(rs) = found {
            if let Ok(v) = listed {
                if forall|i: int| 0 <= i < v@.len() ==> is_ascii_text(#[trigger] v@[i].created_at@) {
                    assert forall|i: int| 0 <= i < rows_view(rs@).len() implies is_ascii_text(
                        #[trigger] rows_view(rs@)[i].created_at,
                    ) by {
                        assert(v@[i]@ == todo_of_row(rs@[i]@));
                        assert(is_ascii_text(v@[i].created_at@));
                    }
                }
                assert forall|i: int, j: int|
                    0 <= i < j < v@.len() && (forall|k: int|
                        0 <= k < v@.len() ==> is_ascii_text(#[trigger] v@[k].created_at@)) implies
                    text_at_least(#[trigger] v@[i].created_at@, #[trigger] v@[j].created_at@) by {
                    assert(v@[i]@ == todo_of_row(rs@[i]@));
                    assert(v@[j]@ == todo_of_row(rs@[j]@));
                    assert(rows_view(rs@)[i] == rs@[i]@);
                    assert(rows_view(rs@)[j] == rs@[j]@);
                }
            }
        }
    }
    out
}

/// Fetches the record with the given id: `Ok(None)` when there is none.
pub fn get_todo(pool: &DbPool, id: &str) -> (r: Result<Option<Todo>, StorageError>)
    ensures
        r matches Ok(Some(t)) ==> is_normalized(t@) && t.id@ == id@,
{
    let conn = match checkout(pool) {
        Ok(c) => c,
        Err(e) => return Err(StorageError::Pool(e)),
    };
    fetch_todo(&conn, id)
}

/// Applies the supplied fields of `update` to the record with the given id.
/// `Ok(None)` when there is no such record, and nothing is written then;
/// with no field supplied the record is returned as it is, and nothing is
/// written either. Otherwise one update statement sets exactly the supplied
/// columns, and the record is read back.
pub fn update_todo(pool: &DbPool, id: &str, update: UpdateTodo) -> (r: Result<Option<Todo>, StorageError>)
    ensures
        r matches Ok(Some(t)) ==> is_normalized(t@) && t.id@ == id@,
{
    let conn = match checkout(pool) {
        Ok(c) => c,
        Err(e) => return Err(StorageError::Pool(e)),
    };
    let existing = match fetch_todo(&conn, id) {
        Ok(found) => found,
        Err(e) => return Err(e),
    };
    match update_outcome(existing, &update) {
        Ok(answer) => Ok(answer),
        Err(assignments) => {
            let sql = update_statement(&assignments);
            let params = update_params(&assignments, id);
            match execute(&conn, sql.as_str(), &params) {
                Ok(_) => fetch_todo(&conn, id),
                Err(e) => Err(StorageError::Sql(e)),
            }
        },
    }
}

/// Removes the record with the given id: `Ok(true)` when a record was
/// removed, `Ok(false)` when there was none.
pub fn delete_todo(pool: &DbPool, id: &str) -> (r: Result<bool, StorageError>) {
    let conn = match checkout(pool) {
        Ok(c) => c,
        Err(e) => return Err(StorageError::Pool(e)),
    };
    delete_outcome(execute(&conn, DELETE_SQL, &id_params(id)))
}

} // verus!
