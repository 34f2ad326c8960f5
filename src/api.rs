use crate::database::{removed_from, StorageError};
use crate::model::Todo;
use vstd::prelude::*;
use vstd::string::StringExecFns;

verus! {

pub const STATUS_OK: u16 = 200;

pub const STATUS_CREATED: u16 = 201;

pub const STATUS_NOT_FOUND: u16 = 404;

pub const STATUS_INTERNAL_ERROR: u16 = 500;

/// An error answer: its HTTP status and the text of the body's `error` field.
#[derive(Debug, Clone)]
pub struct ErrorReply {
    pub status: u16,
    pub message: String,
}

/// An answer is the given error.
pub open spec fn is_error_reply<T>(out: Result<T, ErrorReply>, status: u16, message: Seq<char>) -> bool {
    out matches Err(e) && e.status == status && e.message@ == message
}

/// An answer is a success with the given status and body.
pub open spec fn is_success_reply<T>(out: Result<(u16, T), ErrorReply>, status: u16, body: T) -> bool {
    out matches Ok((s, b)) && s == status && b == body
}

fn error_reply(status: u16, message: &str) -> (e: ErrorReply)
    ensures
        e.status == status,
        e.message@ == message@,
{
    ErrorReply { status, message: String::from_str(message) }
}

/// The answer to a list request: 200 with the records, or 500.
pub fn get_todos_reply(r: Result<Vec<Todo>, StorageError>) -> (out: Result<(u16, Vec<Todo>), ErrorReply>)
    ensures
        r matches Ok(v) ==> is_success_reply(out, STATUS_OK, v),
        r is Err ==> is_error_reply(out, STATUS_INTERNAL_ERROR, "Failed to get todos"@),
{
    match r {
        Ok(v) => Ok((STATUS_OK, v)),
        Err(_) => Err(error_reply(STATUS_INTERNAL_ERROR, "Failed to get todos")),
    }
}

/// The answer to a create request: 201 with the new record, or 500.
pub fn create_todo_reply(r: Result<Todo, StorageError>) -> (out: Result<(u16, Todo), ErrorReply>)
    ensures
        r matches Ok(t) ==> is_success_reply(out, STATUS_CREATED, t),
        r is Err ==> is_error_reply(out, STATUS_INTERNAL_ERROR, "Failed to create todo"@),
{
    match r {
        Ok(t) => Ok((STATUS_CREATED, t)),
        Err(_) => Err(error_reply(STATUS_INTERNAL_ERROR, "Failed to create todo")),
    }
}

/// The answer to a fetch: 200 with the record, 404 when there is none, or 500.
pub fn get_todo_reply(r: Result<Option<Todo>, StorageError>) -> (out: Result<(u16, Todo), ErrorReply>)
    ensures
        r matches Ok(Some(t)) ==> is_success_reply(out, STATUS_OK, t),
        r matches Ok(None) ==> is_error_reply(out, STATUS_NOT_FOUND, "Todo not found"@),
        r is Err ==> is_error_reply(out, STATUS_INTERNAL_ERROR, "Failed to get todo"@),
{
    match r {
        Ok(Some(t)) => Ok((STATUS_OK, t)),
        Ok(None) => Err(error_reply(STATUS_NOT_FOUND, "Todo not found")),
        Err(_) => Err(error_reply(STATUS_INTERNAL_ERROR, "Failed to get todo")),
    }
}

/// The answer to an update: 200 with the record, 404 when there is none, or 500.
pub fn update_todo_reply(r: Result<Option<Todo>, StorageError>) -> (out: Result<(u16, Todo), ErrorReply>)
    ensures
        r matches Ok(Some(t)) ==> is_success_reply(out, STATUS_OK, t),
        r matches Ok(None) ==> is_error_reply(out, STATUS_NOT_FOUND, "Todo not found"@),
        r is Err ==> is_error_reply(out, STATUS_INTERNAL_ERROR, "Failed to update todo"@),
{
    match r {
        Ok(Some(t)) => Ok((STATUS_OK, t)),
        Ok(None) => Err(error_reply(STATUS_NOT_FOUND, "Todo not found")),
        Err(_) => Err(error_reply(STATUS_INTERNAL_ERROR, "Failed to update todo")),
    }
}

/// The status of an answer.
pub open spec fn reply_status<T>(out: Result<(u16, T), ErrorReply>) -> u16 {
    match out {
        Ok((s, _)) => s,
        Err(e) => e.status,
    }
}

/// The status that a delete is answered with: 200 when a record was removed,
/// 404 when there was none, 500 when the store failed.
pub open spec fn delete_status(r: Result<bool, StorageError>) -> u16 {
    match r {
        Ok(true) => STATUS_OK,
        Ok(false) => STATUS_NOT_FOUND,
        Err(_) => STATUS_INTERNAL_ERROR,
    }
}

/// A delete that changes no row (the record was deleted before, or never
/// existed) reports that nothing was removed, and that is answered "not
/// found", not as a failure of the store.
pub proof fn lemma_delete_without_row_is_not_found(rows_affected: usize)
    requires
        rows_affected == 0,
    ensures
        removed_from(rows_affected) == false,
        delete_status(Ok(removed_from(rows_affected))) == STATUS_NOT_FOUND,
        delete_status(Ok(removed_from(rows_affected))) != STATUS_INTERNAL_ERROR,
{
}

/// The answer to a delete: 200 with a confirmation when a record was
/// removed, 404 when there was none, or 500.
pub fn delete_todo_reply(r: Result<bool, StorageError>) -> (out: Result<(u16, String), ErrorReply>)
    ensures
        r matches Ok(true) ==> (out matches Ok((s, m)) && s == STATUS_OK && m@ == "Todo deleted successfully"@),
        r matches Ok(false) ==> is_error_reply(out, STATUS_NOT_FOUND, "Todo not found"@),
        r is Err ==> is_error_reply(out, STATUS_INTERNAL_ERROR, "Failed to delete todo"@),
        reply_status(out) == delete_status(r),
{
    match r {
        Ok(true) => Ok((STATUS_OK, String::from_str("Todo deleted successfully"))),
        Ok(false) => Err(error_reply(STATUS_NOT_FOUND, "Todo not found")),
        Err(_) => Err(error_reply(STATUS_INTERNAL_ERROR, "Failed to delete todo")),
    }
}

} // verus!
