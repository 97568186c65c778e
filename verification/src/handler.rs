//! The first version of the todo endpoints, which expected every column of a
//! stored todo to be filled.

use crate::models::model::{TodoModel, TodoModelResponse};
use crate::models::todo::{text_or_default, text_or_empty};
use crate::schemas::CreateTodoSchema;
use vstd::prelude::*;

verus! {

/// The health message of the first version.
pub fn health_message() -> (m: String)
    ensures
        m@ == "Rust, SQLX, MySQL, Actix Web"@,
{
    String::from_str("Rust, SQLX, MySQL, Actix Web")
}

/// Every column of the record is filled.
pub open spec fn is_complete_record(t: TodoModel) -> bool {
    &&& t.title is Some
    &&& t.contents is Some
    &&& t.created_at is Some
    &&& t.updated_at is Some
    &&& t.is_completed is Some
    &&& t.is_deleted is Some
}

/// `r` is the response form of the complete record `t`.
pub open spec fn is_response_of(t: TodoModel, r: TodoModelResponse) -> bool {
    &&& r.id == t.id
    &&& r.title@ == t.title->0@
    &&& r.contents@ == t.contents->0@
    &&& r.created_at == t.created_at->0
    &&& r.updated_at == t.updated_at->0
    &&& r.is_completed@ == t.is_completed->0@
    &&& r.is_deleted@ == t.is_deleted->0@
}

/// What the first version's response form keeps of a complete record: the
/// id, both instants and each text column, each from its own column.
pub proof fn lemma_response_keeps_columns(t: TodoModel, r: TodoModelResponse)
    requires
        is_complete_record(t),
        is_response_of(t, r),
    ensures
        r.id == t.id,
        t.created_at == Some(r.created_at),
        t.updated_at == Some(r.updated_at),
        t.title matches Some(s) && r.title@ == s@,
        t.contents matches Some(s) && r.contents@ == s@,
        t.is_completed matches Some(s) && r.is_completed@ == s@,
        t.is_deleted matches Some(s) && r.is_deleted@ == s@,
{
}

/// The response form of a complete record.
pub fn filter_db_record(todo: &TodoModel) -> (r: TodoModelResponse)
    requires
        is_complete_record(*todo),
    ensures
        is_response_of(*todo, r),
{
    TodoModelResponse {
        id: todo.id,
        title: text_or_default(&todo.title),
        contents: text_or_default(&todo.contents),
        created_at: todo.created_at.unwrap(),
        updated_at: todo.updated_at.unwrap(),
        is_completed: text_or_default(&todo.is_completed),
        is_deleted: text_or_default(&todo.is_deleted),
    }
}

/// The response forms of the rows a list query returned, in order.
pub fn filter_db_records(todos: &Vec<TodoModel>) -> (out: Vec<TodoModelResponse>)
    requires
        forall|i: int| 0 <= i < todos.len() ==> is_complete_record(#[trigger] todos[i]),
    ensures
        out.len() == todos.len(),
        forall|i: int| 0 <= i < todos.len() ==> is_response_of(#[trigger] todos[i], out[i]),
{
    let mut out: Vec<TodoModelResponse> = Vec::new();
    let n = todos.len();
    for i in 0..n
        invariant
            n == todos.len(),
            out.len() == i,
            forall|k: int| 0 <= k < todos.len() ==> is_complete_record(#[trigger] todos[k]),
            forall|j: int| 0 <= j < i ==> is_response_of(#[trigger] todos[j], out[j]),
    {
        out.push(filter_db_record(&todos[i]));
    }
    out
}

/// The first version's answer to a list request:
/// `{"status": "success", "results": .., "todos": [..]}` with status code 200.
#[derive(Debug)]
pub struct TodoListAnswer {
    pub code: u16,
    pub results: usize,
    pub todos: Vec<TodoModelResponse>,
}

/// The first version's answer to a list request, given the rows the query
/// returned: 200, the number of rows, and each row's response form in order.
pub fn todo_list_response(todos: Vec<TodoModel>) -> (r: TodoListAnswer)
    requires
        forall|i: int| 0 <= i < todos.len() ==> is_complete_record(#[trigger] todos[i]),
    ensures
        r.code == 200,
        r.results == todos.len(),
        r.todos.len() == todos.len(),
        forall|i: int| 0 <= i < todos.len() ==> is_response_of(#[trigger] todos[i], r.todos[i]),
{
    let out = filter_db_records(&todos);
    let results = out.len();
    TodoListAnswer { code: 200, results, todos: out }
}

/// The columns the first version inserted for a create request: text left
/// out is empty.
#[derive(Debug)]
pub struct InsertRow {
    pub title: String,
    pub contents: String,
    pub is_completed: String,
    pub is_deleted: String,
}

/// The row the first version inserted for a create request.
pub fn insert_params(body: &CreateTodoSchema) -> (row: InsertRow)
    ensures
        row.title@ == text_or_empty(body.title),
        row.contents@ == text_or_empty(body.contents),
        row.is_completed@ == text_or_empty(body.is_completed),
        row.is_deleted@ == text_or_empty(body.is_deleted),
{
    InsertRow {
        title: text_or_default(&body.title),
        contents: text_or_default(&body.contents),
        is_completed: text_or_default(&body.is_completed),
        is_deleted: text_or_default(&body.is_deleted),
    }
}

} // verus!
