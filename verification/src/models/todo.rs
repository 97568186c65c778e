//! The todo record as the database stores it, and as the service returns it.

pub mod datetime_tz_format;

use crate::timestamp::Timestamp;
use vstd::prelude::*;

verus! {

/// A row of the `todos` table; any column but `id` may be NULL.
#[derive(Debug)]
pub struct TodoModel {
    pub id: u64,
    pub title: Option<String>,
    pub contents: Option<String>,
    pub created_at: Option<Timestamp>,
    pub updated_at: Option<Timestamp>,
    pub completed_at: Option<Timestamp>,
    pub is_completed: Option<String>,
    pub is_deleted: Option<String>,
}

/// A todo as the service returns it: text columns that were NULL are empty;
/// instants stay optional and are written in Seoul time
/// (see `datetime_tz_format`).
#[derive(Debug)]
pub struct TodoModelResponse {
    pub id: u64,
    pub title: String,
    pub contents: String,
    pub created_at: Option<Timestamp>,
    pub updated_at: Option<Timestamp>,
    pub completed_at: Option<Timestamp>,
    pub is_completed: String,
    pub is_deleted: String,
}

/// The text of an optional string, empty where there is none.
pub open spec fn text_or_empty(o: Option<String>) -> Seq<char> {
    match o {
        Some(s) => s@,
        None => Seq::empty(),
    }
}

/// `r` is the response form of the record `t`.
pub open spec fn is_response_of(t: TodoModel, r: TodoModelResponse) -> bool {
    &&& r.id == t.id
    &&& r.title@ == text_or_empty(t.title)
    &&& r.contents@ == text_or_empty(t.contents)
    &&& r.created_at == t.created_at
    &&& r.updated_at == t.updated_at
    &&& r.completed_at == t.completed_at
    &&& r.is_completed@ == text_or_empty(t.is_completed)
    &&& r.is_deleted@ == text_or_empty(t.is_deleted)
}

/// What a response form keeps of its record: the id and the three instants
/// unchanged (a completion time stays as it was stored), and each text column
/// its own stored text, or empty text where the column is NULL; no column
/// takes another column's value.
pub proof fn lemma_response_keeps_columns(t: TodoModel, r: TodoModelResponse)
    requires
        is_response_of(t, r),
    ensures
        r.id == t.id,
        r.created_at == t.created_at,
        r.updated_at == t.updated_at,
        r.completed_at == t.completed_at,
        match t.title {
            Some(s) => r.title@ == s@,
            None => r.title@.len() == 0,
        },
        match t.contents {
            Some(s) => r.contents@ == s@,
            None => r.contents@.len() == 0,
        },
        match t.is_completed {
            Some(s) => r.is_completed@ == s@,
            None => r.is_completed@.len() == 0,
        },
        match t.is_deleted {
            Some(s) => r.is_deleted@ == s@,
            None => r.is_deleted@.len() == 0,
        },
{
}

/// A copy of an optional string's text, empty where there is none.
pub fn text_or_default(o: &Option<String>) -> (s: String)
    ensures
        s@ == text_or_empty(*o),
{
    match o {
        Some(s) => s.clone(),
        None => String::new(),
    }
}

} // verus!
