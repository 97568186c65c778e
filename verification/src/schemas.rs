//! The request bodies and query strings the service accepts.

use crate::timestamp::Timestamp;
use vstd::prelude::*;

verus! {

/// The query string of a list request: a 1-based page number and a page size.
#[derive(Debug)]
pub struct FilterOptions {
    pub page: Option<usize>,
    pub limit: Option<usize>,
}

/// The body of a create request; whatever is left out takes its default.
#[derive(Debug)]
pub struct CreateTodoSchema {
    pub title: Option<String>,
    pub contents: Option<String>,
    pub created_at: Option<Timestamp>,
    pub updated_at: Option<Timestamp>,
    pub is_completed: Option<String>,
    pub is_deleted: Option<String>,
}

/// The body of an edit request; whatever is left out keeps its stored value.
#[derive(Debug)]
pub struct UpdateTodoSchema {
    pub title: Option<String>,
    pub contents: Option<String>,
    pub is_completed: Option<String>,
    pub is_deleted: Option<String>,
}

} // verus!
