//! The record shapes of the first version of the service: notes, and todos
//! without a completion time.

use crate::timestamp::Timestamp;
use vstd::prelude::*;

verus! {

/// A row of the `notes` table.
#[derive(Debug)]
pub struct NoteModel {
    pub id: String,
    pub title: String,
    pub content: String,
    pub category: Option<String>,
    pub published: i8,
    pub created_at: Option<Timestamp>,
    pub updated_at: Option<Timestamp>,
}

/// A note as the first version returned it.
#[derive(Debug)]
#[allow(non_snake_case)]
pub struct NoteModelResponse {
    pub id: String,
    pub title: String,
    pub content: String,
    pub category: String,
    pub published: bool,
    pub createdAt: Timestamp,
    pub updatedAt: Timestamp,
}

/// A row of the `todos` table as the first version read it.
#[derive(Debug)]
pub struct TodoModel {
    pub id: u64,
    pub title: Option<String>,
    pub contents: Option<String>,
    pub created_at: Option<Timestamp>,
    pub updated_at: Option<Timestamp>,
    pub is_completed: Option<String>,
    pub is_deleted: Option<String>,
}

/// A todo as the first version returned it: every column present.
#[derive(Debug)]
pub struct TodoModelResponse {
    pub id: u64,
    pub title: String,
    pub contents: String,
    pub created_at: Timestamp,
    pub updated_at: Timestamp,
    pub is_completed: String,
    pub is_deleted: String,
}

} // verus!
