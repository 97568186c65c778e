//! A todo-list service: its records, the responses it gives, and the
//! decisions it takes between database calls.

pub mod api;
pub mod handler;
pub mod models;
pub mod schemas;
pub mod services;
pub mod timestamp;

use vstd::prelude::*;

verus! {

/// A JSON answer that carries one message.
#[derive(Debug)]
pub struct Response {
    pub message: String,
}

/// The answer of `GET /health`.
pub fn healthcheck() -> (r: Response)
    ensures
        r.message@ == "Everything is working fine"@,
{
    Response { message: String::from_str("Everything is working fine") }
}

/// The answer to a request that no route matches (sent with status 404).
pub fn not_found() -> (r: Response)
    ensures
        r.message@ == "Resource not found"@,
{
    Response { message: String::from_str("Resource not found") }
}

} // verus!
