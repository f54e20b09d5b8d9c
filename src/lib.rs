//! Authentication core of a small bookstore catalog service: signed,
//! time-limited access tokens, the per-request guard that checks them, the
//! sign-in and sign-up decisions, and the uniform response envelope.
use vstd::prelude::*;

pub mod response;
pub mod token;
pub mod config;
pub mod auth;
pub mod account;
pub mod author;
pub mod book;

use crate::response::{Response, SuccessResponse, STATUS_OK};

verus! {

/// The greeting served at the root route.
pub fn index() -> (r: Response<String>)
    ensures
        r is Ok,
        r->Ok_0.status() == STATUS_OK,
        r->Ok_0.0.1@ == "Hello, World"@,
{
    let body = "Hello, World".to_string();
    proof {
        reveal_strlit("Hello, World");
    }
    Ok(SuccessResponse((STATUS_OK, body)))
}

} // verus!
