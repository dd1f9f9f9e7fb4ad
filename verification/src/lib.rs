//! The backend of a small course portal: the shapes of its answers, the
//! handlers that fill them, and the JSON text in which they are sent.
//!
//! The handlers are plain functions without state. A server binds them to
//! paths, hands them what it parsed from the request and sends what
//! [`json::render`] makes of their result.

use vstd::prelude::*;

pub mod api;
pub mod json;

pub use api::common::Data;
pub use api::session::{Role, User};

use api::session::{get_session, session};

verus! {

/// Answers a request for the signed-in user's own profile. It is the answer of
/// the session endpoint.
pub fn me() -> (envelope: Data<User>)
    ensures
        envelope@ == session(),
{
    get_session()
}

/// The greeting of the first demo page.
pub fn index() -> (text: &'static str)
    ensures
        text@ == "Hello, world!"@,
{
    "Hello, world!"
}

/// The greeting of the second demo page.
pub fn index2() -> (text: &'static str)
    ensures
        text@ == "Hello, world 2!"@,
{
    "Hello, world 2!"
}

} // verus!
