//! The API's data shapes and the handlers that fill them.

pub mod common;
pub mod courses;
pub mod session;
