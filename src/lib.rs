//! The request-serving layer of a full-text search server: routing of
//! (method, path) pairs, the search and stats handlers' decisions and JSON
//! bodies, the fixed replies, and the serving loop's state machine.

use vstd::prelude::*;

pub mod handlers;
pub mod json;
pub mod reply;
pub mod route;
pub mod server;

verus! {

} // verus!
