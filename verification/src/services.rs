//! The HTTP endpoints, each written as a state machine.
//!
//! An endpoint starts from the request and names its first action. The code
//! that runs it performs the action and hands back the outcome as an
//! [`Event`](crate::http::Event); `step` then gives the next state and action,
//! until the action is `Respond`. A state accepts only the event that answers
//! the action it asked for, with rows that can be read without aborting.
pub mod delete;
pub mod get;
pub mod post;
pub mod put;

use vstd::prelude::*;

verus! {

/// A user's name and password, as a client sends them.
#[derive(Debug, PartialEq)]
pub struct Credentials {
    pub name: String,
    pub password: String,
}

/// `password` is what the `password` cookie gives: its value, or the empty
/// string where there is none.
pub open spec fn password_from(cookie: Option<String>, password: String) -> bool {
    match cookie {
        Some(p) => password == p,
        None => password@ == Seq::<char>::empty(),
    }
}

} // verus!
