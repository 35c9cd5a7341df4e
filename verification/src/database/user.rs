//! The SQL of the queries on the `users` table.
use crate::database::{DbError, Row};
use vstd::prelude::*;

verus! {

/// Adds a user and gives back its id.
pub const CREATE: &'static str = "INSERT INTO users (name, password) VALUES (?, ?) RETURNING id";

/// Removes a user.
pub const DELETE: &'static str = "DELETE FROM users WHERE id = ?";

/// Changes a user's name and password.
pub const UPDATE: &'static str = "UPDATE users SET name = ?, password = ? WHERE id = ?";

/// A user's name.
pub const GET: &'static str = "SELECT name FROM users WHERE id = ?";

/// Selects a constant row when the user's password matches.
pub const CHECK_BY_ID: &'static str = "SELECT 1 FROM users WHERE id = ? AND password = ?";

/// The id of the user with this name and password.
pub const FIND_BY_NAME: &'static str = "SELECT id FROM users WHERE name = ? AND password = ?";

/// What an update of a user comes to, from the first row that the update
/// statement gave: it counts as done only where a row came back.
pub open spec fn update_result(outcome: Result<Option<Row>, DbError>) -> Result<(), DbError> {
    match outcome {
        Ok(Some(_)) => Ok(()),
        Ok(None) => Err(DbError::QueryReturnedNoRows),
        Err(e) => Err(e),
    }
}

/// Reads the outcome of an update of a user.
pub fn updater(outcome: Result<Option<Row>, DbError>) -> (r: Result<(), DbError>)
    ensures
        r == update_result(outcome),
{
    match outcome {
        Ok(Some(_)) => Ok(()),
        Ok(None) => Err(DbError::QueryReturnedNoRows),
        Err(e) => Err(e),
    }
}

} // verus!
