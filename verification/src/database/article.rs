//! The SQL of the queries on the `articles` table.
use vstd::prelude::*;

verus! {

/// Adds an article and gives back its id.
pub const CREATE: &'static str = "INSERT INTO articles (title, body, creator) VALUES (?, ?, ?) RETURNING id";

/// Removes an article.
pub const DELETE: &'static str = "DELETE FROM articles WHERE id = ?";

/// Changes an article's title and body.
pub const UPDATE: &'static str = "UPDATE articles SET title = ?, body = ? WHERE id = ?";

/// An article's title, body and creator.
pub const GET: &'static str = "SELECT title, body, creator FROM articles WHERE id = ?";

/// The id and title of each article of one creator.
pub const FIND_BY_CREATOR: &'static str = "SELECT id, title FROM articles WHERE creator = ?";

/// The id and title of every article.
pub const LIST: &'static str = "SELECT id, title FROM articles";

} // verus!
