//! A small blogging service: users, their articles, and the decisions that the
//! HTTP endpoints take around each database round trip.
//!
//! The database itself and the HTTP server are driven from outside the
//! library: each endpoint is a state machine that says which statement to run
//! next and, once the outcome comes back, what to do with it.

pub mod cookie;
pub mod database;
pub mod http;
pub mod services;
