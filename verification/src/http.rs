//! The exchange between an endpoint and the code that runs it: the actions an
//! endpoint asks for, the events that answer them, and the HTTP response it
//! settles on.
use crate::database::{DbError, Row, Statement};
use crate::services::get::{Article, User};
use crate::services::post::{IdReply, ShowableArticle};
use vstd::prelude::*;

verus! {

/// The status line of a response.
#[derive(Debug, Clone, Copy, PartialEq, Eq, Structural)]
pub enum Status {
    /// 200
    Success,
    /// 201
    Created,
    /// 204
    NoContent,
    /// 401
    Unauthorized,
    /// 404
    NotFound,
    /// 500
    ServerError,
}

/// A `password` cookie to set on the client, always HTTP-only.
#[derive(Debug, PartialEq)]
pub struct PasswordCookie {
    pub value: String,
    /// Whether the cookie is scoped to the whole site (path `/`); otherwise it
    /// carries no path.
    pub site_wide: bool,
}

/// The JSON body of a response.
#[derive(Debug, PartialEq)]
pub enum Body {
    Empty,
    Id(IdReply),
    User(User),
    Article(Article),
    Articles(Vec<ShowableArticle>),
}

/// An HTTP response.
#[derive(Debug, PartialEq)]
pub struct Response {
    pub status: Status,
    pub cookie: Option<PasswordCookie>,
    pub body: Body,
}

/// A response with this status, no cookie and no body.
pub open spec fn bare(status: Status) -> Response {
    Response { status, cookie: None, body: Body::Empty }
}

/// Builds a response with this status, no cookie and no body.
pub fn bare_response(status: Status) -> (r: Response)
    ensures
        r == bare(status),
{
    Response { status, cookie: None, body: Body::Empty }
}

/// What an endpoint asks for next.
#[derive(Debug, PartialEq)]
pub enum Action {
    /// Run the query and read its first row; answered by `Event::FirstRow`.
    FetchFirst(Statement),
    /// Execute the statement; answered by `Event::Executed`.
    Execute(Statement),
    /// Run the query and keep its rows to be read one by one; answered by
    /// `Event::Opened`.
    Open(Statement),
    /// Read the next row of the open query; answered by `Event::NextRow`.
    Next,
    /// Send this response; the exchange is over.
    Respond(Response),
}

/// The outcome of the last action.
#[derive(Debug, PartialEq)]
pub enum Event {
    /// The first row of a query, `None` where it gave no row, or the failure
    /// of running it or of reading its first row.
    FirstRow(Result<Option<Row>, DbError>),
    /// The number of rows a statement changed, or its failure.
    Executed(Result<u64, DbError>),
    /// Whether the query could be run.
    Opened(Result<(), DbError>),
    /// The next row of the open query, `None` where there is none left, or the
    /// failure of reading it.
    NextRow(Result<Option<Row>, DbError>),
}

impl Action {
    /// The action runs a statement that changes what the database holds.
    pub open spec fn writes(&self) -> bool {
        match self {
            Action::FetchFirst(s) => s.is_write(),
            Action::Execute(s) => s.is_write(),
            Action::Open(s) => s.is_write(),
            _ => false,
        }
    }
}

/// `e` is an outcome of performing `a`: the first row of a fetched query, the
/// result of an execution, the opening of a query, or its next row.
pub open spec fn answers(a: Action, e: Event) -> bool {
    match a {
        Action::FetchFirst(_) => e is FirstRow,
        Action::Execute(_) => e is Executed,
        Action::Open(_) => e is Opened,
        Action::Next => e is NextRow,
        Action::Respond(_) => false,
    }
}

/// The row that an outcome carries, where it carries one.
pub open spec fn row_of(e: Event) -> Option<Row> {
    match e {
        Event::FirstRow(Ok(Some(row))) => Some(row),
        Event::NextRow(Ok(Some(row))) => Some(row),
        _ => None,
    }
}

} // verus!
