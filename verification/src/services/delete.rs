//! `DELETE /user/{id}` and `DELETE /article/{id}`.
//!
//! Both first check the caller's password against a user id; where the check
//! fails they answer 404, and otherwise delete and answer 204, or 500 where
//! the deletion fails.
use crate::cookie::{cookie_id, cookie_id_of, cookie_password, parsed_u32};
use crate::database::{DbError, Statement};
use crate::http::{answers, bare, bare_response, Action, Body, Event, Response, Status};
use crate::services::password_from;
use vstd::prelude::*;

verus! {

/// `DELETE /user/{id}`: the caller proves to be user `id` and removes it.
#[derive(Debug, PartialEq)]
pub enum DeleteUser {
    /// The password check of user `id` is under way.
    Checking { id: u32 },
    /// The deletion is under way.
    Deleting,
    /// The response is given.
    Done,
}

impl DeleteUser {
    /// Whether the state accepts `e`.
    pub fn admits(&self, e: &Event) -> (b: bool)
        ensures
            b == self.accepts(*e),
    {
        match self {
            DeleteUser::Done => false,
            _ => match e {
                Event::Executed(_) => true,
                _ => false,
            },
        }
    }

    /// `(state, action)` is how the endpoint starts for user `id` and this
    /// `password` cookie.
    pub open spec fn starts(id: u32, password_cookie: Option<String>, r: (DeleteUser, Action)) -> bool {
        &&& r.0 == DeleteUser::Checking { id }
        &&& r.1 matches Action::Execute(Statement::CheckUserById { id: i, password })
        &&& i == id
        &&& password_from(password_cookie, password)
    }

    /// Starts the endpoint: checks the cookie's password against user `id`.
    pub fn users(id: u32, password_cookie: Option<String>) -> (r: (DeleteUser, Action))
        ensures
            Self::starts(id, password_cookie, r),
    {
        let password = cookie_password(password_cookie);
        (DeleteUser::Checking { id }, Action::Execute(Statement::CheckUserById { id, password }))
    }

    /// The events that the state accepts.
    pub open spec fn accepts(self, e: Event) -> bool {
        match self {
            DeleteUser::Checking { .. } | DeleteUser::Deleting => e is Executed,
            DeleteUser::Done => false,
        }
    }

    /// The state and action that follow `e`.
    pub open spec fn next(self, e: Event) -> (DeleteUser, Action) {
        match self {
            DeleteUser::Checking { id } => match e {
                Event::Executed(Ok(_)) => (
                    DeleteUser::Deleting,
                    Action::Execute(Statement::DeleteUser { id }),
                ),
                _ => (DeleteUser::Done, Action::Respond(bare(Status::NotFound))),
            },
            _ => match e {
                Event::Executed(Ok(_)) => (DeleteUser::Done, Action::Respond(bare(Status::NoContent))),
                _ => (DeleteUser::Done, Action::Respond(bare(Status::ServerError))),
            },
        }
    }

    /// Takes the outcome of the last action.
    pub fn step(self, e: Event) -> (r: (DeleteUser, Action))
        requires
            self.accepts(e),
        ensures
            r == self.next(e),
    {
        match self {
            DeleteUser::Checking { id } => match e {
                Event::Executed(Ok(_)) => (
                    DeleteUser::Deleting,
                    Action::Execute(Statement::DeleteUser { id }),
                ),
                _ => (DeleteUser::Done, Action::Respond(bare_response(Status::NotFound))),
            },
            _ => match e {
                Event::Executed(Ok(_)) => (
                    DeleteUser::Done,
                    Action::Respond(bare_response(Status::NoContent)),
                ),
                _ => (DeleteUser::Done, Action::Respond(bare_response(Status::ServerError))),
            },
        }
    }
}

/// A user is deleted only right after the check of the caller's password
/// against that user succeeded, and it is that user that is deleted.
pub proof fn lemma_user_deleted_only_after_check(s: DeleteUser, e: Event)
    requires
        s.accepts(e),
        s.next(e).1.writes(),
    ensures
        s matches DeleteUser::Checking { id } && s.next(e).1 == Action::Execute(
            Statement::DeleteUser { id },
        ),
        e matches Event::Executed(Ok(_)),
{
}

/// A caller whose password check fails is answered 404, with nothing deleted.
pub proof fn lemma_user_delete_refused(id: u32, e: Event)
    requires
        e matches Event::Executed(Err(_)),
    ensures
        (DeleteUser::Checking { id }).next(e) == (DeleteUser::Done, Action::Respond(bare(Status::NotFound))),
{
}

/// `DELETE /article/{id}`: the caller, named by the `id` cookie, removes the
/// article.
#[derive(Debug, PartialEq)]
pub enum DeleteArticle {
    /// The password check of the caller is under way; `id` is the article.
    Checking { id: u32 },
    /// The deletion is under way.
    Deleting,
    /// The response is given.
    Done,
}

impl DeleteArticle {
    /// Whether the state accepts `e`.
    pub fn admits(&self, e: &Event) -> (b: bool)
        ensures
            b == self.accepts(*e),
    {
        match self {
            DeleteArticle::Done => false,
            _ => match e {
                Event::Executed(_) => true,
                _ => false,
            },
        }
    }

    /// `(state, action)` is how the endpoint starts for article `id` and these
    /// cookies.
    pub open spec fn starts(
        id: u32,
        id_cookie: Option<Seq<char>>,
        password_cookie: Option<String>,
        r: (DeleteArticle, Action),
    ) -> bool {
        &&& r.0 == DeleteArticle::Checking { id }
        &&& r.1 matches Action::Execute(Statement::CheckUserById { id: caller, password })
        &&& caller == cookie_id_of(id_cookie)
        &&& password_from(password_cookie, password)
    }

    /// Starts the endpoint: checks the password cookie against the user that
    /// the `id` cookie names.
    pub fn articles(id: u32, id_cookie: Option<&str>, password_cookie: Option<String>) -> (r: (
        DeleteArticle,
        Action,
    ))
        ensures
            Self::starts(
                id,
                match id_cookie {
                    Some(s) => Some(s@),
                    None => None,
                },
                password_cookie,
                r,
            ),
    {
        let caller: u32 = cookie_id(id_cookie);
        let password = cookie_password(password_cookie);
        (
            DeleteArticle::Checking { id },
            Action::Execute(Statement::CheckUserById { id: caller, password }),
        )
    }

    /// The events that the state accepts.
    pub open spec fn accepts(self, e: Event) -> bool {
        match self {
            DeleteArticle::Checking { .. } | DeleteArticle::Deleting => e is Executed,
            DeleteArticle::Done => false,
        }
    }

    /// The state and action that follow `e`.
    pub open spec fn next(self, e: Event) -> (DeleteArticle, Action) {
        match self {
            DeleteArticle::Checking { id } => match e {
                Event::Executed(Ok(_)) => (
                    DeleteArticle::Deleting,
                    Action::Execute(Statement::DeleteArticle { id }),
                ),
                _ => (DeleteArticle::Done, Action::Respond(bare(Status::NotFound))),
            },
            _ => match e {
                Event::Executed(Ok(_)) => (DeleteArticle::Done, Action::Respond(bare(Status::NoContent))),
                _ => (DeleteArticle::Done, Action::Respond(bare(Status::ServerError))),
            },
        }
    }

    /// Takes the outcome of the last action.
    pub fn step(self, e: Event) -> (r: (DeleteArticle, Action))
        requires
            self.accepts(e),
        ensures
            r == self.next(e),
    {
        match self {
            DeleteArticle::Checking { id } => match e {
                Event::Executed(Ok(_)) => (
                    DeleteArticle::Deleting,
                    Action::Execute(Statement::DeleteArticle { id }),
                ),
                _ => (DeleteArticle::Done, Action::Respond(bare_response(Status::NotFound))),
            },
            _ => match e {
                Event::Executed(Ok(_)) => (
                    DeleteArticle::Done,
                    Action::Respond(bare_response(Status::NoContent)),
                ),
                _ => (
                    DeleteArticle::Done,
                    Action::Respond(bare_response(Status::ServerError)),
                ),
            },
        }
    }
}

/// An article is deleted only right after the caller's password check
/// succeeded, and it is the requested article that is deleted.
pub proof fn lemma_article_deleted_only_after_check(s: DeleteArticle, e: Event)
    requires
        s.accepts(e),
        s.next(e).1.writes(),
    ensures
        s matches DeleteArticle::Checking { id } && s.next(e).1 == Action::Execute(
            Statement::DeleteArticle { id },
        ),
        e matches Event::Executed(Ok(_)),
{
}

/// A caller whose password check fails is answered 404, with nothing deleted.
pub proof fn lemma_article_delete_refused(id: u32, e: Event)
    requires
        e matches Event::Executed(Err(_)),
    ensures
        (DeleteArticle::Checking { id }).next(e) == (
            DeleteArticle::Done,
            Action::Respond(bare(Status::NotFound)),
        ),
{
}

/// The user deletion takes every outcome of each action it asks for, from
/// its first action to its last.
pub proof fn lemma_user_delete_takes_every_outcome(
    id: u32,
    password_cookie: Option<String>,
    r: (DeleteUser, Action),
    s: DeleteUser,
    e: Event,
    e2: Event,
)
    ensures
        DeleteUser::starts(id, password_cookie, r) && answers(r.1, e2) ==> r.0.accepts(e2),
        s.accepts(e) && answers(s.next(e).1, e2) ==> s.next(e).0.accepts(e2),
{
}

/// The article deletion takes every outcome of each action it asks for, from
/// its first action to its last.
pub proof fn lemma_article_delete_takes_every_outcome(
    id: u32,
    id_cookie: Option<Seq<char>>,
    password_cookie: Option<String>,
    r: (DeleteArticle, Action),
    s: DeleteArticle,
    e: Event,
    e2: Event,
)
    ensures
        DeleteArticle::starts(id, id_cookie, password_cookie, r) && answers(r.1, e2) ==> r.0.accepts(
            e2,
        ),
        s.accepts(e) && answers(s.next(e).1, e2) ==> s.next(e).0.accepts(e2),
{
}

/// How the user deletion goes: it checks the `password` cookie (or the empty
/// password where there is none) against the user to delete; a failed check
/// is answered 404, a deletion that follows is answered 204, and a failed
/// deletion 500, each with no cookie and no body.
pub proof fn lemma_user_delete_replies(
    id: u32,
    password_cookie: Option<String>,
    r: (DeleteUser, Action),
    checked: Result<u64, DbError>,
    deleted: Result<u64, DbError>,
)
    ensures
        DeleteUser::starts(id, password_cookie, r) ==> (r.1 matches Action::Execute(
            Statement::CheckUserById { id: checked_id, password },
        ) && checked_id == id && (password_cookie matches Some(p) ==> password == p) && (password_cookie is None
            ==> password@ == Seq::<char>::empty())),
        DeleteUser::starts(id, password_cookie, r) && checked is Ok ==> r.0.next(
            Event::Executed(checked),
        ).1 == Action::Execute(Statement::DeleteUser { id }),
        DeleteUser::starts(id, password_cookie, r) && checked is Err ==> r.0.next(
            Event::Executed(checked),
        ).1 == Action::Respond((Response { status: Status::NotFound, cookie: None, body: Body::Empty })),
        deleted is Ok ==> DeleteUser::Deleting.next(Event::Executed(deleted)) == (
            DeleteUser::Done,
            Action::Respond((Response { status: Status::NoContent, cookie: None, body: Body::Empty })),
        ),
        deleted is Err ==> DeleteUser::Deleting.next(Event::Executed(deleted)) == (
            DeleteUser::Done,
            Action::Respond((Response { status: Status::ServerError, cookie: None, body: Body::Empty })),
        ),
{
}

/// How the article deletion goes: it checks the `password` cookie against the
/// user that the `id` cookie names (0 where it names none); a failed check is
/// answered 404, a deletion of the requested article that follows is answered
/// 204, and a failed deletion 500, each with no cookie and no body.
pub proof fn lemma_article_delete_replies(
    id: u32,
    id_cookie: Option<Seq<char>>,
    password_cookie: Option<String>,
    r: (DeleteArticle, Action),
    checked: Result<u64, DbError>,
    deleted: Result<u64, DbError>,
)
    ensures
        DeleteArticle::starts(id, id_cookie, password_cookie, r) ==> (r.1 matches Action::Execute(
            Statement::CheckUserById { id: caller, password },
        ) && caller == (match id_cookie {
            Some(c) => match parsed_u32(c) {
                Some(n) => n,
                None => 0u32,
            },
            None => 0u32,
        }) && (password_cookie matches Some(p) ==> password == p) && (password_cookie is None
            ==> password@ == Seq::<char>::empty())),
        DeleteArticle::starts(id, id_cookie, password_cookie, r) && checked is Ok ==> r.0.next(
            Event::Executed(checked),
        ).1 == Action::Execute(Statement::DeleteArticle { id }),
        DeleteArticle::starts(id, id_cookie, password_cookie, r) && checked is Err ==> r.0.next(
            Event::Executed(checked),
        ).1 == Action::Respond((Response { status: Status::NotFound, cookie: None, body: Body::Empty })),
        deleted is Ok ==> DeleteArticle::Deleting.next(Event::Executed(deleted)) == (
            DeleteArticle::Done,
            Action::Respond((Response { status: Status::NoContent, cookie: None, body: Body::Empty })),
        ),
        deleted is Err ==> DeleteArticle::Deleting.next(Event::Executed(deleted)) == (
            DeleteArticle::Done,
            Action::Respond((Response { status: Status::ServerError, cookie: None, body: Body::Empty })),
        ),
{
}

} // verus!
