//! `PUT /user/{id}` and `PUT /article/{id}`.
//!
//! Both first check the caller's password; where the check fails they answer
//! 401, and otherwise update and answer 200, or 500 where the update fails.
use crate::cookie::cookie_password;
use crate::database::{user, DbError, Row, Statement};
use crate::http::{answers, bare, bare_response, Action, Body, Event, PasswordCookie, Response, Status};
use crate::services::{password_from, Credentials};
use vstd::prelude::*;

verus! {

/// The new title and body of an article, and the user who claims it.
#[derive(Debug, PartialEq)]
pub struct ArticleEdit {
    pub title: String,
    pub body: String,
    pub creator: u32,
}

/// `PUT /user/{id}`: the caller proves to be user `id` and changes its name
/// and password.
#[derive(Debug, PartialEq)]
pub enum UpdateUser {
    /// The password check of user `id` is under way.
    Checking { id: u32, data: Credentials },
    /// The update is under way; `password` is the new password.
    Updating { password: String },
    /// The response is given.
    Done,
}

/// The response to an update of a user: on success 200 and the new password
/// as a site-wide cookie, otherwise 500.
pub open spec fn user_update_reply(outcome: Result<Option<Row>, DbError>, password: String) -> Response {
    match user::update_result(outcome) {
        Ok(_) => Response {
            status: Status::Success,
            cookie: Some(PasswordCookie { value: password, site_wide: true }),
            body: Body::Empty,
        },
        Err(_) => bare(Status::ServerError),
    }
}

impl UpdateUser {
    /// Whether the state accepts `e`.
    pub fn admits(&self, e: &Event) -> (b: bool)
        ensures
            b == self.accepts(*e),
    {
        match (self, e) {
            (UpdateUser::Checking { .. }, Event::Executed(_)) => true,
            (UpdateUser::Updating { .. }, Event::FirstRow(_)) => true,
            _ => false,
        }
    }

    /// `(state, action)` is how the endpoint starts for user `id`, this request
    /// body and this `password` cookie.
    pub open spec fn starts(
        id: u32,
        data: Credentials,
        password_cookie: Option<String>,
        r: (UpdateUser, Action),
    ) -> bool {
        &&& r.0 == UpdateUser::Checking { id, data }
        &&& r.1 matches Action::Execute(Statement::CheckUserById { id: i, password })
        &&& i == id
        &&& password_from(password_cookie, password)
    }

    /// Starts the endpoint: checks the cookie's password against user `id`.
    pub fn users(id: u32, data: Credentials, password_cookie: Option<String>) -> (r: (
        UpdateUser,
        Action,
    ))
        ensures
            Self::starts(id, data, password_cookie, r),
    {
        let password = cookie_password(password_cookie);
        (UpdateUser::Checking { id, data }, Action::Execute(Statement::CheckUserById { id, password }))
    }

    /// The events that the state accepts.
    pub open spec fn accepts(self, e: Event) -> bool {
        match self {
            UpdateUser::Checking { .. } => e is Executed,
            UpdateUser::Updating { .. } => e is FirstRow,
            UpdateUser::Done => false,
        }
    }

    /// The state and action that follow `e`.
    pub open spec fn next(self, e: Event) -> (UpdateUser, Action) {
        match self {
            UpdateUser::Checking { id, data } => match e {
                Event::Executed(Ok(_)) => (
                    UpdateUser::Updating { password: data.password },
                    Action::FetchFirst(
                        Statement::UpdateUser { id, name: data.name, password: data.password },
                    ),
                ),
                _ => (UpdateUser::Done, Action::Respond(bare(Status::Unauthorized))),
            },
            UpdateUser::Updating { password } => match e {
                Event::FirstRow(outcome) => (
                    UpdateUser::Done,
                    Action::Respond(user_update_reply(outcome, password)),
                ),
                _ => (UpdateUser::Done, Action::Respond(bare(Status::ServerError))),
            },
            UpdateUser::Done => (UpdateUser::Done, Action::Respond(bare(Status::ServerError))),
        }
    }

    /// Takes the outcome of the last action.
    pub fn step(self, e: Event) -> (r: (UpdateUser, Action))
        requires
            self.accepts(e),
        ensures
            r == self.next(e),
    {
        match self {
            UpdateUser::Checking { id, data } => match e {
                Event::Executed(Ok(_)) => {
                    let password = data.password.clone();
                    (
                        UpdateUser::Updating { password },
                        Action::FetchFirst(
                            Statement::UpdateUser { id, name: data.name, password: data.password },
                        ),
                    )
                },
                _ => (UpdateUser::Done, Action::Respond(bare_response(Status::Unauthorized))),
            },
            UpdateUser::Updating { password } => match e {
                Event::FirstRow(outcome) => {
                    let response = match user::updater(outcome) {
                        Ok(_) => Response {
                            status: Status::Success,
                            cookie: Some(PasswordCookie { value: password, site_wide: true }),
                            body: Body::Empty,
                        },
                        Err(_) => bare_response(Status::ServerError),
                    };
                    (UpdateUser::Done, Action::Respond(response))
                },
                _ => (UpdateUser::Done, Action::Respond(bare_response(Status::ServerError))),
            },
            UpdateUser::Done => (
                UpdateUser::Done,
                Action::Respond(bare_response(Status::ServerError)),
            ),
        }
    }
}

/// A user is changed only right after the check of the caller's password
/// against that user succeeded, and it is that user that is changed, to the
/// name and password of the request.
pub proof fn lemma_user_updated_only_after_check(s: UpdateUser, e: Event)
    requires
        s.accepts(e),
        s.next(e).1.writes(),
    ensures
        s matches UpdateUser::Checking { id, data } && s.next(e).1 == Action::FetchFirst(
            Statement::UpdateUser { id, name: data.name, password: data.password },
        ),
        e matches Event::Executed(Ok(_)),
{
}

/// A caller whose password check fails is answered 401, with nothing changed.
pub proof fn lemma_user_update_refused(id: u32, data: Credentials, e: Event)
    requires
        e matches Event::Executed(Err(_)),
    ensures
        (UpdateUser::Checking { id, data }).next(e) == (
            UpdateUser::Done,
            Action::Respond(bare(Status::Unauthorized)),
        ),
{
}

/// `PUT /article/{id}`: the caller proves to be the user that the request
/// names as creator, and changes the article's title and body.
#[derive(Debug, PartialEq)]
pub enum UpdateArticle {
    /// The password check of `data.creator` is under way; `id` is the article.
    Checking { id: u32, data: ArticleEdit },
    /// The update is under way.
    Updating,
    /// The response is given.
    Done,
}

impl UpdateArticle {
    /// Whether the state accepts `e`.
    pub fn admits(&self, e: &Event) -> (b: bool)
        ensures
            b == self.accepts(*e),
    {
        match self {
            UpdateArticle::Done => false,
            _ => match e {
                Event::Executed(_) => true,
                _ => false,
            },
        }
    }

    /// `(state, action)` is how the endpoint starts for article `id`, this
    /// request body and this `password` cookie.
    pub open spec fn starts(
        id: u32,
        data: ArticleEdit,
        password_cookie: Option<String>,
        r: (UpdateArticle, Action),
    ) -> bool {
        &&& r.1 matches Action::Execute(Statement::CheckUserById { id: caller, password })
        &&& caller == data.creator
        &&& r.0 == UpdateArticle::Checking { id, data }
        &&& password_from(password_cookie, password)
    }

    /// Starts the endpoint: checks the cookie's password against the user that
    /// the request names as creator.
    pub fn articles(id: u32, data: ArticleEdit, password_cookie: Option<String>) -> (r: (
        UpdateArticle,
        Action,
    ))
        ensures
            Self::starts(id, data, password_cookie, r),
    {
        let password = cookie_password(password_cookie);
        let caller: u32 = data.creator;
        (
            UpdateArticle::Checking { id, data },
            Action::Execute(Statement::CheckUserById { id: caller, password }),
        )
    }

    /// The events that the state accepts.
    pub open spec fn accepts(self, e: Event) -> bool {
        match self {
            UpdateArticle::Checking { .. } | UpdateArticle::Updating => e is Executed,
            UpdateArticle::Done => false,
        }
    }

    /// The state and action that follow `e`.
    pub open spec fn next(self, e: Event) -> (UpdateArticle, Action) {
        match self {
            UpdateArticle::Checking { id, data } => match e {
                Event::Executed(Ok(_)) => (
                    UpdateArticle::Updating,
                    Action::Execute(
                        Statement::UpdateArticle { id, title: data.title, body: data.body },
                    ),
                ),
                _ => (UpdateArticle::Done, Action::Respond(bare(Status::Unauthorized))),
            },
            _ => match e {
                Event::Executed(Ok(_)) => (UpdateArticle::Done, Action::Respond(bare(Status::Success))),
                _ => (UpdateArticle::Done, Action::Respond(bare(Status::ServerError))),
            },
        }
    }

    /// Takes the outcome of the last action.
    pub fn step(self, e: Event) -> (r: (UpdateArticle, Action))
        requires
            self.accepts(e),
        ensures
            r == self.next(e),
    {
        match self {
            UpdateArticle::Checking { id, data } => match e {
                Event::Executed(Ok(_)) => (
                    UpdateArticle::Updating,
                    Action::Execute(
                        Statement::UpdateArticle { id, title: data.title, body: data.body },
                    ),
                ),
                _ => (UpdateArticle::Done, Action::Respond(bare_response(Status::Unauthorized))),
            },
            _ => match e {
                Event::Executed(Ok(_)) => (
                    UpdateArticle::Done,
                    Action::Respond(bare_response(Status::Success)),
                ),
                _ => (
                    UpdateArticle::Done,
                    Action::Respond(bare_response(Status::ServerError)),
                ),
            },
        }
    }
}

/// An article is changed only right after the password check of the user that
/// the request names as creator succeeded, and it is the requested article
/// that is changed, to the title and body of the request.
pub proof fn lemma_article_updated_only_after_check(s: UpdateArticle, e: Event)
    requires
        s.accepts(e),
        s.next(e).1.writes(),
    ensures
        s matches UpdateArticle::Checking { id, data } && s.next(e).1 == Action::Execute(
            Statement::UpdateArticle { id, title: data.title, body: data.body },
        ),
        e matches Event::Executed(Ok(_)),
{
}

/// A caller whose password check fails is answered 401, with nothing changed.
pub proof fn lemma_article_update_refused(id: u32, data: ArticleEdit, e: Event)
    requires
        e matches Event::Executed(Err(_)),
    ensures
        (UpdateArticle::Checking { id, data }).next(e) == (
            UpdateArticle::Done,
            Action::Respond(bare(Status::Unauthorized)),
        ),
{
}

/// The user update takes every outcome of each action it asks for, from its
/// first action to its last.
pub proof fn lemma_user_update_takes_every_outcome(
    id: u32,
    data: Credentials,
    password_cookie: Option<String>,
    r: (UpdateUser, Action),
    s: UpdateUser,
    e: Event,
    e2: Event,
)
    ensures
        UpdateUser::starts(id, data, password_cookie, r) && answers(r.1, e2) ==> r.0.accepts(e2),
        s.accepts(e) && answers(s.next(e).1, e2) ==> s.next(e).0.accepts(e2),
{
}

/// The article update takes every outcome of each action it asks for, from
/// its first action to its last.
pub proof fn lemma_article_update_takes_every_outcome(
    id: u32,
    data: ArticleEdit,
    password_cookie: Option<String>,
    r: (UpdateArticle, Action),
    s: UpdateArticle,
    e: Event,
    e2: Event,
)
    ensures
        UpdateArticle::starts(id, data, password_cookie, r) && answers(r.1, e2) ==> r.0.accepts(
            e2,
        ),
        s.accepts(e) && answers(s.next(e).1, e2) ==> s.next(e).0.accepts(e2),
{
}

/// How the user update goes: it checks the `password` cookie (or the empty
/// password) against the user to change; a failed check is answered 401;
/// after a passed check the user gets the request's name and password; where
/// the update gives back a row the answer is 200 with the new password as a
/// site-wide cookie, and otherwise 500 with no cookie.
pub proof fn lemma_user_update_replies(
    id: u32,
    data: Credentials,
    password_cookie: Option<String>,
    r: (UpdateUser, Action),
    checked: Result<u64, DbError>,
    updated: Result<Option<Row>, DbError>,
)
    ensures
        UpdateUser::starts(id, data, password_cookie, r) ==> (r.1 matches Action::Execute(
            Statement::CheckUserById { id: checked_id, password },
        ) && checked_id == id && (password_cookie matches Some(p) ==> password == p) && (password_cookie is None
            ==> password@ == Seq::<char>::empty())),
        UpdateUser::starts(id, data, password_cookie, r) && checked is Ok ==> r.0.next(
            Event::Executed(checked),
        ) == (
            UpdateUser::Updating { password: data.password },
            Action::FetchFirst(
                Statement::UpdateUser { id, name: data.name, password: data.password },
            ),
        ),
        UpdateUser::starts(id, data, password_cookie, r) && checked is Err ==> r.0.next(
            Event::Executed(checked),
        ).1 == Action::Respond((Response { status: Status::Unauthorized, cookie: None, body: Body::Empty })),
        (updated matches Ok(Some(_))) ==> (UpdateUser::Updating { password: data.password }).next(
            Event::FirstRow(updated),
        ) == (
            UpdateUser::Done,
            Action::Respond(
                (Response {
                    status: Status::Success,
                    cookie: Some(PasswordCookie { value: data.password, site_wide: true }),
                    body: Body::Empty,
                }),
            ),
        ),
        !(updated matches Ok(Some(_))) ==> (UpdateUser::Updating { password: data.password }).next(
            Event::FirstRow(updated),
        ) == (
            UpdateUser::Done,
            Action::Respond((Response { status: Status::ServerError, cookie: None, body: Body::Empty })),
        ),
{
}

/// How the article update goes: it checks the `password` cookie against the
/// user that the request names as creator; a failed check is answered 401;
/// after a passed check the requested article gets the request's title and
/// body, answered 200, or 500 where the update fails, with no cookie or body.
pub proof fn lemma_article_update_replies(
    id: u32,
    data: ArticleEdit,
    password_cookie: Option<String>,
    r: (UpdateArticle, Action),
    checked: Result<u64, DbError>,
    updated: Result<u64, DbError>,
)
    ensures
        UpdateArticle::starts(id, data, password_cookie, r) ==> (r.1 matches Action::Execute(
            Statement::CheckUserById { id: caller, password },
        ) && caller == data.creator && (password_cookie matches Some(p) ==> password == p) && (password_cookie is None
            ==> password@ == Seq::<char>::empty())),
        UpdateArticle::starts(id, data, password_cookie, r) && checked is Ok ==> r.0.next(
            Event::Executed(checked),
        ).1 == Action::Execute(Statement::UpdateArticle { id, title: data.title, body: data.body }),
        UpdateArticle::starts(id, data, password_cookie, r) && checked is Err ==> r.0.next(
            Event::Executed(checked),
        ).1 == Action::Respond((Response { status: Status::Unauthorized, cookie: None, body: Body::Empty })),
        updated is Ok ==> UpdateArticle::Updating.next(Event::Executed(updated)) == (
            UpdateArticle::Done,
            Action::Respond((Response { status: Status::Success, cookie: None, body: Body::Empty })),
        ),
        updated is Err ==> UpdateArticle::Updating.next(Event::Executed(updated)) == (
            UpdateArticle::Done,
            Action::Respond((Response { status: Status::ServerError, cookie: None, body: Body::Empty })),
        ),
{
}

} // verus!
