//! `POST` endpoints: `POST /` (the article listing), `POST /user` (log in
//! or sign up) and `POST /article` (publish).
use crate::cookie::{cookie_id, cookie_id_of, cookie_password, parsed_u32};
use crate::database::{
    column_is_integer, column_is_text, first_row_as, first_row_is_readable, first_row_readable, integer_readable, lemma_low_bits,
    read_first_row, read_u32, take_first,
    text_readable, u32_of, DbError, FromRow, Row, Statement, Value,
};
use crate::http::{answers, row_of, bare, bare_response, Action, Body, Event, PasswordCookie, Response, Status};
use crate::services::{password_from, Credentials};
use vstd::prelude::*;

verus! {

/// The id of a record that a query found or created.
#[derive(Debug, Clone, Copy, PartialEq, Eq, Structural)]
pub struct IdReply {
    pub id: u32,
}

/// One entry of the article listing.
#[derive(Debug, PartialEq)]
pub struct ShowableArticle {
    pub id: u32,
    pub title: String,
}

/// The title and body of an article to publish.
#[derive(Debug, PartialEq)]
pub struct ArticleDraft {
    pub title: String,
    pub body: String,
}

impl FromRow for IdReply {
    /// Column 0 is read as the id.
    open spec fn readable(c: Seq<Value>) -> bool {
        integer_readable(c, 0)
    }

    open spec fn from_columns(c: Seq<Value>) -> Result<IdReply, DbError> {
        match u32_of(c[0]) {
            Ok(id) => Ok(IdReply { id }),
            Err(e) => Err(e),
        }
    }

    fn is_readable(row: &Row) -> (b: bool) {
        column_is_integer(&row.columns, 0)
    }

    fn from_row(row: Row) -> (r: Result<IdReply, DbError>) {
        let mut columns = row.columns;
        match read_u32(take_first(&mut columns)) {
            Ok(id) => Ok(IdReply { id }),
            Err(e) => Err(e),
        }
    }
}

/// The `password` cookie that a successful log-in or sign-up sets.
pub open spec fn password_cookie(password: String, site_wide: bool) -> Option<PasswordCookie> {
    Some(PasswordCookie { value: password, site_wide })
}

/// `POST /user`: a known name and password log in; anything else signs up a
/// new user with them.
#[derive(Debug, PartialEq)]
pub enum Login {
    /// The user with these credentials is being looked up.
    Looking(Credentials),
    /// No such user was found; one is being created with these credentials.
    Registering(Credentials),
    /// The response is given.
    Done,
}

impl Login {
    /// Whether the state accepts `e`.
    pub fn admits(&self, e: &Event) -> (b: bool)
        ensures
            b == self.accepts(*e),
    {
        match (self, e) {
            (Login::Done, _) => false,
            (_, Event::FirstRow(outcome)) => first_row_is_readable::<IdReply>(outcome),
            _ => false,
        }
    }

    /// The endpoint starts by looking up the user with the request's name and
    /// password.
    pub open spec fn started(data: Credentials) -> (Login, Action) {
        (
            Login::Looking(data),
            Action::FetchFirst(
                Statement::FindUserByName { name: data.name, password: data.password },
            ),
        )
    }

    /// Starts the endpoint.
    pub fn user(data: Credentials) -> (r: (Login, Action))
        ensures
            r == Self::started(data),
    {
        let name = data.name.clone();
        let password = data.password.clone();
        (Login::Looking(data), Action::FetchFirst(Statement::FindUserByName { name, password }))
    }

    /// The events that the state accepts.
    pub open spec fn accepts(self, e: Event) -> bool {
        match self {
            Login::Looking(_) | Login::Registering(_) => e matches Event::FirstRow(outcome)
                && first_row_readable::<IdReply>(outcome),
            Login::Done => false,
        }
    }

    /// The state and action that follow `e`.
    ///
    /// A user found: 200, its id, and the password as a site-wide cookie. None
    /// found: create one. Created: 201, its id, and the password as a cookie
    /// without a path. Not created: 500.
    pub open spec fn next(self, e: Event) -> (Login, Action) {
        match (self, e) {
            (Login::Looking(data), Event::FirstRow(outcome)) => match first_row_as::<IdReply>(
                outcome,
            ) {
                Ok(reply) => (
                    Login::Done,
                    Action::Respond(
                        Response {
                            status: Status::Success,
                            cookie: password_cookie(data.password, true),
                            body: Body::Id(reply),
                        },
                    ),
                ),
                Err(_) => (
                    Login::Registering(data),
                    Action::FetchFirst(
                        Statement::CreateUser { name: data.name, password: data.password },
                    ),
                ),
            },
            (Login::Registering(data), Event::FirstRow(outcome)) => match first_row_as::<IdReply>(
                outcome,
            ) {
                Ok(reply) => (
                    Login::Done,
                    Action::Respond(
                        Response {
                            status: Status::Created,
                            cookie: password_cookie(data.password, false),
                            body: Body::Id(reply),
                        },
                    ),
                ),
                Err(_) => (Login::Done, Action::Respond(bare(Status::ServerError))),
            },
            _ => (Login::Done, Action::Respond(bare(Status::ServerError))),
        }
    }

    /// Takes the outcome of the last action.
    pub fn step(self, e: Event) -> (r: (Login, Action))
        requires
            self.accepts(e),
        ensures
            r == self.next(e),
    {
        match (self, e) {
            (Login::Looking(data), Event::FirstRow(outcome)) => match read_first_row::<IdReply>(
                outcome,
            ) {
                Ok(reply) => (
                    Login::Done,
                    Action::Respond(
                        Response {
                            status: Status::Success,
                            cookie: Some(PasswordCookie { value: data.password, site_wide: true }),
                            body: Body::Id(reply),
                        },
                    ),
                ),
                Err(_) => {
                    let name = data.name.clone();
                    let password = data.password.clone();
                    (
                        Login::Registering(data),
                        Action::FetchFirst(Statement::CreateUser { name, password }),
                    )
                },
            },
            (Login::Registering(data), Event::FirstRow(outcome)) => match read_first_row::<
                IdReply,
            >(outcome) {
                Ok(reply) => (
                    Login::Done,
                    Action::Respond(
                        Response {
                            status: Status::Created,
                            cookie: Some(PasswordCookie { value: data.password, site_wide: false }),
                            body: Body::Id(reply),
                        },
                    ),
                ),
                Err(_) => (Login::Done, Action::Respond(bare_response(Status::ServerError))),
            },
            _ => (Login::Done, Action::Respond(bare_response(Status::ServerError))),
        }
    }
}

/// Whatever answer a log-in or sign-up gets, a cookie it sets holds the
/// password that the request sent.
pub proof fn lemma_login_cookie_is_request_password(data: Credentials, e1: Event, e2: Event)
    requires
        Login::started(data).0.accepts(e1),
    ensures
        Login::started(data).0.next(e1).1 matches Action::Respond(r) ==> r.cookie matches Some(c)
            ==> c.value == data.password,
        Login::started(data).0.next(e1).0.accepts(e2) ==> (Login::started(data).0.next(e1).0.next(
            e2,
        ).1 matches Action::Respond(r) ==> r.cookie matches Some(c) ==> c.value == data.password),
{
}

/// A new user is created only where looking up the request's name and
/// password gave no user, and it is created with that name and password.
pub proof fn lemma_sign_up_only_when_not_found(data: Credentials, e: Event)
    requires
        Login::Looking(data).accepts(e),
    ensures
        Login::Looking(data).next(e).1.writes() <==> (e matches Event::FirstRow(outcome)
            && first_row_as::<IdReply>(outcome) is Err),
        Login::Looking(data).next(e).1.writes() ==> Login::Looking(data).next(e).1
            == Action::FetchFirst(Statement::CreateUser { name: data.name, password: data.password }),
{
}

/// `POST /article`: the caller, named by the `id` cookie, publishes an article.
#[derive(Debug, PartialEq)]
pub enum Publish {
    /// The password check of `creator` is under way.
    Checking { draft: ArticleDraft, creator: u32 },
    /// The article is being created.
    Creating,
    /// The response is given.
    Done,
}

impl Publish {
    /// Whether the state accepts `e`.
    pub fn admits(&self, e: &Event) -> (b: bool)
        ensures
            b == self.accepts(*e),
    {
        match (self, e) {
            (Publish::Checking { .. }, Event::Executed(_)) => true,
            (Publish::Creating, Event::FirstRow(outcome)) => first_row_is_readable::<IdReply>(outcome),
            _ => false,
        }
    }

    /// `(state, action)` is how the endpoint starts for this request body and
    /// these cookies.
    pub open spec fn starts(
        draft: ArticleDraft,
        id_cookie: Option<Seq<char>>,
        password_cookie: Option<String>,
        r: (Publish, Action),
    ) -> bool {
        let creator: u32 = cookie_id_of(id_cookie);
        &&& r.0 == Publish::Checking { draft, creator }
        &&& r.1 matches Action::Execute(Statement::CheckUserById { id, password })
        &&& id == creator
        &&& password_from(password_cookie, password)
    }

    /// Starts the endpoint: checks the password cookie against the user that
    /// the `id` cookie names.
    pub fn article(draft: ArticleDraft, id_cookie: Option<&str>, password_cookie: Option<String>) -> (r: (
        Publish,
        Action,
    ))
        ensures
            Self::starts(
                draft,
                match id_cookie {
                    Some(s) => Some(s@),
                    None => None,
                },
                password_cookie,
                r,
            ),
    {
        let creator: u32 = cookie_id(id_cookie);
        let password = cookie_password(password_cookie);
        (
            Publish::Checking { draft, creator },
            Action::Execute(Statement::CheckUserById { id: creator, password }),
        )
    }

    /// The events that the state accepts.
    pub open spec fn accepts(self, e: Event) -> bool {
        match self {
            Publish::Checking { .. } => e is Executed,
            Publish::Creating => e matches Event::FirstRow(outcome) && first_row_readable::<
                IdReply,
            >(outcome),
            Publish::Done => false,
        }
    }

    /// The state and action that follow `e`: a failed check is answered 401;
    /// otherwise the article is created under the caller's id and the answer
    /// is 201 with its id, or 500 where it could not be created.
    pub open spec fn next(self, e: Event) -> (Publish, Action) {
        match (self, e) {
            (Publish::Checking { draft, creator }, Event::Executed(Ok(_))) => (
                Publish::Creating,
                Action::FetchFirst(
                    Statement::CreateArticle { title: draft.title, body: draft.body, creator },
                ),
            ),
            (Publish::Checking { .. }, _) => (
                Publish::Done,
                Action::Respond(bare(Status::Unauthorized)),
            ),
            (Publish::Creating, Event::FirstRow(outcome)) => match first_row_as::<IdReply>(
                outcome,
            ) {
                Ok(reply) => (
                    Publish::Done,
                    Action::Respond(
                        Response { status: Status::Created, cookie: None, body: Body::Id(reply) },
                    ),
                ),
                Err(_) => (Publish::Done, Action::Respond(bare(Status::ServerError))),
            },
            _ => (Publish::Done, Action::Respond(bare(Status::ServerError))),
        }
    }

    /// Takes the outcome of the last action.
    pub fn step(self, e: Event) -> (r: (Publish, Action))
        requires
            self.accepts(e),
        ensures
            r == self.next(e),
    {
        match (self, e) {
            (Publish::Checking { draft, creator }, Event::Executed(Ok(_))) => (
                Publish::Creating,
                Action::FetchFirst(
                    Statement::CreateArticle { title: draft.title, body: draft.body, creator },
                ),
            ),
            (Publish::Checking { .. }, _) => (
                Publish::Done,
                Action::Respond(bare_response(Status::Unauthorized)),
            ),
            (Publish::Creating, Event::FirstRow(outcome)) => match read_first_row::<IdReply>(
                outcome,
            ) {
                Ok(reply) => (
                    Publish::Done,
                    Action::Respond(
                        Response { status: Status::Created, cookie: None, body: Body::Id(reply) },
                    ),
                ),
                Err(_) => (Publish::Done, Action::Respond(bare_response(Status::ServerError))),
            },
            _ => (Publish::Done, Action::Respond(bare_response(Status::ServerError))),
        }
    }
}

/// An article is created only right after the caller's password check
/// succeeded, and it is created under the id that was checked.
pub proof fn lemma_article_created_only_after_check(s: Publish, e: Event)
    requires
        s.accepts(e),
        s.next(e).1.writes(),
    ensures
        s matches Publish::Checking { draft, creator } && s.next(e).1 == Action::FetchFirst(
            Statement::CreateArticle { title: draft.title, body: draft.body, creator },
        ),
        e matches Event::Executed(Ok(_)),
{
}

/// A caller whose password check fails is answered 401, with nothing created.
pub proof fn lemma_publish_refused(draft: ArticleDraft, creator: u32, e: Event)
    requires
        e matches Event::Executed(Err(_)),
    ensures
        (Publish::Checking { draft, creator }).next(e) == (
            Publish::Done,
            Action::Respond(bare(Status::Unauthorized)),
        ),
{
}

/// The id that a listing entry shows for a column value: the low 32 bits of
/// an integer, 0 for NULL.
pub open spec fn id_or_zero(v: Value) -> u32 {
    match v {
        Value::Integer(i) => i as u32,
        _ => 0,
    }
}

/// The title that a listing entry shows for a column value: the text, or the
/// empty string for NULL.
pub open spec fn title_or_empty(v: Value) -> Seq<char> {
    match v {
        Value::Text(s) => s@,
        _ => Seq::<char>::empty(),
    }
}

/// A row with these columns can be shown in the listing without aborting:
/// column 0 is INTEGER or NULL and column 1 is TEXT or NULL.
pub open spec fn showable_readable(c: Seq<Value>) -> bool {
    integer_readable(c, 0) && text_readable(c, 1)
}

/// `a` is the listing entry for a row with these columns.
pub open spec fn shows(c: Seq<Value>, a: ShowableArticle) -> bool {
    a.id == id_or_zero(c[0]) && a.title@ == title_or_empty(c[1])
}

/// `v` holds one entry for each of `rows`, in the same order.
pub open spec fn lists(v: Seq<ShowableArticle>, rows: Seq<Seq<Value>>) -> bool {
    &&& v.len() == rows.len()
    &&& forall|i: int| 0 <= i < rows.len() ==> shows(#[trigger] rows[i], v[i])
}

/// The listing entry for a row: its id and title, with 0 and the empty string
/// standing in for NULL.
pub fn showable(row: Row) -> (a: ShowableArticle)
    requires
        showable_readable(row.columns@),
    ensures
        shows(row.columns@, a),
{
    let mut columns = row.columns;
    let id: u32 = match take_first(&mut columns) {
        Value::Integer(i) => i as u32,
        _ => 0,
    };
    let title = match take_first(&mut columns) {
        Value::Text(s) => s,
        _ => String::new(),
    };
    ShowableArticle { id, title }
}

/// `POST /`: the id and title of the articles.
///
/// The first row that the listing query gives is read and dropped whatever it
/// holds; the rows after it are listed until the query runs out of rows or a
/// row cannot be read.
#[derive(Debug, PartialEq)]
pub enum Index {
    /// The listing query is being run.
    Opening,
    /// The first row is being read, to be dropped.
    Skipping,
    /// These entries are listed so far.
    Listing(Vec<ShowableArticle>),
    /// The response is given.
    Done,
}

impl Index {
    /// Whether the state accepts `e`.
    pub fn admits(&self, e: &Event) -> (b: bool)
        ensures
            b == self.accepts(*e),
    {
        match (self, e) {
            (Index::Opening, Event::Opened(_)) => true,
            (Index::Skipping, Event::NextRow(_)) => true,
            (Index::Listing(_), Event::NextRow(Ok(Some(row)))) => column_is_integer(&row.columns, 0)
                && column_is_text(&row.columns, 1),
            (Index::Listing(_), Event::NextRow(_)) => true,
            _ => false,
        }
    }

    /// The endpoint starts by running the listing query.
    pub open spec fn started() -> (Index, Action) {
        (Index::Opening, Action::Open(Statement::ListArticles))
    }

    /// Starts the endpoint.
    pub fn index() -> (r: (Index, Action))
        ensures
            r == Self::started(),
    {
        (Index::Opening, Action::Open(Statement::ListArticles))
    }

    /// The events that the state accepts.
    pub open spec fn accepts(self, e: Event) -> bool {
        match self {
            Index::Opening => e is Opened,
            Index::Skipping => e is NextRow,
            Index::Listing(_) => e matches Event::NextRow(outcome) && (outcome matches Ok(Some(row))
                ==> showable_readable(row.columns@)),
            Index::Done => false,
        }
    }

    /// `r` is the state and action that follow `e`.
    ///
    /// A query that cannot be run is answered 500. Otherwise the first row is
    /// dropped, each row after it adds its entry, and the first step that gives
    /// no row, or fails, ends the listing with 200 and the entries so far.
    pub open spec fn moves(self, e: Event, r: (Index, Action)) -> bool {
        match self {
            Index::Opening => match e {
                Event::Opened(Ok(_)) => r == (Index::Skipping, Action::Next),
                _ => r == (Index::Done, Action::Respond(bare(Status::ServerError))),
            },
            Index::Skipping => r.0 matches Index::Listing(v) && v@.len() == 0 && r.1 == Action::Next,
            Index::Listing(v) => match e {
                Event::NextRow(Ok(Some(row))) => {
                    &&& r.0 matches Index::Listing(w)
                    &&& w@.len() == v@.len() + 1
                    &&& w@.drop_last() == v@
                    &&& shows(row.columns@, w@.last())
                    &&& r.1 == Action::Next
                },
                _ => r == (
                    Index::Done,
                    Action::Respond(
                        Response { status: Status::Success, cookie: None, body: Body::Articles(v) },
                    ),
                ),
            },
            Index::Done => false,
        }
    }

    /// Takes the outcome of the last action.
    pub fn step(self, e: Event) -> (r: (Index, Action))
        requires
            self.accepts(e),
        ensures
            self.moves(e, r),
    {
        match self {
            Index::Opening => match e {
                Event::Opened(Ok(_)) => (Index::Skipping, Action::Next),
                _ => (Index::Done, Action::Respond(bare_response(Status::ServerError))),
            },
            Index::Skipping => (Index::Listing(Vec::new()), Action::Next),
            Index::Listing(v) => match e {
                Event::NextRow(Ok(Some(row))) => {
                    let mut w = v;
                    w.push(showable(row));
                    assert(w@.drop_last() =~= v@);
                    (Index::Listing(w), Action::Next)
                },
                _ => (
                    Index::Done,
                    Action::Respond(
                        Response { status: Status::Success, cookie: None, body: Body::Articles(v) },
                    ),
                ),
            },
            Index::Done => (Index::Done, Action::Respond(bare_response(Status::ServerError))),
        }
    }
}

/// The column values of each row.
pub open spec fn columns_of(rows: Seq<Row>) -> Seq<Seq<Value>> {
    rows.map_values(|row: Row| row.columns@)
}

proof fn lemma_index_prefix(states: Seq<Index>, actions: Seq<Action>, rows: Seq<Row>, k: int)
    requires
        1 <= k <= rows.len(),
        states.len() == rows.len() + 1,
        actions.len() == rows.len(),
        states[0] is Skipping,
        forall|i: int|
            0 <= i < rows.len() ==> states[i].moves(
                Event::NextRow(Ok(Some(#[trigger] rows[i]))),
                (states[i + 1], actions[i]),
            ),
    ensures
        states[k] matches Index::Listing(v) && lists(v@, columns_of(rows.subrange(1, k))),
    decreases k,
{
    let e = Event::NextRow(Ok(Some(rows[k - 1])));
    assert(states[k - 1].moves(e, (states[k], actions[k - 1])));
    if k == 1 {
        assert(columns_of(rows.subrange(1, 1)) =~= Seq::<Seq<Value>>::empty());
    } else {
        lemma_index_prefix(states, actions, rows, k - 1);
        let v = states[k - 1]->Listing_0;
        let w = states[k]->Listing_0;
        let before = columns_of(rows.subrange(1, k - 1));
        let after = columns_of(rows.subrange(1, k));
        assert(after =~= before.push(rows[k - 1].columns@));
        assert forall|i: int| 0 <= i < after.len() implies shows(#[trigger] after[i], w@[i]) by {
            if i < before.len() {
                assert(w@[i] == w@.drop_last()[i]);
                assert(after[i] == before[i]);
            }
        }
    }
}

/// The listing shows the rows after the first, each as its entry and in the
/// order the rows came: whatever rows the listing query gives, once the
/// first has been dropped every later row adds exactly its own entry.
pub proof fn lemma_index_lists_rows_after_first(states: Seq<Index>, actions: Seq<Action>, rows: Seq<Row>)
    requires
        rows.len() >= 1,
        states.len() == rows.len() + 1,
        actions.len() == rows.len(),
        states[0] is Skipping,
        forall|i: int|
            0 <= i < rows.len() ==> states[i].moves(
                Event::NextRow(Ok(Some(#[trigger] rows[i]))),
                (states[i + 1], actions[i]),
            ),
    ensures
        states.last() matches Index::Listing(v) && lists(v@, columns_of(rows.drop_first())),
{
    lemma_index_prefix(states, actions, rows, rows.len() as int);
    assert(rows.subrange(1, rows.len() as int) =~= rows.drop_first());
}

/// Log-in and sign-up take every outcome of each action they ask for, where
/// the row in it holds an id that can be read.
pub proof fn lemma_login_takes_every_outcome(data: Credentials, s: Login, e: Event, e2: Event)
    ensures
        answers(Login::started(data).1, e2) && (row_of(e2) matches Some(row) ==> IdReply::readable(
            row.columns@,
        )) ==> Login::started(data).0.accepts(e2),
        s.accepts(e) && answers(s.next(e).1, e2) && (row_of(e2) matches Some(row)
            ==> IdReply::readable(row.columns@)) ==> s.next(e).0.accepts(e2),
{
}

/// Publishing takes every outcome of each action it asks for, where the row
/// in it holds an id that can be read.
pub proof fn lemma_publish_takes_every_outcome(
    draft: ArticleDraft,
    id_cookie: Option<Seq<char>>,
    password_cookie: Option<String>,
    r: (Publish, Action),
    s: Publish,
    e: Event,
    e2: Event,
)
    ensures
        Publish::starts(draft, id_cookie, password_cookie, r) && answers(r.1, e2) ==> r.0.accepts(
            e2,
        ),
        s.accepts(e) && answers(s.next(e).1, e2) && (row_of(e2) matches Some(row)
            ==> IdReply::readable(row.columns@)) ==> s.next(e).0.accepts(e2),
{
}

/// The listing takes every outcome of each action it asks for, where the row
/// in it can be shown: in particular, while listing, the end of the rows and a
/// failed read are taken as well as each readable row.
pub proof fn lemma_index_takes_every_outcome(s: Index, e: Event, r: (Index, Action), e2: Event)
    ensures
        answers(Index::started().1, e2) ==> Index::started().0.accepts(e2),
        s.accepts(e) && s.moves(e, r) && answers(r.1, e2) && (row_of(e2) matches Some(row)
            ==> showable_readable(row.columns@)) ==> r.0.accepts(e2),
{
}

/// Reading an id and a listing entry out of rows: an id is the integer of
/// column 0 modulo 2^32, and NULL there gives `NullValue`; a listing entry is
/// the id of column 0 and the title of column 1, with 0 and the empty string
/// standing in for NULL.
pub proof fn lemma_ids_and_entries_read_columns(c: Seq<Value>, i: i64, t: String, a: ShowableArticle)
    ensures
        c.len() >= 1 && c[0] == Value::Integer(i) ==> (IdReply::from_columns(c) matches Ok(reply)
            && reply.id as int == i % 0x1_0000_0000),
        c.len() >= 1 && c[0] is Null ==> IdReply::from_columns(c) == Err::<IdReply, DbError>(
            DbError::NullValue,
        ),
        c.len() >= 2 && c[0] == Value::Integer(i) && shows(c, a) ==> a.id as int == i
            % 0x1_0000_0000,
        c.len() >= 2 && c[0] is Null && shows(c, a) ==> a.id == 0,
        c.len() >= 2 && c[1] == Value::Text(t) && shows(c, a) ==> a.title@ == t@,
        c.len() >= 2 && c[1] is Null && shows(c, a) ==> a.title@.len() == 0,
{
    lemma_low_bits(i);
}

/// The first row that a query gave holds the id `i` in column 0.
pub open spec fn gives_id(outcome: Result<Option<Row>, DbError>, i: i64) -> bool {
    outcome matches Ok(Some(row)) && row.columns@.len() >= 1 && row.columns@[0] == Value::Integer(i)
}

/// The query gave no id: it failed, gave no row, or gave NULL in column 0.
pub open spec fn gives_no_id(outcome: Result<Option<Row>, DbError>) -> bool {
    ||| outcome is Err
    ||| outcome matches Ok(None)
    ||| (outcome matches Ok(Some(row)) && row.columns@.len() >= 1 && row.columns@[0] is Null)
}

/// `a` answers with this status, this cookie and the id `i` modulo 2^32.
pub open spec fn replies_id(a: Action, status: Status, cookie: Option<PasswordCookie>, i: i64) -> bool {
    &&& a matches Action::Respond(response)
    &&& response.status == status
    &&& response.cookie == cookie
    &&& response.body matches Body::Id(reply)
    &&& reply.id as int == i % 0x1_0000_0000
}

/// How log-in and sign-up go: the user with the request's name and password
/// is looked up; where found, the answer is 200 with its id and the password
/// as a site-wide cookie; where not, a user is created with that name and
/// password and the answer is 201 with its id and the password as a cookie
/// without a path, or 500 with no cookie where it cannot be created.
pub proof fn lemma_login_replies(
    data: Credentials,
    found: Result<Option<Row>, DbError>,
    created: Result<Option<Row>, DbError>,
    i: i64,
)
    ensures
        Login::started(data).1 == Action::FetchFirst(
            Statement::FindUserByName { name: data.name, password: data.password },
        ),
        gives_id(found, i) ==> Login::started(data).0.next(Event::FirstRow(found)).0 == Login::Done
            && replies_id(
            Login::started(data).0.next(Event::FirstRow(found)).1,
            Status::Success,
            Some(PasswordCookie { value: data.password, site_wide: true }),
            i,
        ),
        gives_no_id(found) ==> Login::started(data).0.next(Event::FirstRow(found)) == (
            Login::Registering(data),
            Action::FetchFirst(Statement::CreateUser { name: data.name, password: data.password }),
        ),
        gives_id(created, i) ==> replies_id(
            Login::Registering(data).next(Event::FirstRow(created)).1,
            Status::Created,
            Some(PasswordCookie { value: data.password, site_wide: false }),
            i,
        ),
        gives_no_id(created) ==> Login::Registering(data).next(Event::FirstRow(created)) == (
            Login::Done,
            Action::Respond((Response { status: Status::ServerError, cookie: None, body: Body::Empty })),
        ),
{
    lemma_low_bits(i);
}

/// How publishing goes: the `password` cookie is checked against the user
/// that the `id` cookie names (0 where it names none); a failed check is
/// answered 401; after a passed check the article is created with the
/// request's title and body under that user, answered 201 with its id, or 500
/// where it cannot be created, never with a cookie.
pub proof fn lemma_publish_replies(
    draft: ArticleDraft,
    id_cookie: Option<Seq<char>>,
    password_cookie: Option<String>,
    r: (Publish, Action),
    checked: Result<u64, DbError>,
    created: Result<Option<Row>, DbError>,
    i: i64,
)
    ensures
        Publish::starts(draft, id_cookie, password_cookie, r) ==> (r.1 matches Action::Execute(
            Statement::CheckUserById { id: caller, password },
        ) && caller == (match id_cookie {
            Some(c) => match parsed_u32(c) {
                Some(n) => n,
                None => 0u32,
            },
            None => 0u32,
        }) && (password_cookie matches Some(p) ==> password == p) && (password_cookie is None
            ==> password@ == Seq::<char>::empty())),
        Publish::starts(draft, id_cookie, password_cookie, r) && checked is Ok ==> (r.1 matches Action::Execute(
            Statement::CheckUserById { id: caller, .. },
        ) && r.0.next(Event::Executed(checked)).1 == Action::FetchFirst(
            Statement::CreateArticle { title: draft.title, body: draft.body, creator: caller },
        )),
        Publish::starts(draft, id_cookie, password_cookie, r) && checked is Err ==> r.0.next(
            Event::Executed(checked),
        ).1 == Action::Respond((Response { status: Status::Unauthorized, cookie: None, body: Body::Empty })),
        gives_id(created, i) ==> replies_id(
            Publish::Creating.next(Event::FirstRow(created)).1,
            Status::Created,
            None,
            i,
        ),
        gives_no_id(created) ==> Publish::Creating.next(Event::FirstRow(created)) == (
            Publish::Done,
            Action::Respond((Response { status: Status::ServerError, cookie: None, body: Body::Empty })),
        ),
{
    lemma_low_bits(i);
}

/// How the listing ends: a query that cannot be run is answered 500 with no
/// body; otherwise the first step that gives no row, or fails, answers 200
/// with the entries listed so far and no cookie.
pub proof fn lemma_index_replies(
    opened: Result<(), DbError>,
    v: Vec<ShowableArticle>,
    next: Result<Option<Row>, DbError>,
    r: (Index, Action),
)
    ensures
        Index::started().1 == Action::Open(Statement::ListArticles),
        opened is Err && Index::Opening.moves(Event::Opened(opened), r) ==> r == (
            Index::Done,
            Action::Respond((Response { status: Status::ServerError, cookie: None, body: Body::Empty })),
        ),
        opened is Ok && Index::Opening.moves(Event::Opened(opened), r) ==> r == (
            Index::Skipping,
            Action::Next,
        ),
        !(next matches Ok(Some(_))) && Index::Listing(v).moves(Event::NextRow(next), r) ==> r == (
            Index::Done,
            Action::Respond(
                (Response { status: Status::Success, cookie: None, body: Body::Articles(v) }),
            ),
        ),
{
}

} // verus!
