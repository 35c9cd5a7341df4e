//! `GET` endpoints: the static pages, `GET /user/{id}` and `GET /article/{id}`.
use crate::database::{
    column_is_integer, column_is_null, column_is_text, first_row_as, first_row_is_readable,
    first_row_readable, integer_readable, lemma_low_bits, read_first_row, read_text, read_u32,
    take_first, text_of, text_readable, u32_of, DbError, FromRow, Row, Statement, Value,
};
use crate::http::{answers, row_of, bare, bare_response, Action, Body, Event, Response, Status};
use vstd::prelude::*;

verus! {

/// The pages that are served as files.
#[derive(Debug, Clone, Copy, PartialEq, Eq, Structural)]
pub enum Page {
    /// `GET /favicon.ico`
    Favicon,
    /// `GET /`
    Home,
    /// `GET /login`
    Login,
    /// `GET /create`
    Create,
    /// `GET /user`
    User,
    /// `GET /article`
    Article,
}

impl Page {
    /// The file that holds the page.
    pub open spec fn path(self) -> &'static str {
        match self {
            Page::Favicon => "./static/favicon.ico",
            Page::Home => "./html/index.html",
            Page::Login => "./html/login.html",
            Page::Create => "./html/create.html",
            Page::User => "./html/user.html",
            Page::Article => "./html/article.html",
        }
    }

    /// The file that holds the page.
    pub fn file(self) -> (path: &'static str)
        ensures
            path == self.path(),
    {
        match self {
            Page::Favicon => "./static/favicon.ico",
            Page::Home => "./html/index.html",
            Page::Login => "./html/login.html",
            Page::Create => "./html/create.html",
            Page::User => "./html/user.html",
            Page::Article => "./html/article.html",
        }
    }
}

/// The id and title of one article of a user.
#[derive(Debug, PartialEq)]
pub struct AttachedArticle {
    pub id: u32,
    pub title: String,
}

/// A user as `GET /user/{id}` shows it: its name and its articles.
#[derive(Debug, PartialEq)]
pub struct User {
    pub name: String,
    pub articles: Vec<AttachedArticle>,
}

/// An article as `GET /article/{id}` shows it.
#[derive(Debug, PartialEq)]
pub struct Article {
    pub title: String,
    pub body: String,
    pub creator: u32,
}

impl FromRow for AttachedArticle {
    /// Column 0 is read as the id and, where it is not NULL, column 1 as the title.
    open spec fn readable(c: Seq<Value>) -> bool {
        integer_readable(c, 0) && (c[0] is Null || text_readable(c, 1))
    }

    open spec fn from_columns(c: Seq<Value>) -> Result<AttachedArticle, DbError> {
        match u32_of(c[0]) {
            Err(e) => Err(e),
            Ok(id) => match text_of(c[1]) {
                Err(e) => Err(e),
                Ok(title) => Ok(AttachedArticle { id, title }),
            },
        }
    }

    fn is_readable(row: &Row) -> (b: bool) {
        column_is_integer(&row.columns, 0) && (column_is_null(&row.columns, 0) || column_is_text(
            &row.columns,
            1,
        ))
    }

    fn from_row(row: Row) -> (r: Result<AttachedArticle, DbError>) {
        let mut columns = row.columns;
        let ghost c = columns@;
        let id: u32 = match read_u32(take_first(&mut columns)) {
            Ok(id) => id,
            Err(e) => return Err(e),
        };
        assert(columns@[0] == c[1]);
        let title = match read_text(take_first(&mut columns)) {
            Ok(title) => title,
            Err(e) => return Err(e),
        };
        Ok(AttachedArticle { id, title })
    }
}

impl FromRow for Article {
    /// Columns 0, 1 and 2 are read in turn as title, body and creator, each
    /// only where the ones before it were not NULL.
    open spec fn readable(c: Seq<Value>) -> bool {
        text_readable(c, 0) && (c[0] is Null || (text_readable(c, 1) && (c[1] is Null
            || integer_readable(c, 2))))
    }

    open spec fn from_columns(c: Seq<Value>) -> Result<Article, DbError> {
        match text_of(c[0]) {
            Err(e) => Err(e),
            Ok(title) => match text_of(c[1]) {
                Err(e) => Err(e),
                Ok(body) => match u32_of(c[2]) {
                    Err(e) => Err(e),
                    Ok(creator) => Ok(Article { title, body, creator }),
                },
            },
        }
    }

    fn is_readable(row: &Row) -> (b: bool) {
        let c = &row.columns;
        column_is_text(c, 0) && (column_is_null(c, 0) || (column_is_text(c, 1) && (column_is_null(
            c,
            1,
        ) || column_is_integer(c, 2))))
    }

    fn from_row(row: Row) -> (r: Result<Article, DbError>) {
        let mut columns = row.columns;
        let ghost c = columns@;
        let title = match read_text(take_first(&mut columns)) {
            Ok(title) => title,
            Err(e) => return Err(e),
        };
        assert(columns@[0] == c[1]);
        let body = match read_text(take_first(&mut columns)) {
            Ok(body) => body,
            Err(e) => return Err(e),
        };
        assert(columns@[0] == c[2]);
        let creator: u32 = match read_u32(take_first(&mut columns)) {
            Ok(creator) => creator,
            Err(e) => return Err(e),
        };
        Ok(Article { title, body, creator })
    }
}

impl User {
    /// Reading a row with these columns does not abort: column 0 is the name.
    pub open spec fn readable(c: Seq<Value>) -> bool {
        text_readable(c, 0)
    }

    /// Whether reading a user out of `row` does not abort.
    pub fn is_readable(row: &Row) -> (b: bool)
        ensures
            b == Self::readable(row.columns@),
    {
        column_is_text(&row.columns, 0)
    }

    /// `r` is what reading a user out of a row with these columns gives: the
    /// name from column 0 and no articles yet.
    pub open spec fn read_from(c: Seq<Value>, r: Result<User, DbError>) -> bool {
        match text_of(c[0]) {
            Ok(name) => r matches Ok(u) && u.name == name && u.articles@ == Seq::<
                AttachedArticle,
            >::empty(),
            Err(e) => r == Err::<User, DbError>(e),
        }
    }

    /// Reads a user out of `row`.
    pub fn from_row(row: Row) -> (r: Result<User, DbError>)
        requires
            Self::readable(row.columns@),
        ensures
            Self::read_from(row.columns@, r),
    {
        let mut columns = row.columns;
        match read_text(take_first(&mut columns)) {
            Ok(name) => Ok(User { name, articles: Vec::new() }),
            Err(e) => Err(e),
        }
    }

    /// Reads a user out of the row that a query gave first; a query that gave
    /// no row is the error `QueryReturnedNoRows`.
    pub fn from_option_row(option: Option<Row>) -> (r: Result<User, DbError>)
        requires
            option matches Some(row) ==> Self::readable(row.columns@),
        ensures
            match option {
                Some(row) => Self::read_from(row.columns@, r),
                None => r == Err::<User, DbError>(DbError::QueryReturnedNoRows),
            },
    {
        match option {
            Some(row) => Self::from_row(row),
            None => Err(DbError::QueryReturnedNoRows),
        }
    }
}

/// `GET /article/{id}`.
#[derive(Debug, PartialEq)]
pub enum ShowArticle {
    /// The article is being read.
    Fetching,
    /// The response is given.
    Done,
}

impl ShowArticle {
    /// Whether the state accepts `e`.
    pub fn admits(&self, e: &Event) -> (b: bool)
        ensures
            b == self.accepts(*e),
    {
        match (self, e) {
            (ShowArticle::Fetching, Event::FirstRow(outcome)) => first_row_is_readable::<Article>(outcome),
            _ => false,
        }
    }

    /// The endpoint starts by reading article `id`.
    pub open spec fn started(id: u32) -> (ShowArticle, Action) {
        (ShowArticle::Fetching, Action::FetchFirst(Statement::GetArticle { id }))
    }

    /// Starts the endpoint.
    pub fn articles(id: u32) -> (r: (ShowArticle, Action))
        ensures
            r == Self::started(id),
    {
        (ShowArticle::Fetching, Action::FetchFirst(Statement::GetArticle { id }))
    }

    /// The events that the state accepts.
    pub open spec fn accepts(self, e: Event) -> bool {
        match self {
            ShowArticle::Fetching => e matches Event::FirstRow(outcome)
                && first_row_readable::<Article>(outcome),
            ShowArticle::Done => false,
        }
    }

    /// The state and action that follow `e`: the article with 200 where it
    /// could be read, 404 otherwise.
    pub open spec fn next(self, e: Event) -> (ShowArticle, Action) {
        match e {
            Event::FirstRow(outcome) => match first_row_as::<Article>(outcome) {
                Ok(article) => (
                    ShowArticle::Done,
                    Action::Respond(
                        Response { status: Status::Success, cookie: None, body: Body::Article(article) },
                    ),
                ),
                Err(_) => (ShowArticle::Done, Action::Respond(bare(Status::NotFound))),
            },
            _ => (ShowArticle::Done, Action::Respond(bare(Status::NotFound))),
        }
    }

    /// Takes the outcome of the last action.
    pub fn step(self, e: Event) -> (r: (ShowArticle, Action))
        requires
            self.accepts(e),
        ensures
            r == self.next(e),
    {
        match e {
            Event::FirstRow(outcome) => match read_first_row::<Article>(outcome) {
                Ok(article) => (
                    ShowArticle::Done,
                    Action::Respond(
                        Response { status: Status::Success, cookie: None, body: Body::Article(article) },
                    ),
                ),
                Err(_) => (ShowArticle::Done, Action::Respond(bare_response(Status::NotFound))),
            },
            _ => (ShowArticle::Done, Action::Respond(bare_response(Status::NotFound))),
        }
    }
}

/// `r` ends the exchange with 200 and a user with this name and these
/// articles.
pub open spec fn responds_user(r: (ShowUser, Action), name: String, articles: Seq<AttachedArticle>) -> bool {
    &&& r.0 == ShowUser::Done
    &&& r.1 matches Action::Respond(response)
    &&& response.status == Status::Success
    &&& response.cookie is None
    &&& response.body matches Body::User(user)
    &&& user.name == name
    &&& user.articles@ == articles
}

/// `GET /user/{id}`: the user's name and the id and title of each of its
/// articles.
///
/// A user that cannot be read is answered 404. The articles are read one row
/// at a time; where the article query cannot be run, or a row cannot be read
/// or fails to give an article, the user is shown with no articles at all.
#[derive(Debug, PartialEq)]
pub enum ShowUser {
    /// User `id` is being read.
    Fetching { id: u32 },
    /// The query of the user's articles is being run.
    Opening { user: User },
    /// These articles of the user are read so far.
    Listing { user: User, found: Vec<AttachedArticle> },
    /// The response is given.
    Done,
}

impl ShowUser {
    /// Whether the state accepts `e`.
    pub fn admits(&self, e: &Event) -> (b: bool)
        ensures
            b == self.accepts(*e),
    {
        match (self, e) {
            (ShowUser::Fetching { .. }, Event::FirstRow(Ok(Some(row)))) => User::is_readable(row),
            (ShowUser::Fetching { .. }, Event::FirstRow(_)) => true,
            (ShowUser::Opening { .. }, Event::Opened(_)) => true,
            (ShowUser::Listing { .. }, Event::NextRow(Ok(Some(row)))) => AttachedArticle::is_readable(row),
            (ShowUser::Listing { .. }, Event::NextRow(_)) => true,
            _ => false,
        }
    }

    /// The endpoint starts by reading user `id`.
    pub open spec fn started(id: u32) -> (ShowUser, Action) {
        (ShowUser::Fetching { id }, Action::FetchFirst(Statement::GetUser { id }))
    }

    /// Starts the endpoint.
    pub fn users(id: u32) -> (r: (ShowUser, Action))
        ensures
            r == Self::started(id),
    {
        (ShowUser::Fetching { id }, Action::FetchFirst(Statement::GetUser { id }))
    }

    /// The events that the state accepts.
    pub open spec fn accepts(self, e: Event) -> bool {
        match self {
            ShowUser::Fetching { .. } => e matches Event::FirstRow(outcome) && (outcome matches Ok(
                Some(row),
            ) ==> User::readable(row.columns@)),
            ShowUser::Opening { .. } => e is Opened,
            ShowUser::Listing { .. } => e matches Event::NextRow(outcome) && (outcome matches Ok(
                Some(row),
            ) ==> AttachedArticle::readable(row.columns@)),
            ShowUser::Done => false,
        }
    }

    /// `r` is the state and action that follow `e`.
    pub open spec fn moves(self, e: Event, r: (ShowUser, Action)) -> bool {
        match self {
            ShowUser::Fetching { id } => match e {
                Event::FirstRow(Ok(Some(row))) => match text_of(row.columns@[0]) {
                    Ok(name) => {
                        &&& r.0 matches ShowUser::Opening { user }
                        &&& user.name == name
                        &&& user.articles@.len() == 0
                        &&& r.1 == Action::Open(Statement::FindArticles { creator: id })
                    },
                    Err(_) => r == (ShowUser::Done, Action::Respond(bare(Status::NotFound))),
                },
                _ => r == (ShowUser::Done, Action::Respond(bare(Status::NotFound))),
            },
            ShowUser::Opening { user } => match e {
                Event::Opened(Ok(_)) => {
                    &&& r.0 matches ShowUser::Listing { user: u, found }
                    &&& u == user
                    &&& found@.len() == 0
                    &&& r.1 == Action::Next
                },
                _ => responds_user(r, user.name, Seq::empty()),
            },
            ShowUser::Listing { user, found } => match e {
                Event::NextRow(Ok(Some(row))) => match AttachedArticle::from_columns(row.columns@) {
                    Ok(a) => {
                        &&& r.0 matches ShowUser::Listing { user: u, found: f }
                        &&& u == user
                        &&& f@ == found@.push(a)
                        &&& r.1 == Action::Next
                    },
                    Err(_) => responds_user(r, user.name, Seq::empty()),
                },
                Event::NextRow(Ok(None)) => responds_user(r, user.name, found@),
                _ => responds_user(r, user.name, Seq::empty()),
            },
            ShowUser::Done => false,
        }
    }

    /// Takes the outcome of the last action.
    pub fn step(self, e: Event) -> (r: (ShowUser, Action))
        requires
            self.accepts(e),
        ensures
            self.moves(e, r),
    {
        match self {
            ShowUser::Fetching { id } => match e {
                Event::FirstRow(Ok(option)) => match User::from_option_row(option) {
                    Ok(user) => (
                        ShowUser::Opening { user },
                        Action::Open(Statement::FindArticles { creator: id }),
                    ),
                    Err(_) => (ShowUser::Done, Action::Respond(bare_response(Status::NotFound))),
                },
                _ => (ShowUser::Done, Action::Respond(bare_response(Status::NotFound))),
            },
            ShowUser::Opening { user } => match e {
                Event::Opened(Ok(_)) => (
                    ShowUser::Listing { user, found: Vec::new() },
                    Action::Next,
                ),
                _ => (ShowUser::Done, Action::Respond(user_response(user, Vec::new()))),
            },
            ShowUser::Listing { user, found } => match e {
                Event::NextRow(Ok(Some(row))) => match AttachedArticle::from_row(row) {
                    Ok(a) => {
                        let mut f = found;
                        f.push(a);
                        (ShowUser::Listing { user, found: f }, Action::Next)
                    },
                    Err(_) => (ShowUser::Done, Action::Respond(user_response(user, Vec::new()))),
                },
                Event::NextRow(Ok(None)) => (
                    ShowUser::Done,
                    Action::Respond(user_response(user, found)),
                ),
                _ => (ShowUser::Done, Action::Respond(user_response(user, Vec::new()))),
            },
            ShowUser::Done => (ShowUser::Done, Action::Respond(bare_response(Status::NotFound))),
        }
    }
}

/// The 200 response that shows `user` with these articles.
fn user_response(user: User, articles: Vec<AttachedArticle>) -> (response: Response)
    ensures
        response.status == Status::Success,
        response.cookie is None,
        response.body matches Body::User(u) && u.name == user.name && u.articles@ == articles@,
{
    let mut user = user;
    user.articles = articles;
    Response { status: Status::Success, cookie: None, body: Body::User(user) }
}

/// The articles that these rows give, where each gives one.
pub open spec fn articles_of(rows: Seq<Row>) -> Seq<AttachedArticle> {
    rows.map_values(|row: Row| AttachedArticle::from_columns(row.columns@)->Ok_0)
}

proof fn lemma_user_articles_prefix(states: Seq<ShowUser>, actions: Seq<Action>, rows: Seq<Row>, k: int)
    requires
        0 <= k <= rows.len(),
        states.len() == rows.len() + 1,
        actions.len() == rows.len(),
        states[0] matches ShowUser::Listing { found, .. } && found@.len() == 0,
        forall|i: int| 0 <= i < rows.len() ==> (AttachedArticle::from_columns(
            #[trigger] rows[i].columns@,
        ) is Ok),
        forall|i: int|
            0 <= i < rows.len() ==> states[i].moves(
                Event::NextRow(Ok(Some(#[trigger] rows[i]))),
                (states[i + 1], actions[i]),
            ),
    ensures
        states[k] matches ShowUser::Listing { user, found } && user == states[0]->Listing_user
            && found@ == articles_of(rows.take(k)),
    decreases k,
{
    if k == 0 {
        assert(articles_of(rows.take(0)) =~= Seq::<AttachedArticle>::empty());
    } else {
        lemma_user_articles_prefix(states, actions, rows, k - 1);
        let e = Event::NextRow(Ok(Some(rows[k - 1])));
        assert(states[k - 1].moves(e, (states[k], actions[k - 1])));
        assert(AttachedArticle::from_columns(rows[k - 1].columns@) is Ok);
        assert(articles_of(rows.take(k)) =~= articles_of(rows.take(k - 1)).push(
            AttachedArticle::from_columns(rows[k - 1].columns@)->Ok_0,
        ));
    }
}

/// A user is shown with every article that its rows give, in the order the
/// rows came, where each row gives an article and the rows then run out.
pub proof fn lemma_user_lists_all_articles(
    states: Seq<ShowUser>,
    actions: Seq<Action>,
    rows: Seq<Row>,
    last: (ShowUser, Action),
)
    requires
        states.len() == rows.len() + 1,
        actions.len() == rows.len(),
        states[0] matches ShowUser::Listing { found, .. } && found@.len() == 0,
        forall|i: int| 0 <= i < rows.len() ==> (AttachedArticle::from_columns(
            #[trigger] rows[i].columns@,
        ) is Ok),
        forall|i: int|
            0 <= i < rows.len() ==> states[i].moves(
                Event::NextRow(Ok(Some(#[trigger] rows[i]))),
                (states[i + 1], actions[i]),
            ),
        states.last().moves(Event::NextRow(Ok(None)), last),
    ensures
        last.0 == ShowUser::Done,
        replies_user(last.1, states[0]->Listing_user.name, articles_of(rows)),
{
    lemma_user_articles_prefix(states, actions, rows, rows.len() as int);
    assert(rows.take(rows.len() as int) =~= rows);
}

/// A row that fails to give an article drops every article found so far: the
/// user is shown with none.
pub proof fn lemma_user_unreadable_article_drops_all(
    user: User,
    found: Vec<AttachedArticle>,
    row: Row,
    r: (ShowUser, Action),
)
    requires
        AttachedArticle::from_columns(row.columns@) is Err,
        (ShowUser::Listing { user, found }).moves(Event::NextRow(Ok(Some(row))), r),
    ensures
        r.0 == ShowUser::Done,
        replies_user_without_articles(r.1, user.name),
{
}

/// Showing an article takes every outcome of the query it asks for, where the
/// row in it can be read as an article.
pub proof fn lemma_show_article_takes_every_outcome(id: u32, e2: Event)
    ensures
        answers(ShowArticle::started(id).1, e2) && (row_of(e2) matches Some(row)
            ==> Article::readable(row.columns@)) ==> ShowArticle::started(id).0.accepts(e2),
{
}

/// Showing a user takes every outcome of each action it asks for, where the
/// row in it can be read: as a user for the first query, as an article while
/// listing. While listing, the end of the rows and a failed read are taken as
/// well as each readable row.
pub proof fn lemma_show_user_takes_every_outcome(
    id: u32,
    s: ShowUser,
    e: Event,
    r: (ShowUser, Action),
    e2: Event,
)
    ensures
        answers(ShowUser::started(id).1, e2) && (row_of(e2) matches Some(row) ==> User::readable(
            row.columns@,
        )) ==> ShowUser::started(id).0.accepts(e2),
        s.accepts(e) && s.moves(e, r) && answers(r.1, e2) && (row_of(e2) matches Some(row)
            ==> AttachedArticle::readable(row.columns@)) ==> r.0.accepts(e2),
{
}

/// Reading records out of rows: an article is the title, body and creator of
/// columns 0, 1 and 2, the creator being the integer modulo 2^32; a user's
/// article is the id and title of columns 0 and 1; a user is the name of
/// column 0, with no articles yet. A NULL in a column that is read gives
/// `NullValue`, and the columns after it are not read.
pub proof fn lemma_records_read_columns(c: Seq<Value>, t: String, b: String, i: i64, r: Result<User, DbError>)
    ensures
        c.len() >= 3 && c[0] == Value::Text(t) && c[1] == Value::Text(b) && c[2] == Value::Integer(i)
            ==> (Article::from_columns(c) matches Ok(a) && a.title == t && a.body == b
            && a.creator as int == i % 0x1_0000_0000),
        c.len() >= 1 && c[0] is Null ==> Article::from_columns(c) == Err::<Article, DbError>(
            DbError::NullValue,
        ),
        c.len() >= 2 && c[0] is Text && c[1] is Null ==> Article::from_columns(c) == Err::<
            Article,
            DbError,
        >(DbError::NullValue),
        c.len() >= 3 && c[0] is Text && c[1] is Text && c[2] is Null ==> Article::from_columns(c)
            == Err::<Article, DbError>(DbError::NullValue),
        c.len() >= 2 && c[0] == Value::Integer(i) && c[1] == Value::Text(t)
            ==> (AttachedArticle::from_columns(c) matches Ok(a) && a.title == t && a.id as int == i
            % 0x1_0000_0000),
        c.len() >= 1 && c[0] is Null ==> AttachedArticle::from_columns(c) == Err::<
            AttachedArticle,
            DbError,
        >(DbError::NullValue),
        c.len() >= 2 && c[0] is Integer && c[1] is Null ==> AttachedArticle::from_columns(c) == Err::<
            AttachedArticle,
            DbError,
        >(DbError::NullValue),
        c.len() >= 1 && c[0] == Value::Text(t) && User::read_from(c, r) ==> (r matches Ok(u) && u.name
            == t && u.articles@.len() == 0),
        c.len() >= 1 && c[0] is Null && User::read_from(c, r) ==> r == Err::<User, DbError>(
            DbError::NullValue,
        ),
{
    lemma_low_bits(i);
}

/// Each page is served from its file.
pub proof fn lemma_page_files()
    ensures
        Page::Favicon.path() == "./static/favicon.ico",
        Page::Home.path() == "./html/index.html",
        Page::Login.path() == "./html/login.html",
        Page::Create.path() == "./html/create.html",
        Page::User.path() == "./html/user.html",
        Page::Article.path() == "./html/article.html",
{
}

/// `a` answers 200, with no cookie, an article with this title and body and
/// the creator `i` modulo 2^32.
pub open spec fn replies_article(a: Action, t: String, b: String, i: i64) -> bool {
    &&& a matches Action::Respond(response)
    &&& response.status == Status::Success
    &&& response.cookie is None
    &&& response.body matches Body::Article(article)
    &&& article.title == t
    &&& article.body == b
    &&& article.creator as int == i % 0x1_0000_0000
}

/// `a` answers 200, with no cookie, a user with this name and these articles.
pub open spec fn replies_user(a: Action, name: String, articles: Seq<AttachedArticle>) -> bool {
    &&& a matches Action::Respond(response)
    &&& response.status == Status::Success
    &&& response.cookie is None
    &&& response.body matches Body::User(u)
    &&& u.name == name
    &&& u.articles@ == articles
}

/// `a` answers 200, with no cookie, a user with this name and no articles.
pub open spec fn replies_user_without_articles(a: Action, name: String) -> bool {
    &&& a matches Action::Respond(response)
    &&& response.status == Status::Success
    &&& response.cookie is None
    &&& response.body matches Body::User(u)
    &&& u.name == name
    &&& u.articles@.len() == 0
}

/// How showing an article goes: article `id` is read; where it is read it is
/// answered 200 with its title, body and creator and no cookie; where the
/// query fails, gives no row or gives a NULL column, 404 with no body.
pub proof fn lemma_show_article_replies(id: u32, outcome: Result<Option<Row>, DbError>, t: String, b: String, i: i64)
    ensures
        ShowArticle::started(id).1 == Action::FetchFirst(Statement::GetArticle { id }),
        (outcome matches Ok(Some(row)) && row.columns@.len() >= 3 && row.columns@[0] == Value::Text(t)
            && row.columns@[1] == Value::Text(b) && row.columns@[2] == Value::Integer(i))
            ==> replies_article(ShowArticle::Fetching.next(Event::FirstRow(outcome)).1, t, b, i),
        (outcome is Err || outcome matches Ok(None) || (outcome matches Ok(Some(row))
            && row.columns@.len() >= 1 && row.columns@[0] is Null)) ==> ShowArticle::Fetching.next(
            Event::FirstRow(outcome),
        ) == (
            ShowArticle::Done,
            Action::Respond((Response { status: Status::NotFound, cookie: None, body: Body::Empty })),
        ),
{
    lemma_low_bits(i);
}

/// How showing a user goes: user `id` is read, and where it cannot be (the
/// query fails, gives no row, or a NULL name) the answer is 404 with no body;
/// otherwise the articles whose creator is `id` are queried, and where that
/// query cannot be run the user is answered 200 with its name and no articles.
pub proof fn lemma_show_user_replies(
    id: u32,
    outcome: Result<Option<Row>, DbError>,
    name: String,
    r: (ShowUser, Action),
    user: User,
    opened: Result<(), DbError>,
    r2: (ShowUser, Action),
)
    ensures
        ShowUser::started(id).1 == Action::FetchFirst(Statement::GetUser { id }),
        (outcome is Err || outcome matches Ok(None) || (outcome matches Ok(Some(row))
            && row.columns@.len() >= 1 && row.columns@[0] is Null)) && ShowUser::started(id).0.moves(
            Event::FirstRow(outcome),
            r,
        ) ==> r == (
            ShowUser::Done,
            Action::Respond((Response { status: Status::NotFound, cookie: None, body: Body::Empty })),
        ),
        (outcome matches Ok(Some(row)) && row.columns@.len() >= 1 && row.columns@[0] == Value::Text(
            name,
        )) && ShowUser::started(id).0.moves(Event::FirstRow(outcome), r) ==> (r.0 matches ShowUser::Opening { user: u }
            && u.name == name && r.1 == Action::Open(Statement::FindArticles { creator: id })),
        opened is Err && (ShowUser::Opening { user }).moves(Event::Opened(opened), r2) ==> (r2.0
            == ShowUser::Done && replies_user_without_articles(r2.1, user.name)),
{
}

} // verus!
