use blog::database::{DbError, Row, Statement, Value};
use blog::http::{Action, Body, Event, PasswordCookie, Response, Status};
use blog::services::delete::{DeleteArticle, DeleteUser};
use blog::services::get::{Article, AttachedArticle, Page, ShowArticle, ShowUser, User};
use blog::services::post::{ArticleDraft, IdReply, Index, Login, Publish, ShowableArticle};
use blog::services::put::{ArticleEdit, UpdateArticle, UpdateUser};
use blog::services::Credentials;

fn s(x: &str) -> String {
    x.to_string()
}

fn row(columns: Vec<Value>) -> Row {
    Row { columns }
}

fn id_row(id: i64) -> Event {
    Event::FirstRow(Ok(Some(row(vec![Value::Integer(id)]))))
}

fn bare(status: Status) -> Action {
    Action::Respond(Response { status, cookie: None, body: Body::Empty })
}

fn creds(name: &str, password: &str) -> Credentials {
    Credentials { name: s(name), password: s(password) }
}

#[test]
fn login_with_known_user() {
    let (state, action) = Login::user(creds("ann", "pw"));
    assert_eq!(action, Action::FetchFirst(Statement::FindUserByName { name: s("ann"), password: s("pw") }));
    assert!(state.admits(&id_row(4)));
    let (state, action) = state.step(id_row(4));
    assert_eq!(state, Login::Done);
    assert_eq!(
        action,
        Action::Respond(Response {
            status: Status::Success,
            cookie: Some(PasswordCookie { value: s("pw"), site_wide: true }),
            body: Body::Id(IdReply { id: 4 }),
        })
    );
}

#[test]
fn login_signs_up_unknown_user() {
    let (state, _) = Login::user(creds("bob", "secret"));
    let (state, action) = state.step(Event::FirstRow(Ok(None)));
    assert_eq!(action, Action::FetchFirst(Statement::CreateUser { name: s("bob"), password: s("secret") }));
    let (state, action) = state.step(id_row(11));
    assert_eq!(state, Login::Done);
    assert_eq!(
        action,
        Action::Respond(Response {
            status: Status::Created,
            cookie: Some(PasswordCookie { value: s("secret"), site_wide: false }),
            body: Body::Id(IdReply { id: 11 }),
        })
    );
}

#[test]
fn login_sign_up_failure_is_500() {
    let (state, _) = Login::user(creds("bob", "secret"));
    let (state, _) = state.step(Event::FirstRow(Err(DbError::Failed)));
    let (_, action) = state.step(Event::FirstRow(Err(DbError::Failed)));
    assert_eq!(action, bare(Status::ServerError));
}

#[test]
fn login_null_id_counts_as_not_found() {
    let (state, _) = Login::user(creds("bob", "secret"));
    let (state, action) = state.step(Event::FirstRow(Ok(Some(row(vec![Value::Null])))));
    assert!(matches!(state, Login::Registering(_)));
    assert!(matches!(action, Action::FetchFirst(Statement::CreateUser { .. })));
}

#[test]
fn login_rejects_unreadable_row() {
    let (state, _) = Login::user(creds("bob", "secret"));
    assert!(!state.admits(&Event::FirstRow(Ok(Some(row(vec![Value::Text(s("1"))]))))));
    assert!(!state.admits(&Event::Executed(Ok(0))));
}

#[test]
fn publish_checks_cookie_user() {
    let draft = ArticleDraft { title: s("T"), body: s("B") };
    let (state, action) = Publish::article(draft, Some("3"), Some(s("pw")));
    assert_eq!(action, Action::Execute(Statement::CheckUserById { id: 3, password: s("pw") }));
    let (state, action) = state.step(Event::Executed(Ok(0)));
    assert_eq!(
        action,
        Action::FetchFirst(Statement::CreateArticle { title: s("T"), body: s("B"), creator: 3 })
    );
    let (state, action) = state.step(id_row(21));
    assert_eq!(state, Publish::Done);
    assert_eq!(
        action,
        Action::Respond(Response { status: Status::Created, cookie: None, body: Body::Id(IdReply { id: 21 }) })
    );
}

#[test]
fn publish_without_cookies_uses_defaults() {
    let draft = ArticleDraft { title: s("T"), body: s("B") };
    let (_, action) = Publish::article(draft, None, None);
    assert_eq!(action, Action::Execute(Statement::CheckUserById { id: 0, password: s("") }));
    let draft = ArticleDraft { title: s("T"), body: s("B") };
    let (_, action) = Publish::article(draft, Some("x9"), None);
    assert_eq!(action, Action::Execute(Statement::CheckUserById { id: 0, password: s("") }));
}

#[test]
fn publish_refused_is_401() {
    let draft = ArticleDraft { title: s("T"), body: s("B") };
    let (state, _) = Publish::article(draft, Some("3"), Some(s("pw")));
    let (state, action) = state.step(Event::Executed(Err(DbError::Failed)));
    assert_eq!(state, Publish::Done);
    assert_eq!(action, bare(Status::Unauthorized));
}

#[test]
fn publish_creation_failure_is_500() {
    let draft = ArticleDraft { title: s("T"), body: s("B") };
    let (state, _) = Publish::article(draft, Some("3"), Some(s("pw")));
    let (state, _) = state.step(Event::Executed(Ok(0)));
    let (_, action) = state.step(Event::FirstRow(Ok(None)));
    assert_eq!(action, bare(Status::ServerError));
}

#[test]
fn update_user_flow() {
    let (state, action) = UpdateUser::users(5, creds("new", "npw"), Some(s("old")));
    assert_eq!(action, Action::Execute(Statement::CheckUserById { id: 5, password: s("old") }));
    let (state, action) = state.step(Event::Executed(Ok(0)));
    assert_eq!(
        action,
        Action::FetchFirst(Statement::UpdateUser { id: 5, name: s("new"), password: s("npw") })
    );
    let (_, action) = state.step(Event::FirstRow(Ok(Some(row(vec![])))));
    assert_eq!(
        action,
        Action::Respond(Response {
            status: Status::Success,
            cookie: Some(PasswordCookie { value: s("npw"), site_wide: true }),
            body: Body::Empty,
        })
    );
}

#[test]
fn update_user_without_returned_row_is_500() {
    let (state, _) = UpdateUser::users(5, creds("new", "npw"), Some(s("old")));
    let (state, _) = state.step(Event::Executed(Ok(0)));
    let (state, action) = state.step(Event::FirstRow(Ok(None)));
    assert_eq!(state, UpdateUser::Done);
    assert_eq!(action, bare(Status::ServerError));
}

#[test]
fn update_user_refused_is_401() {
    let (state, _) = UpdateUser::users(5, creds("new", "npw"), None);
    let (_, action) = state.step(Event::Executed(Err(DbError::Failed)));
    assert_eq!(action, bare(Status::Unauthorized));
}

#[test]
fn update_article_checks_named_creator() {
    let edit = ArticleEdit { title: s("T2"), body: s("B2"), creator: 8 };
    let (state, action) = UpdateArticle::articles(30, edit, Some(s("pw")));
    assert_eq!(action, Action::Execute(Statement::CheckUserById { id: 8, password: s("pw") }));
    let (state, action) = state.step(Event::Executed(Ok(0)));
    assert_eq!(
        action,
        Action::Execute(Statement::UpdateArticle { id: 30, title: s("T2"), body: s("B2") })
    );
    let (_, action) = state.step(Event::Executed(Ok(1)));
    assert_eq!(action, bare(Status::Success));
}

#[test]
fn update_article_outcomes() {
    let edit = ArticleEdit { title: s("T2"), body: s("B2"), creator: 8 };
    let (state, _) = UpdateArticle::articles(30, edit, Some(s("pw")));
    let (_, action) = state.step(Event::Executed(Err(DbError::Failed)));
    assert_eq!(action, bare(Status::Unauthorized));
    let edit = ArticleEdit { title: s("T2"), body: s("B2"), creator: 8 };
    let (state, _) = UpdateArticle::articles(30, edit, Some(s("pw")));
    let (state, _) = state.step(Event::Executed(Ok(0)));
    let (_, action) = state.step(Event::Executed(Err(DbError::Failed)));
    assert_eq!(action, bare(Status::ServerError));
}

#[test]
fn delete_user_flow() {
    let (state, action) = DeleteUser::users(2, Some(s("pw")));
    assert_eq!(action, Action::Execute(Statement::CheckUserById { id: 2, password: s("pw") }));
    let (state, action) = state.step(Event::Executed(Ok(0)));
    assert_eq!(action, Action::Execute(Statement::DeleteUser { id: 2 }));
    let (state, action) = state.step(Event::Executed(Ok(1)));
    assert_eq!(state, DeleteUser::Done);
    assert_eq!(action, bare(Status::NoContent));
    assert!(!state.admits(&Event::Executed(Ok(1))));
}

#[test]
fn delete_user_outcomes() {
    let (state, _) = DeleteUser::users(2, None);
    let (_, action) = state.step(Event::Executed(Err(DbError::Failed)));
    assert_eq!(action, bare(Status::NotFound));
    let (state, _) = DeleteUser::users(2, None);
    let (state, _) = state.step(Event::Executed(Ok(0)));
    let (_, action) = state.step(Event::Executed(Err(DbError::Failed)));
    assert_eq!(action, bare(Status::ServerError));
}

#[test]
fn delete_article_flow() {
    let (state, action) = DeleteArticle::articles(40, Some("6"), Some(s("pw")));
    assert_eq!(action, Action::Execute(Statement::CheckUserById { id: 6, password: s("pw") }));
    let (state, action) = state.step(Event::Executed(Ok(0)));
    assert_eq!(action, Action::Execute(Statement::DeleteArticle { id: 40 }));
    let (_, action) = state.step(Event::Executed(Ok(1)));
    assert_eq!(action, bare(Status::NoContent));
}

#[test]
fn delete_article_refused_is_404() {
    let (state, _) = DeleteArticle::articles(40, None, None);
    let (_, action) = state.step(Event::Executed(Err(DbError::Failed)));
    assert_eq!(action, bare(Status::NotFound));
}

#[test]
fn show_article_found_and_missing() {
    let (state, action) = ShowArticle::articles(12);
    assert_eq!(action, Action::FetchFirst(Statement::GetArticle { id: 12 }));
    let event = Event::FirstRow(Ok(Some(row(vec![
        Value::Text(s("T")),
        Value::Text(s("B")),
        Value::Integer(3),
    ]))));
    let (_, action) = state.step(event);
    assert_eq!(
        action,
        Action::Respond(Response {
            status: Status::Success,
            cookie: None,
            body: Body::Article(Article { title: s("T"), body: s("B"), creator: 3 }),
        })
    );
    let (state, _) = ShowArticle::articles(12);
    let (_, action) = state.step(Event::FirstRow(Ok(None)));
    assert_eq!(action, bare(Status::NotFound));
}

fn article_row(id: i64, title: &str) -> Event {
    Event::NextRow(Ok(Some(row(vec![Value::Integer(id), Value::Text(s(title))]))))
}

fn user_reply(name: &str, articles: Vec<AttachedArticle>) -> Action {
    Action::Respond(Response {
        status: Status::Success,
        cookie: None,
        body: Body::User(User { name: s(name), articles }),
    })
}

fn show_user_until_listing(id: u32) -> ShowUser {
    let (state, action) = ShowUser::users(id);
    assert_eq!(action, Action::FetchFirst(Statement::GetUser { id }));
    let (state, action) = state.step(Event::FirstRow(Ok(Some(row(vec![Value::Text(s("ann"))])))));
    assert_eq!(action, Action::Open(Statement::FindArticles { creator: id }));
    let (state, action) = state.step(Event::Opened(Ok(())));
    assert_eq!(action, Action::Next);
    state
}

#[test]
fn show_user_lists_articles_in_order() {
    let state = show_user_until_listing(1);
    let (state, _) = state.step(article_row(5, "first"));
    let (state, _) = state.step(article_row(6, "second"));
    let (state, action) = state.step(Event::NextRow(Ok(None)));
    assert_eq!(state, ShowUser::Done);
    assert_eq!(
        action,
        user_reply(
            "ann",
            vec![
                AttachedArticle { id: 5, title: s("first") },
                AttachedArticle { id: 6, title: s("second") },
            ]
        )
    );
}

#[test]
fn show_user_drops_articles_on_failure() {
    let state = show_user_until_listing(1);
    let (state, _) = state.step(article_row(5, "first"));
    let (_, action) = state.step(Event::NextRow(Err(DbError::Failed)));
    assert_eq!(action, user_reply("ann", vec![]));

    let state = show_user_until_listing(1);
    let (state, _) = state.step(article_row(5, "first"));
    let (_, action) = state.step(Event::NextRow(Ok(Some(row(vec![Value::Integer(7), Value::Null])))));
    assert_eq!(action, user_reply("ann", vec![]));
}

#[test]
fn show_user_without_article_query() {
    let (state, _) = ShowUser::users(1);
    let (state, _) = state.step(Event::FirstRow(Ok(Some(row(vec![Value::Text(s("ann"))])))));
    let (_, action) = state.step(Event::Opened(Err(DbError::Failed)));
    assert_eq!(action, user_reply("ann", vec![]));
}

#[test]
fn show_user_missing_is_404() {
    let (state, _) = ShowUser::users(1);
    let (_, action) = state.step(Event::FirstRow(Ok(None)));
    assert_eq!(action, bare(Status::NotFound));
    let (state, _) = ShowUser::users(1);
    let (_, action) = state.step(Event::FirstRow(Ok(Some(row(vec![Value::Null])))));
    assert_eq!(action, bare(Status::NotFound));
}

fn listing(entries: &[(u32, &str)]) -> Action {
    Action::Respond(Response {
        status: Status::Success,
        cookie: None,
        body: Body::Articles(
            entries.iter().map(|(id, title)| ShowableArticle { id: *id, title: s(title) }).collect(),
        ),
    })
}

#[test]
fn index_skips_first_row() {
    let (state, action) = Index::index();
    assert_eq!(action, Action::Open(Statement::ListArticles));
    let (state, action) = state.step(Event::Opened(Ok(())));
    assert_eq!(action, Action::Next);
    let (state, _) = state.step(article_row(1, "one"));
    let (state, _) = state.step(article_row(2, "two"));
    let (state, _) = state.step(article_row(3, "three"));
    let (state, action) = state.step(Event::NextRow(Ok(None)));
    assert_eq!(state, Index::Done);
    assert_eq!(action, listing(&[(2, "two"), (3, "three")]));
}

#[test]
fn index_fills_null_columns_with_defaults() {
    let (state, _) = Index::index();
    let (state, _) = state.step(Event::Opened(Ok(())));
    let (state, _) = state.step(Event::NextRow(Err(DbError::Failed)));
    let (state, _) = state.step(Event::NextRow(Ok(Some(row(vec![Value::Null, Value::Null])))));
    let (_, action) = state.step(Event::NextRow(Err(DbError::Failed)));
    assert_eq!(action, listing(&[(0, "")]));
}

#[test]
fn index_failures() {
    let (state, _) = Index::index();
    let (_, action) = state.step(Event::Opened(Err(DbError::Failed)));
    assert_eq!(action, bare(Status::ServerError));
    let (state, _) = Index::index();
    let (state, _) = state.step(Event::Opened(Ok(())));
    let (state, _) = state.step(Event::NextRow(Ok(None)));
    let (_, action) = state.step(Event::NextRow(Ok(None)));
    assert_eq!(action, listing(&[]));
}

#[test]
fn index_rejects_unreadable_rows() {
    let (state, _) = Index::index();
    let (state, _) = state.step(Event::Opened(Ok(())));
    let odd = Event::NextRow(Ok(Some(row(vec![Value::Text(s("1")), Value::Text(s("x"))]))));
    assert!(state.admits(&odd));
    let (state, _) = state.step(odd);
    assert!(!state.admits(&Event::NextRow(Ok(Some(row(vec![Value::Text(s("1")), Value::Text(s("x"))]))))));
    assert!(!state.admits(&Event::NextRow(Ok(Some(row(vec![Value::Integer(1)]))))));
    assert!(state.admits(&article_row(1, "x")));
}

#[test]
fn page_files() {
    assert_eq!(Page::Favicon.file(), "./static/favicon.ico");
    assert_eq!(Page::Home.file(), "./html/index.html");
    assert_eq!(Page::Login.file(), "./html/login.html");
    assert_eq!(Page::Create.file(), "./html/create.html");
    assert_eq!(Page::User.file(), "./html/user.html");
    assert_eq!(Page::Article.file(), "./html/article.html");
}
