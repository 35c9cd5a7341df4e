use blog::database::{
    first_row_is_readable, read_first_row, user, DbError, FromRow, Row, Statement, Value,
};
use blog::services::get::{Article, AttachedArticle, User};
use blog::services::post::IdReply;

fn row(columns: Vec<Value>) -> Row {
    Row { columns }
}

fn text(s: &str) -> Value {
    Value::Text(s.to_string())
}

fn all_statements() -> Vec<Statement> {
    vec![
        Statement::CreateUser { name: "ann".to_string(), password: "pw".to_string() },
        Statement::DeleteUser { id: 1 },
        Statement::UpdateUser { id: 1, name: "ann".to_string(), password: "pw".to_string() },
        Statement::GetUser { id: 1 },
        Statement::CheckUserById { id: 1, password: "pw".to_string() },
        Statement::FindUserByName { name: "ann".to_string(), password: "pw".to_string() },
        Statement::CreateArticle { title: "t".to_string(), body: "b".to_string(), creator: 2 },
        Statement::DeleteArticle { id: 3 },
        Statement::UpdateArticle { id: 3, title: "t".to_string(), body: "b".to_string() },
        Statement::GetArticle { id: 3 },
        Statement::FindArticles { creator: 2 },
        Statement::ListArticles,
    ]
}

#[test]
fn each_statement_fills_its_placeholders() {
    for statement in all_statements() {
        let marks = statement.sql().chars().filter(|c| *c == '?').count();
        assert_eq!(marks, statement.params().len(), "{:?}", statement);
    }
}

#[test]
fn statement_texts() {
    assert_eq!(
        Statement::CreateUser { name: String::new(), password: String::new() }.sql(),
        "INSERT INTO users (name, password) VALUES (?, ?) RETURNING id"
    );
    assert_eq!(
        Statement::CheckUserById { id: 0, password: String::new() }.sql(),
        "SELECT 1 FROM users WHERE id = ? AND password = ?"
    );
    assert_eq!(Statement::ListArticles.sql(), "SELECT id, title FROM articles");
    assert_eq!(
        Statement::GetArticle { id: 0 }.sql(),
        "SELECT title, body, creator FROM articles WHERE id = ?"
    );
}

#[test]
fn statement_parameters_in_placeholder_order() {
    let update = Statement::UpdateUser { id: 7, name: "bob".to_string(), password: "x".to_string() };
    assert_eq!(update.params(), vec![text("bob"), text("x"), Value::Integer(7)]);
    let check = Statement::CheckUserById { id: 7, password: "x".to_string() };
    assert_eq!(check.params(), vec![Value::Integer(7), text("x")]);
    let create = Statement::CreateArticle { title: "t".to_string(), body: "b".to_string(), creator: u32::MAX };
    assert_eq!(create.params(), vec![text("t"), text("b"), Value::Integer(4294967295)]);
    assert_eq!(Statement::ListArticles.params(), vec![]);
}

#[test]
fn id_reply_reads_low_bits() {
    assert_eq!(IdReply::from_row(row(vec![Value::Integer(5)])), Ok(IdReply { id: 5 }));
    assert_eq!(
        IdReply::from_row(row(vec![Value::Integer((1i64 << 32) + 7)])),
        Ok(IdReply { id: 7 })
    );
    assert_eq!(IdReply::from_row(row(vec![Value::Integer(-1)])), Ok(IdReply { id: u32::MAX }));
    assert_eq!(IdReply::from_row(row(vec![Value::Null])), Err(DbError::NullValue));
}

#[test]
fn no_row_is_an_error() {
    assert_eq!(IdReply::from_option_row(None), Err(DbError::QueryReturnedNoRows));
    assert_eq!(Article::from_option_row(None), Err(DbError::QueryReturnedNoRows));
    assert_eq!(User::from_option_row(None), Err(DbError::QueryReturnedNoRows));
    assert_eq!(
        IdReply::from_option_row(Some(row(vec![Value::Integer(3)]))),
        Ok(IdReply { id: 3 })
    );
}

#[test]
fn article_reads_three_columns() {
    let r = Article::from_row(row(vec![text("Hello"), text("World"), Value::Integer(4)]));
    assert_eq!(r, Ok(Article { title: "Hello".to_string(), body: "World".to_string(), creator: 4 }));
    let r = Article::from_row(row(vec![text("Hello"), Value::Null, Value::Integer(4)]));
    assert_eq!(r, Err(DbError::NullValue));
}

#[test]
fn readability_follows_the_reading_order() {
    // A NULL title stops the reading before the body is looked at.
    assert!(Article::is_readable(&row(vec![Value::Null, Value::Integer(1)])));
    assert_eq!(Article::from_row(row(vec![Value::Null, Value::Integer(1)])), Err(DbError::NullValue));
    assert!(!Article::is_readable(&row(vec![text("t"), Value::Integer(1), Value::Integer(1)])));
    assert!(!Article::is_readable(&row(vec![text("t"), text("b")])));
    assert!(!IdReply::is_readable(&row(vec![text("1")])));
    assert!(!IdReply::is_readable(&row(vec![])));
    assert!(AttachedArticle::is_readable(&row(vec![Value::Null])));
    assert!(!AttachedArticle::is_readable(&row(vec![Value::Integer(1)])));
    assert!(!User::is_readable(&row(vec![Value::Real(0)])));
}

#[test]
fn user_reads_name_and_no_articles() {
    assert_eq!(
        User::from_row(row(vec![text("ann")])),
        Ok(User { name: "ann".to_string(), articles: vec![] })
    );
    assert_eq!(User::from_row(row(vec![Value::Null])), Err(DbError::NullValue));
}

#[test]
fn attached_article_reads_id_and_title() {
    assert_eq!(
        AttachedArticle::from_row(row(vec![Value::Integer(9), text("t")])),
        Ok(AttachedArticle { id: 9, title: "t".to_string() })
    );
    assert_eq!(
        AttachedArticle::from_row(row(vec![Value::Integer(9), Value::Null])),
        Err(DbError::NullValue)
    );
}

#[test]
fn first_row_outcomes() {
    assert_eq!(read_first_row::<IdReply>(Err(DbError::Failed)), Err(DbError::Failed));
    assert_eq!(read_first_row::<IdReply>(Ok(None)), Err(DbError::QueryReturnedNoRows));
    assert_eq!(
        read_first_row::<IdReply>(Ok(Some(row(vec![Value::Integer(2)])))),
        Ok(IdReply { id: 2 })
    );
    assert!(first_row_is_readable::<IdReply>(&Ok(None)));
    assert!(!first_row_is_readable::<IdReply>(&Ok(Some(row(vec![text("x")])))));
}

#[test]
fn user_update_needs_a_row() {
    assert_eq!(user::updater(Ok(Some(row(vec![])))), Ok(()));
    assert_eq!(user::updater(Ok(None)), Err(DbError::QueryReturnedNoRows));
    assert_eq!(user::updater(Err(DbError::Failed)), Err(DbError::Failed));
}
