//! What the service sends to the database and how it reads what comes back.
//!
//! A [`Statement`] names one of the service's queries together with its
//! arguments; its SQL text and its parameter list are fixed here. A [`Row`]
//! holds the column values of one result row, and [`FromRow`] reads the
//! service's records out of rows the way the database client reads typed
//! columns: a NULL column is an error, an integer column read as a `u32`
//! keeps its low 32 bits, and reading a column of another kind, or one that
//! the row does not have, aborts (so the contracts leave those rows out).
pub mod article;
pub mod user;

use vstd::prelude::*;

verus! {

/// One column value of a result row, or one parameter of a statement.
#[derive(Debug, PartialEq)]
pub enum Value {
    Null,
    Integer(i64),
    /// A floating-point column, held as the bit pattern of the `f64`.
    Real(u64),
    Text(String),
    Blob(Vec<u8>),
}

/// Why reading from the database failed.
#[derive(Debug, Clone, Copy, PartialEq, Eq, Structural)]
pub enum DbError {
    /// A query that had to give a row gave none.
    QueryReturnedNoRows,
    /// A column that had to hold a value was NULL.
    NullValue,
    /// The database or the connection to it reported a failure.
    Failed,
}

/// One result row: its column values, in order.
#[derive(Debug, PartialEq)]
pub struct Row {
    pub columns: Vec<Value>,
}

/// Column `i` of `c` can be read as text: it exists and is TEXT or NULL.
pub open spec fn text_readable(c: Seq<Value>, i: int) -> bool {
    0 <= i < c.len() && (c[i] is Null || c[i] is Text)
}

/// Column `i` of `c` can be read as an integer: it exists and is INTEGER or NULL.
pub open spec fn integer_readable(c: Seq<Value>, i: int) -> bool {
    0 <= i < c.len() && (c[i] is Null || c[i] is Integer)
}

/// A column value read as text.
pub open spec fn text_of(v: Value) -> Result<String, DbError> {
    match v {
        Value::Text(s) => Ok(s),
        _ => Err(DbError::NullValue),
    }
}

/// A column value read as a `u32`: the low 32 bits of the integer.
pub open spec fn u32_of(v: Value) -> Result<u32, DbError> {
    match v {
        Value::Integer(i) => Ok(i as u32),
        _ => Err(DbError::NullValue),
    }
}

/// Reads a TEXT or NULL column value as text.
pub fn read_text(v: Value) -> (r: Result<String, DbError>)
    requires
        v is Null || v is Text,
    ensures
        r == text_of(v),
{
    match v {
        Value::Text(s) => Ok(s),
        _ => Err(DbError::NullValue),
    }
}

/// Reads an INTEGER or NULL column value as a `u32`.
pub fn read_u32(v: Value) -> (r: Result<u32, DbError>)
    requires
        v is Null || v is Integer,
    ensures
        r == u32_of(v),
{
    match v {
        Value::Integer(i) => Ok(i as u32),
        _ => Err(DbError::NullValue),
    }
}

/// Whether column `i` exists and is TEXT or NULL.
pub fn column_is_text(c: &Vec<Value>, i: usize) -> (b: bool)
    ensures
        b == text_readable(c@, i as int),
{
    i < c.len() && match &c[i] {
        Value::Null | Value::Text(_) => true,
        _ => false,
    }
}

/// Whether column `i` exists and is INTEGER or NULL.
pub fn column_is_integer(c: &Vec<Value>, i: usize) -> (b: bool)
    ensures
        b == integer_readable(c@, i as int),
{
    i < c.len() && match &c[i] {
        Value::Null | Value::Integer(_) => true,
        _ => false,
    }
}

/// Whether column `i`, which exists, is NULL.
pub fn column_is_null(c: &Vec<Value>, i: usize) -> (b: bool)
    requires
        i < c@.len(),
    ensures
        b == (c@[i as int] is Null),
{
    match &c[i] {
        Value::Null => true,
        _ => false,
    }
}

/// Takes the first column out of a row's remaining columns.
pub fn take_first(columns: &mut Vec<Value>) -> (v: Value)
    requires
        old(columns)@.len() > 0,
    ensures
        v == old(columns)@[0],
        final(columns)@ == old(columns)@.drop_first(),
{
    let v = columns.remove(0);
    assert(columns@ =~= old(columns)@.drop_first());
    v
}

/// A record that can be read out of a result row.
pub trait FromRow: Sized {
    /// Reading a row with these columns does not abort.
    spec fn readable(columns: Seq<Value>) -> bool;

    /// The outcome of reading a row with these columns.
    spec fn from_columns(columns: Seq<Value>) -> Result<Self, DbError>;

    /// Whether reading `row` does not abort.
    fn is_readable(row: &Row) -> (b: bool)
        ensures
            b == Self::readable(row.columns@),
    ;

    /// Reads the record out of `row`.
    fn from_row(row: Row) -> (r: Result<Self, DbError>)
        requires
            Self::readable(row.columns@),
        ensures
            r == Self::from_columns(row.columns@),
    ;

    /// Reads the record out of the row that a query gave first; a query that
    /// gave no row is the error `QueryReturnedNoRows`.
    fn from_option_row(option: Option<Row>) -> (r: Result<Self, DbError>)
        requires
            option matches Some(row) ==> Self::readable(row.columns@),
        ensures
            r == (match option {
                Some(row) => Self::from_columns(row.columns@),
                None => Err(DbError::QueryReturnedNoRows),
            }),
    {
        match option {
            Some(row) => Self::from_row(row),
            None => Err(DbError::QueryReturnedNoRows),
        }
    }
}

/// The first row that a query gave, or its failure, can be read as `T`.
pub open spec fn first_row_readable<T: FromRow>(outcome: Result<Option<Row>, DbError>) -> bool {
    outcome matches Ok(Some(row)) ==> T::readable(row.columns@)
}

/// Whether reading `T` out of the first row that a query gave does not abort.
pub fn first_row_is_readable<T: FromRow>(outcome: &Result<Option<Row>, DbError>) -> (b: bool)
    ensures
        b == first_row_readable::<T>(*outcome),
{
    match outcome {
        Ok(Some(row)) => T::is_readable(row),
        _ => true,
    }
}

/// Reading `T` out of the first row that a query gave: the query's own
/// failure, `QueryReturnedNoRows` where it gave no row, or the row read as `T`.
pub open spec fn first_row_as<T: FromRow>(outcome: Result<Option<Row>, DbError>) -> Result<T, DbError> {
    match outcome {
        Ok(Some(row)) => T::from_columns(row.columns@),
        Ok(None) => Err(DbError::QueryReturnedNoRows),
        Err(e) => Err(e),
    }
}

/// Reads `T` out of the first row that a query gave.
pub fn read_first_row<T: FromRow>(outcome: Result<Option<Row>, DbError>) -> (r: Result<T, DbError>)
    requires
        first_row_readable::<T>(outcome),
    ensures
        r == first_row_as::<T>(outcome),
{
    match outcome {
        Ok(option) => T::from_option_row(option),
        Err(e) => Err(e),
    }
}

/// The queries that the service runs.
#[derive(Debug, PartialEq)]
pub enum Statement {
    /// Add a user and give back its id.
    CreateUser { name: String, password: String },
    /// Remove a user.
    DeleteUser { id: u32 },
    /// Change a user's name and password.
    UpdateUser { id: u32, name: String, password: String },
    /// A user's name.
    GetUser { id: u32 },
    /// Check a user's password by id.
    CheckUserById { id: u32, password: String },
    /// The id of the user with this name and password.
    FindUserByName { name: String, password: String },
    /// Add an article and give back its id.
    CreateArticle { title: String, body: String, creator: u32 },
    /// Remove an article.
    DeleteArticle { id: u32 },
    /// Change an article's title and body.
    UpdateArticle { id: u32, title: String, body: String },
    /// An article's title, body and creator.
    GetArticle { id: u32 },
    /// The id and title of each article of one creator.
    FindArticles { creator: u32 },
    /// The id and title of every article.
    ListArticles,
}

/// A `u32` argument, as the database client binds it.
pub open spec fn integer(n: u32) -> Value {
    Value::Integer(n as i64)
}

impl Statement {
    /// The SQL text of the statement.
    pub open spec fn sql_text(&self) -> &'static str {
        match self {
            Statement::CreateUser { .. } => user::CREATE,
            Statement::DeleteUser { .. } => user::DELETE,
            Statement::UpdateUser { .. } => user::UPDATE,
            Statement::GetUser { .. } => user::GET,
            Statement::CheckUserById { .. } => user::CHECK_BY_ID,
            Statement::FindUserByName { .. } => user::FIND_BY_NAME,
            Statement::CreateArticle { .. } => article::CREATE,
            Statement::DeleteArticle { .. } => article::DELETE,
            Statement::UpdateArticle { .. } => article::UPDATE,
            Statement::GetArticle { .. } => article::GET,
            Statement::FindArticles { .. } => article::FIND_BY_CREATOR,
            Statement::ListArticles => article::LIST,
        }
    }

    /// The values bound to the statement's `?` placeholders, in order.
    pub open spec fn parameters(&self) -> Seq<Value> {
        match self {
            Statement::CreateUser { name, password } => seq![
                Value::Text(*name),
                Value::Text(*password),
            ],
            Statement::DeleteUser { id } => seq![integer(*id)],
            Statement::UpdateUser { id, name, password } => seq![
                Value::Text(*name),
                Value::Text(*password),
                integer(*id),
            ],
            Statement::GetUser { id } => seq![integer(*id)],
            Statement::CheckUserById { id, password } => seq![
                integer(*id),
                Value::Text(*password),
            ],
            Statement::FindUserByName { name, password } => seq![
                Value::Text(*name),
                Value::Text(*password),
            ],
            Statement::CreateArticle { title, body, creator } => seq![
                Value::Text(*title),
                Value::Text(*body),
                integer(*creator),
            ],
            Statement::DeleteArticle { id } => seq![integer(*id)],
            Statement::UpdateArticle { id, title, body } => seq![
                Value::Text(*title),
                Value::Text(*body),
                integer(*id),
            ],
            Statement::GetArticle { id } => seq![integer(*id)],
            Statement::FindArticles { creator } => seq![integer(*creator)],
            Statement::ListArticles => seq![],
        }
    }

    /// Whether the statement changes what the database holds.
    pub open spec fn is_write(&self) -> bool {
        match self {
            Statement::CreateUser { .. }
            | Statement::DeleteUser { .. }
            | Statement::UpdateUser { .. }
            | Statement::CreateArticle { .. }
            | Statement::DeleteArticle { .. }
            | Statement::UpdateArticle { .. } => true,
            _ => false,
        }
    }

    /// The SQL text of the statement.
    pub fn sql(&self) -> (text: &'static str)
        ensures
            text == self.sql_text(),
    {
        match self {
            Statement::CreateUser { .. } => user::CREATE,
            Statement::DeleteUser { .. } => user::DELETE,
            Statement::UpdateUser { .. } => user::UPDATE,
            Statement::GetUser { .. } => user::GET,
            Statement::CheckUserById { .. } => user::CHECK_BY_ID,
            Statement::FindUserByName { .. } => user::FIND_BY_NAME,
            Statement::CreateArticle { .. } => article::CREATE,
            Statement::DeleteArticle { .. } => article::DELETE,
            Statement::UpdateArticle { .. } => article::UPDATE,
            Statement::GetArticle { .. } => article::GET,
            Statement::FindArticles { .. } => article::FIND_BY_CREATOR,
            Statement::ListArticles => article::LIST,
        }
    }

    /// The values to bind to the statement's placeholders, in order.
    pub fn params(&self) -> (values: Vec<Value>)
        ensures
            values@ == self.parameters(),
    {
        match self {
            Statement::CreateUser { name, password } => vec![
                Value::Text(name.clone()),
                Value::Text(password.clone()),
            ],
            Statement::DeleteUser { id } => vec![Value::Integer(*id as i64)],
            Statement::UpdateUser { id, name, password } => vec![
                Value::Text(name.clone()),
                Value::Text(password.clone()),
                Value::Integer(*id as i64),
            ],
            Statement::GetUser { id } => vec![Value::Integer(*id as i64)],
            Statement::CheckUserById { id, password } => vec![
                Value::Integer(*id as i64),
                Value::Text(password.clone()),
            ],
            Statement::FindUserByName { name, password } => vec![
                Value::Text(name.clone()),
                Value::Text(password.clone()),
            ],
            Statement::CreateArticle { title, body, creator } => vec![
                Value::Text(title.clone()),
                Value::Text(body.clone()),
                Value::Integer(*creator as i64),
            ],
            Statement::DeleteArticle { id } => vec![Value::Integer(*id as i64)],
            Statement::UpdateArticle { id, title, body } => vec![
                Value::Text(title.clone()),
                Value::Text(body.clone()),
                Value::Integer(*id as i64),
            ],
            Statement::GetArticle { id } => vec![Value::Integer(*id as i64)],
            Statement::FindArticles { creator } => vec![Value::Integer(*creator as i64)],
            Statement::ListArticles => vec![],
        }
    }
}

/// The number of `?` placeholders among the first `n` characters of `s`.
pub open spec fn placeholders_before(s: Seq<char>, n: int) -> nat
    decreases n,
{
    if n <= 0 {
        0
    } else {
        placeholders_before(s, n - 1) + if s[n - 1] == '?' {
            1nat
        } else {
            0nat
        }
    }
}

/// The number of `?` placeholders in an SQL text.
pub open spec fn placeholders(s: Seq<char>) -> nat {
    placeholders_before(s, s.len() as int)
}

/// Every statement binds exactly one value to each placeholder of its SQL text.
pub proof fn lemma_parameters_fill_placeholders(statement: Statement)
    ensures
        placeholders(statement.sql_text()@) == statement.parameters().len(),
{
    reveal_with_fuel(placeholders_before, 90);
    match statement {
        Statement::CreateUser { .. } => {
            reveal_strlit("INSERT INTO users (name, password) VALUES (?, ?) RETURNING id");
            assert(user::CREATE@ == "INSERT INTO users (name, password) VALUES (?, ?) RETURNING id"@);
        },
        Statement::DeleteUser { .. } => {
            reveal_strlit("DELETE FROM users WHERE id = ?");
            assert(user::DELETE@ == "DELETE FROM users WHERE id = ?"@);
        },
        Statement::UpdateUser { .. } => {
            reveal_strlit("UPDATE users SET name = ?, password = ? WHERE id = ?");
            assert(user::UPDATE@ == "UPDATE users SET name = ?, password = ? WHERE id = ?"@);
        },
        Statement::GetUser { .. } => {
            reveal_strlit("SELECT name FROM users WHERE id = ?");
            assert(user::GET@ == "SELECT name FROM users WHERE id = ?"@);
        },
        Statement::CheckUserById { .. } => {
            reveal_strlit("SELECT 1 FROM users WHERE id = ? AND password = ?");
            assert(user::CHECK_BY_ID@ == "SELECT 1 FROM users WHERE id = ? AND password = ?"@);
        },
        Statement::FindUserByName { .. } => {
            reveal_strlit("SELECT id FROM users WHERE name = ? AND password = ?");
            assert(user::FIND_BY_NAME@ == "SELECT id FROM users WHERE name = ? AND password = ?"@);
        },
        Statement::CreateArticle { .. } => {
            reveal_strlit("INSERT INTO articles (title, body, creator) VALUES (?, ?, ?) RETURNING id");
            assert(article::CREATE@ == "INSERT INTO articles (title, body, creator) VALUES (?, ?, ?) RETURNING id"@);
        },
        Statement::DeleteArticle { .. } => {
            reveal_strlit("DELETE FROM articles WHERE id = ?");
            assert(article::DELETE@ == "DELETE FROM articles WHERE id = ?"@);
        },
        Statement::UpdateArticle { .. } => {
            reveal_strlit("UPDATE articles SET title = ?, body = ? WHERE id = ?");
            assert(article::UPDATE@ == "UPDATE articles SET title = ?, body = ? WHERE id = ?"@);
        },
        Statement::GetArticle { .. } => {
            reveal_strlit("SELECT title, body, creator FROM articles WHERE id = ?");
            assert(article::GET@ == "SELECT title, body, creator FROM articles WHERE id = ?"@);
        },
        Statement::FindArticles { .. } => {
            reveal_strlit("SELECT id, title FROM articles WHERE creator = ?");
            assert(article::FIND_BY_CREATOR@ == "SELECT id, title FROM articles WHERE creator = ?"@);
        },
        Statement::ListArticles => {
            reveal_strlit("SELECT id, title FROM articles");
            assert(article::LIST@ == "SELECT id, title FROM articles"@);
        },
    }
}

/// The SQL text that each statement runs, written out: a user is read from
/// `users` by its id, a user is deleted from `users`, and so on for each query.
pub proof fn lemma_statement_texts(statement: Statement)
    ensures
        (statement is CreateUser) ==> statement.sql_text()@ == "INSERT INTO users (name, password) VALUES (?, ?) RETURNING id"@,
        (statement is DeleteUser) ==> statement.sql_text()@ == "DELETE FROM users WHERE id = ?"@,
        (statement is UpdateUser) ==> statement.sql_text()@ == "UPDATE users SET name = ?, password = ? WHERE id = ?"@,
        (statement is GetUser) ==> statement.sql_text()@ == "SELECT name FROM users WHERE id = ?"@,
        (statement is CheckUserById) ==> statement.sql_text()@ == "SELECT 1 FROM users WHERE id = ? AND password = ?"@,
        (statement is FindUserByName) ==> statement.sql_text()@ == "SELECT id FROM users WHERE name = ? AND password = ?"@,
        (statement is CreateArticle) ==> statement.sql_text()@ == "INSERT INTO articles (title, body, creator) VALUES (?, ?, ?) RETURNING id"@,
        (statement is DeleteArticle) ==> statement.sql_text()@ == "DELETE FROM articles WHERE id = ?"@,
        (statement is UpdateArticle) ==> statement.sql_text()@ == "UPDATE articles SET title = ?, body = ? WHERE id = ?"@,
        (statement is GetArticle) ==> statement.sql_text()@ == "SELECT title, body, creator FROM articles WHERE id = ?"@,
        (statement is FindArticles) ==> statement.sql_text()@ == "SELECT id, title FROM articles WHERE creator = ?"@,
        (statement is ListArticles) ==> statement.sql_text()@ == "SELECT id, title FROM articles"@,
{
    match statement {
        Statement::CreateUser { .. } => {
            reveal_strlit("INSERT INTO users (name, password) VALUES (?, ?) RETURNING id");
        },
        Statement::DeleteUser { .. } => {
            reveal_strlit("DELETE FROM users WHERE id = ?");
        },
        Statement::UpdateUser { .. } => {
            reveal_strlit("UPDATE users SET name = ?, password = ? WHERE id = ?");
        },
        Statement::GetUser { .. } => {
            reveal_strlit("SELECT name FROM users WHERE id = ?");
        },
        Statement::CheckUserById { .. } => {
            reveal_strlit("SELECT 1 FROM users WHERE id = ? AND password = ?");
        },
        Statement::FindUserByName { .. } => {
            reveal_strlit("SELECT id FROM users WHERE name = ? AND password = ?");
        },
        Statement::CreateArticle { .. } => {
            reveal_strlit("INSERT INTO articles (title, body, creator) VALUES (?, ?, ?) RETURNING id");
        },
        Statement::DeleteArticle { .. } => {
            reveal_strlit("DELETE FROM articles WHERE id = ?");
        },
        Statement::UpdateArticle { .. } => {
            reveal_strlit("UPDATE articles SET title = ?, body = ? WHERE id = ?");
        },
        Statement::GetArticle { .. } => {
            reveal_strlit("SELECT title, body, creator FROM articles WHERE id = ?");
        },
        Statement::FindArticles { .. } => {
            reveal_strlit("SELECT id, title FROM articles WHERE creator = ?");
        },
        Statement::ListArticles => {
            reveal_strlit("SELECT id, title FROM articles");
        },
    }
}

/// The value bound to each placeholder is the field that the placeholder's
/// column names, in the order the placeholders stand in the SQL text: a name
/// goes to `name = ?` (or the `name` column), a password to `password = ?`, a
/// title to `title`, a body to `body`, and an id to `id = ?` or `creator`.
pub proof fn lemma_statement_bindings(statement: Statement)
    ensures
        statement matches Statement::CreateUser { name, password } ==> statement.parameters()
            == seq![Value::Text(name), Value::Text(password)],
        statement matches Statement::DeleteUser { id } ==> statement.parameters() == seq![
            Value::Integer(id as i64),
        ],
        statement matches Statement::UpdateUser { id, name, password } ==> statement.parameters()
            == seq![Value::Text(name), Value::Text(password), Value::Integer(id as i64)],
        statement matches Statement::GetUser { id } ==> statement.parameters() == seq![
            Value::Integer(id as i64),
        ],
        statement matches Statement::CheckUserById { id, password } ==> statement.parameters()
            == seq![Value::Integer(id as i64), Value::Text(password)],
        statement matches Statement::FindUserByName { name, password } ==> statement.parameters()
            == seq![Value::Text(name), Value::Text(password)],
        statement matches Statement::CreateArticle { title, body, creator } ==> statement.parameters()
            == seq![Value::Text(title), Value::Text(body), Value::Integer(creator as i64)],
        statement matches Statement::DeleteArticle { id } ==> statement.parameters() == seq![
            Value::Integer(id as i64),
        ],
        statement matches Statement::UpdateArticle { id, title, body } ==> statement.parameters()
            == seq![Value::Text(title), Value::Text(body), Value::Integer(id as i64)],
        statement matches Statement::GetArticle { id } ==> statement.parameters() == seq![
            Value::Integer(id as i64),
        ],
        statement matches Statement::FindArticles { creator } ==> statement.parameters() == seq![
            Value::Integer(creator as i64),
        ],
        (statement is ListArticles) ==> statement.parameters().len() == 0,
{
}

/// An integer read as a `u32` keeps its value modulo 2^32.
pub proof fn lemma_low_bits(i: i64)
    ensures
        (i as u32) as int == i % 0x1_0000_0000,
{
    assert((i as u32) as int == i % 0x1_0000_0000) by (bit_vector);
}

/// Reading a column: TEXT gives its text, an INTEGER read as a `u32` gives
/// its value modulo 2^32, and NULL gives `NullValue` either way.
pub proof fn lemma_column_reading(i: i64, s: String)
    ensures
        text_of(Value::Text(s)) == Ok::<String, DbError>(s),
        text_of(Value::Null) == Err::<String, DbError>(DbError::NullValue),
        u32_of(Value::Integer(i)) matches Ok(n) && n as int == i % 0x1_0000_0000,
        u32_of(Value::Null) == Err::<u32, DbError>(DbError::NullValue),
{
    lemma_low_bits(i);
}

/// A statement changes what the database holds exactly when its SQL text is
/// not a query: its first word is not `SELECT`.
pub proof fn lemma_writes_are_not_selects(statement: Statement)
    ensures
        statement.is_write() <==> statement.sql_text()@.take(6) != "SELECT"@,
{
    reveal_strlit("SELECT");
    match statement {
        Statement::CreateUser { .. } => {
            reveal_strlit("INSERT INTO users (name, password) VALUES (?, ?) RETURNING id");
            assert(statement.sql_text()@.take(6)[0] != "SELECT"@[0]);
        },
        Statement::DeleteUser { .. } => {
            reveal_strlit("DELETE FROM users WHERE id = ?");
            assert(statement.sql_text()@.take(6)[0] != "SELECT"@[0]);
        },
        Statement::UpdateUser { .. } => {
            reveal_strlit("UPDATE users SET name = ?, password = ? WHERE id = ?");
            assert(statement.sql_text()@.take(6)[0] != "SELECT"@[0]);
        },
        Statement::GetUser { .. } => {
            reveal_strlit("SELECT name FROM users WHERE id = ?");
            assert(statement.sql_text()@.take(6) =~= "SELECT"@);
        },
        Statement::CheckUserById { .. } => {
            reveal_strlit("SELECT 1 FROM users WHERE id = ? AND password = ?");
            assert(statement.sql_text()@.take(6) =~= "SELECT"@);
        },
        Statement::FindUserByName { .. } => {
            reveal_strlit("SELECT id FROM users WHERE name = ? AND password = ?");
            assert(statement.sql_text()@.take(6) =~= "SELECT"@);
        },
        Statement::CreateArticle { .. } => {
            reveal_strlit("INSERT INTO articles (title, body, creator) VALUES (?, ?, ?) RETURNING id");
            assert(statement.sql_text()@.take(6)[0] != "SELECT"@[0]);
        },
        Statement::DeleteArticle { .. } => {
            reveal_strlit("DELETE FROM articles WHERE id = ?");
            assert(statement.sql_text()@.take(6)[0] != "SELECT"@[0]);
        },
        Statement::UpdateArticle { .. } => {
            reveal_strlit("UPDATE articles SET title = ?, body = ? WHERE id = ?");
            assert(statement.sql_text()@.take(6)[0] != "SELECT"@[0]);
        },
        Statement::GetArticle { .. } => {
            reveal_strlit("SELECT title, body, creator FROM articles WHERE id = ?");
            assert(statement.sql_text()@.take(6) =~= "SELECT"@);
        },
        Statement::FindArticles { .. } => {
            reveal_strlit("SELECT id, title FROM articles WHERE creator = ?");
            assert(statement.sql_text()@.take(6) =~= "SELECT"@);
        },
        Statement::ListArticles => {
            reveal_strlit("SELECT id, title FROM articles");
            assert(statement.sql_text()@.take(6) =~= "SELECT"@);
        },
    }
}

} // verus!
