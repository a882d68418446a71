use crate::post::{NewPost, Post};
use vstd::prelude::*;

verus! {

#[verifier::external_type_specification]
#[verifier::external_body]
pub struct ExConnection(rusqlite::Connection);

#[verifier::external_type_specification]
#[verifier::external_body]
pub struct ExSqlError(rusqlite::Error);

/// Creates the posts table unless it is already there.
pub const CREATE_TABLE_SQL: &'static str = "CREATE TABLE IF NOT EXISTS posts (
            id INTEGER PRIMARY KEY AUTOINCREMENT,
            title TEXT NOT NULL,
            body TEXT NOT NULL
        )";

/// Reads every post, in the order the database keeps them.
pub const SELECT_ALL_SQL: &'static str = "SELECT id, title, body FROM posts";

/// Stores a title and a body; the database assigns the id.
pub const INSERT_SQL: &'static str = "INSERT INTO posts (title, body) VALUES (?1, ?2)";

/// Removes the post with the given id, if there is one.
pub const DELETE_SQL: &'static str = "DELETE FROM posts WHERE id = ?1";

/// A value bound to a numbered placeholder of a statement.
#[derive(Debug)]
pub enum SqlArg {
    Integer(i64),
    Text(String),
}

/// One SQL statement with the values bound to its `?1`, `?2`, ...
/// placeholders, in order.
#[derive(Debug)]
pub struct Statement {
    pub sql: String,
    pub args: Vec<SqlArg>,
}

/// `s` creates the posts table where it is missing.
pub open spec fn is_create_table(s: Statement) -> bool {
    s.sql@ == CREATE_TABLE_SQL@ && s.args@.len() == 0
}

/// `s` reads every post.
pub open spec fn is_select_all(s: Statement) -> bool {
    s.sql@ == SELECT_ALL_SQL@ && s.args@.len() == 0
}

/// `s` stores the title and the body of `new_post`, as they are.
pub open spec fn is_insert_of(s: Statement, new_post: NewPost) -> bool {
    &&& s.sql@ == INSERT_SQL@
    &&& s.args@.len() == 2
    &&& s.args@[0] matches SqlArg::Text(t) && t@ == new_post.title@
    &&& s.args@[1] matches SqlArg::Text(b) && b@ == new_post.body@
}

/// `s` removes the post whose id is `id`.
pub open spec fn is_delete_of(s: Statement, id: i64) -> bool {
    s.sql@ == DELETE_SQL@ && s.args@ == seq![SqlArg::Integer(id)]
}

/// The statement that creates the posts table where it is missing.
pub fn create_table_statement() -> (r: Statement)
    ensures
        is_create_table(r),
{
    Statement { sql: CREATE_TABLE_SQL.to_owned(), args: Vec::new() }
}

/// The statement that reads every post.
pub fn select_all_statement() -> (r: Statement)
    ensures
        is_select_all(r),
{
    Statement { sql: SELECT_ALL_SQL.to_owned(), args: Vec::new() }
}

/// The statement that stores `new_post`: its title bound to `?1`, its body
/// to `?2`.
pub fn insert_statement(new_post: &NewPost) -> (r: Statement)
    ensures
        is_insert_of(r, *new_post),
{
    let mut args: Vec<SqlArg> = Vec::new();
    args.push(SqlArg::Text(new_post.title.clone()));
    args.push(SqlArg::Text(new_post.body.clone()));
    Statement { sql: INSERT_SQL.to_owned(), args }
}

/// The statement that removes the post with id `id`, bound to `?1`.
pub fn delete_statement(id: i64) -> (r: Statement)
    ensures
        is_delete_of(r, id),
{
    let mut args: Vec<SqlArg> = Vec::new();
    args.push(SqlArg::Integer(id));
    proof {
        assert(args@ =~= seq![SqlArg::Integer(id)]);
    }
    Statement { sql: DELETE_SQL.to_owned(), args }
}

/// A statement that could not be run to the end, with the database's own
/// description of what went wrong.
#[derive(Clone, Debug)]
pub struct StoreError {
    pub message: String,
}

impl StoreError {
    /// The error whose message is the description that `e` displays.
    pub fn from_sql(e: rusqlite::Error) -> (r: StoreError)
        ensures
            vstd::string::to_string_from_display_ensures(&e, r.message),
    {
        StoreError { message: e.to_string() }
    }
}

/// Relies on rusqlite's `Connection::execute`: runs `stmt.sql` once, with
/// `stmt.args` bound to `?1`, `?2`, ... in order, and on success gives the
/// number of rows that the statement changed.
#[verifier::external_body]
fn execute(conn: &rusqlite::Connection, stmt: &Statement) -> (r: Result<usize, rusqlite::Error>) {
    let values = stmt.args.iter().map(
        |a| match a {
            SqlArg::Integer(i) => rusqlite::types::Value::Integer(*i),
            SqlArg::Text(t) => rusqlite::types::Value::Text(t.clone()),
        },
    );
    conn.execute(&stmt.sql, rusqlite::params_from_iter(values))
}

/// Relies on rusqlite's `Connection::prepare` and `Statement::query_map`:
/// runs the query `stmt.sql`, which takes no arguments, and reads columns 0,
/// 1 and 2 of each row as an integer and two texts, one triple per row in
/// the order the rows come.
#[verifier::external_body]
fn query_rows(conn: &rusqlite::Connection, stmt: &Statement) -> (r: Result<
    Vec<(i64, String, String)>,
    rusqlite::Error,
>) {
    let mut prepared = conn.prepare(&stmt.sql)?;
    let rows = prepared.query_map([], |row| <(i64, String, String)>::try_from(row))?;
    rows.collect()
}

/// Relies on rusqlite's `Connection::last_insert_rowid`: the rowid of the
/// latest successful INSERT on this connection.
#[verifier::external_body]
fn last_insert_rowid(conn: &rusqlite::Connection) -> (r: i64) {
    conn.last_insert_rowid()
}

/// The posts that the rows `(id, title, body)` describe, one per row and in
/// the same order.
pub fn posts_from_rows(rows: &Vec<(i64, String, String)>) -> (r: Vec<Post>)
    ensures
        r@.len() == rows@.len(),
        forall|i: int|
            0 <= i < rows@.len() ==> {
                &&& (#[trigger] r@[i]).id == rows@[i].0
                &&& r@[i].title == rows@[i].1
                &&& r@[i].body == rows@[i].2
            },
{
    let mut posts: Vec<Post> = Vec::new();
    let mut k: usize = 0;
    while k < rows.len()
        invariant
            k <= rows@.len(),
            posts@.len() == k,
            forall|i: int|
                0 <= i < k ==> {
                    &&& (#[trigger] posts@[i]).id == rows@[i].0
                    &&& posts@[i].title == rows@[i].1
                    &&& posts@[i].body == rows@[i].2
                },
        decreases rows@.len() - k,
    {
        let row = &rows[k];
        posts.push(Post { id: row.0, title: row.1.clone(), body: row.2.clone() });
        k = k + 1;
    }
    posts
}

/// `after` is `before` with one more statement at its end.
pub open spec fn appended(before: Seq<Statement>, after: Seq<Statement>) -> bool {
    after.len() == before.len() + 1 && after == before.push(after.last())
}

/// The storage gateway: the one owner of the database connection and the
/// only code that runs statements on it. A caller that shares it between
/// threads holds it behind the lock of [`crate::guard::SharedStore`].
pub struct PostStore {
    conn: rusqlite::Connection,
    sent: Ghost<Seq<Statement>>,
}

impl PostStore {
    /// The connection that this gateway owns.
    pub closed spec fn connection(&self) -> rusqlite::Connection {
        self.conn
    }

    /// Every statement that this gateway has handed to its connection, oldest
    /// first.
    pub closed spec fn sent(&self) -> Seq<Statement> {
        self.sent@
    }

    /// A gateway over an open connection, which has sent nothing yet.
    pub fn new(conn: rusqlite::Connection) -> (r: PostStore)
        ensures
            r.connection() == conn,
            r.sent() == Seq::<Statement>::empty(),
    {
        PostStore { conn, sent: Ghost(Seq::empty()) }
    }

    /// Hands `stmt` to the connection to run, and records it.
    fn run(&mut self, stmt: Statement) -> (r: Result<usize, rusqlite::Error>)
        ensures
            final(self).sent() == old(self).sent().push(stmt),
            final(self).connection() == old(self).connection(),
    {
        let r = execute(&self.conn, &stmt);
        self.sent = Ghost(self.sent@.push(stmt));
        r
    }

    /// Hands the query `stmt` to the connection, and records it.
    fn query(&mut self, stmt: Statement) -> (r: Result<Vec<(i64, String, String)>, rusqlite::Error>)
        ensures
            final(self).sent() == old(self).sent().push(stmt),
            final(self).connection() == old(self).connection(),
    {
        let r = query_rows(&self.conn, &stmt);
        self.sent = Ghost(self.sent@.push(stmt));
        r
    }

    /// Creates the posts table unless it exists. Running it again on a store
    /// that has the table changes nothing.
    pub fn initialize(&mut self) -> (r: Result<(), StoreError>)
        ensures
            appended(old(self).sent(), final(self).sent()),
            is_create_table(final(self).sent().last()),
    {
        match self.run(create_table_statement()) {
            Ok(_) => Ok(()),
            Err(e) => Err(StoreError::from_sql(e)),
        }
    }

    /// Every stored post, in the order the database keeps them; an empty
    /// vector when there are none.
    pub fn list_all(&mut self) -> (r: Result<Vec<Post>, StoreError>)
        ensures
            appended(old(self).sent(), final(self).sent()),
            is_select_all(final(self).sent().last()),
    {
        match self.query(select_all_statement()) {
            Ok(rows) => Ok(posts_from_rows(&rows)),
            Err(e) => Err(StoreError::from_sql(e)),
        }
    }

    /// Stores a new post and returns it with the id that the database gave
    /// it. The title and the body are stored as they are, empty ones too.
    /// The id is read right after the INSERT on the same connection, so under
    /// the lock of [`crate::guard::SharedStore`] no other insert comes between.
    pub fn insert(&mut self, new_post: &NewPost) -> (r: Result<Post, StoreError>)
        ensures
            appended(old(self).sent(), final(self).sent()),
            is_insert_of(final(self).sent().last(), *new_post),
            r matches Ok(p) ==> p.title@ == new_post.title@ && p.body@ == new_post.body@,
    {
        match self.run(insert_statement(new_post)) {
            Ok(_) => {
                let id = last_insert_rowid(&self.conn);
                Ok(Post::from_new(id, new_post))
            },
            Err(e) => Err(StoreError::from_sql(e)),
        }
    }

    /// Removes the post with the given id. On success the result is the number
    /// of posts removed: 0 where no post had that id, which is no error.
    pub fn delete_by_id(&mut self, id: i64) -> (r: Result<usize, StoreError>)
        ensures
            appended(old(self).sent(), final(self).sent()),
            is_delete_of(final(self).sent().last(), id),
    {
        match self.run(delete_statement(id)) {
            Ok(n) => Ok(n),
            Err(e) => Err(StoreError::from_sql(e)),
        }
    }
}

} // verus!
