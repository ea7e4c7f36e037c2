//! The commands of the REPL and their options.
use vstd::prelude::*;
use vstd::string::{StrSliceExecFns, StringExecFns};

verus! {

/// `s` begins with `p`.
pub open spec fn starts_with(s: Seq<char>, p: Seq<char>) -> bool {
    s.len() >= p.len() && s.subrange(0, p.len() as int) == p
}

/// `s` ends with `p`.
pub open spec fn ends_with(s: Seq<char>, p: Seq<char>) -> bool {
    s.len() >= p.len() && s.subrange(s.len() - p.len(), s.len() as int) == p
}

pub fn has_prefix(s: &str, p: &str) -> (r: bool)
    ensures
        r == starts_with(s@, p@),
{
    let ls = s.unicode_len();
    let lp = p.unicode_len();
    if ls < lp {
        return false;
    }
    let mut i: usize = 0;
    while i < lp
        invariant
            ls == s@.len(),
            lp == p@.len(),
            lp <= ls,
            i <= lp,
            forall|k: int| 0 <= k < i ==> s@[k] == p@[k],
        decreases lp - i,
    {
        if s.get_char(i) != p.get_char(i) {
            assert(s@.subrange(0, lp as int)[i as int] != p@[i as int]);
            return false;
        }
        i = i + 1;
    }
    assert(s@.subrange(0, lp as int) =~= p@);
    true
}

pub fn has_suffix(s: &str, p: &str) -> (r: bool)
    ensures
        r == ends_with(s@, p@),
{
    let ls = s.unicode_len();
    let lp = p.unicode_len();
    if ls < lp {
        return false;
    }
    let off = ls - lp;
    let mut i: usize = 0;
    while i < lp
        invariant
            ls == s@.len(),
            lp == p@.len(),
            lp <= ls,
            off == ls - lp,
            i <= lp,
            forall|k: int| 0 <= k < i ==> s@[off + k] == p@[k],
        decreases lp - i,
    {
        if s.get_char(off + i) != p.get_char(i) {
            assert(s@.subrange(off as int, ls as int)[i as int] != p@[i as int]);
            return false;
        }
        i = i + 1;
    }
    assert(s@.subrange(off as int, ls as int) =~= p@);
    true
}

/// Where a dataset comes from, as its connection string says.
#[derive(Debug, Clone)]
pub enum DatabaseConn {
    Postgres(String),
    Csv(String),
    Parquet(String),
    Json(String),
}

/// The connection string that `c` was made from.
pub open spec fn conn_str(c: DatabaseConn) -> Seq<char> {
    match c {
        DatabaseConn::Postgres(s) => s@,
        DatabaseConn::Csv(s) => s@,
        DatabaseConn::Parquet(s) => s@,
        DatabaseConn::Json(s) => s@,
    }
}

pub open spec fn is_postgres(s: Seq<char>) -> bool {
    starts_with(s, "postgres://"@)
}

pub open spec fn is_csv(s: Seq<char>) -> bool {
    !is_postgres(s) && ends_with(s, ".csv"@)
}

pub open spec fn is_parquet(s: Seq<char>) -> bool {
    !is_postgres(s) && !ends_with(s, ".csv"@) && ends_with(s, ".parquet"@)
}

pub open spec fn is_json(s: Seq<char>) -> bool {
    !is_postgres(s) && !ends_with(s, ".csv"@) && !ends_with(s, ".parquet"@) && (ends_with(
        s,
        ".json"@,
    ) || ends_with(s, ".ndjson"@))
}

pub open spec fn is_valid_conn(s: Seq<char>) -> bool {
    is_postgres(s) || is_csv(s) || is_parquet(s) || is_json(s)
}

/// Reads a connection string: a `postgres://` URL, or a path ending in
/// `.csv`, `.parquet`, `.json` or `.ndjson`.
pub fn verify_conn_str(s: &str) -> (r: Result<DatabaseConn, String>)
    ensures
        is_postgres(s@) <==> r matches Ok(DatabaseConn::Postgres(_)),
        is_csv(s@) <==> r matches Ok(DatabaseConn::Csv(_)),
        is_parquet(s@) <==> r matches Ok(DatabaseConn::Parquet(_)),
        is_json(s@) <==> r matches Ok(DatabaseConn::Json(_)),
        r matches Ok(c) ==> conn_str(c) == s@,
        r matches Err(e) ==> !is_valid_conn(s@) && e@ == "Invalid connection string"@,
{
    if has_prefix(s, "postgres://") {
        Ok(DatabaseConn::Postgres(String::from_str(s)))
    } else if has_suffix(s, ".csv") {
        Ok(DatabaseConn::Csv(String::from_str(s)))
    } else if has_suffix(s, ".parquet") {
        Ok(DatabaseConn::Parquet(String::from_str(s)))
    } else if has_suffix(s, ".json") || has_suffix(s, ".ndjson") {
        Ok(DatabaseConn::Json(String::from_str(s)))
    } else {
        Err(String::from_str("Invalid connection string"))
    }
}

/// `connect`: register the dataset behind `conn` under `name`.
#[derive(Debug, Clone)]
pub struct ConnectOpts {
    pub conn: DatabaseConn,
    /// For a database, the table to read.
    pub table: Option<String>,
    pub name: String,
}

impl ConnectOpts {
    pub fn new(conn: DatabaseConn, table: Option<String>, name: String) -> (r: Self)
        ensures
            r.conn == conn,
            r.table == table,
            r.name == name,
    {
        ConnectOpts { conn, table, name }
    }
}

/// `describe`: descriptive statistics of a dataset.
#[derive(Debug, Clone)]
pub struct DescribeOpts {
    pub name: String,
}

impl DescribeOpts {
    pub fn new(name: String) -> (r: Self)
        ensures
            r.name == name,
    {
        DescribeOpts { name }
    }
}

/// `head`: the first `n` rows of a dataset, five by default.
#[derive(Debug, Clone)]
pub struct HeadOpts {
    pub name: String,
    pub n: Option<usize>,
}

impl HeadOpts {
    pub fn new(name: String, n: Option<usize>) -> (r: Self)
        ensures
            r.name == name,
            r.n == n,
    {
        HeadOpts { name, n }
    }
}

/// `list`: the registered datasets.
#[derive(Debug, Clone, Copy)]
pub struct ListOpts;

/// `schema`: the columns of a dataset.
#[derive(Debug, Clone)]
pub struct SchemaOpts {
    pub name: String,
}

impl SchemaOpts {
    pub fn new(name: String) -> (r: Self)
        ensures
            r.name == name,
    {
        SchemaOpts { name }
    }
}

/// `sql`: a query run verbatim against the execution context.
#[derive(Debug, Clone)]
pub struct SqlOpts {
    pub query: String,
}

impl SqlOpts {
    pub fn new(query: String) -> (r: Self)
        ensures
            r.query == query,
    {
        SqlOpts { query }
    }
}

/// `exit`: end the process.
#[derive(Debug, Clone, Copy)]
pub struct ExitOpts;

/// A command of the REPL, with its options.
#[derive(Debug, Clone)]
pub enum ReplCommand {
    Connect(ConnectOpts),
    List(ListOpts),
    Describe(DescribeOpts),
    Schema(SchemaOpts),
    Head(HeadOpts),
    Sql(SqlOpts),
    Exit(ExitOpts),
}

} // verus!
