//! The execution context as the dispatch core sees it: which tables are
//! registered, and which engine request each command resolves to.
use vstd::prelude::*;
use vstd::string::StringExecFns;

use crate::cli::{DatabaseConn, ReplCommand};
use crate::describe::{decimal, push_decimal};

verus! {

/// The execution context: the names under which datasets are registered.
/// Registering a name that is already there replaces its dataset.
#[derive(Debug)]
pub struct DataFusionBackend {
    /// Whether the context answers queries on `information_schema`.
    pub information_schema: bool,
    pub tables: Vec<String>,
}

impl DataFusionBackend {
    /// Some table is registered under `name`.
    pub open spec fn has(&self, name: Seq<char>) -> bool {
        exists|i: int| 0 <= i < self.tables@.len() && #[trigger] self.tables@[i]@ == name
    }

    /// A context with no table, which answers queries on
    /// `information_schema`.
    pub fn new() -> (r: Self)
        ensures
            r.information_schema,
            forall|n: Seq<char>| !r.has(n),
    {
        DataFusionBackend { information_schema: true, tables: Vec::new() }
    }

    pub fn is_registered(&self, name: &String) -> (r: bool)
        ensures
            r == self.has(name@),
    {
        let mut i: usize = 0;
        while i < self.tables.len()
            invariant
                i <= self.tables@.len(),
                forall|k: int| 0 <= k < i ==> #[trigger] self.tables@[k]@ != name@,
            decreases self.tables@.len() - i,
        {
            if self.tables[i] == *name {
                return true;
            }
            i = i + 1;
        }
        false
    }

    /// Records that a dataset was registered under `name`.
    pub fn register(&mut self, name: String)
        ensures
            final(self).information_schema == old(self).information_schema,
            forall|n: Seq<char>| #[trigger] final(self).has(n) <==> old(self).has(n) || n == name@,
    {
        if !self.is_registered(&name) {
            let ghost name_view = name@;
            self.tables.push(name);
            assert(self.tables@[self.tables@.len() - 1]@ == name_view);
            assert forall|n: Seq<char>| #[trigger] self.has(n) <==> old(self).has(n) || n == name_view by {
                if old(self).has(n) {
                    let i = choose|i: int| 0 <= i < old(self).tables@.len() && #[trigger] old(self).tables@[i]@ == n;
                    assert(self.tables@[i] == old(self).tables@[i]);
                }
                if self.has(n) {
                    let i = choose|i: int| 0 <= i < self.tables@.len() && #[trigger] self.tables@[i]@ == n;
                    if i < old(self).tables@.len() {
                        assert(self.tables@[i] == old(self).tables@[i]);
                    }
                }
            }
        }
    }
}

/// A request to the SQL engine.
#[derive(Debug, Clone)]
pub enum EngineRequest {
    RegisterCsv { name: String, path: String },
    RegisterParquet { name: String, path: String },
    /// Newline-delimited JSON, read from files with the given extension.
    RegisterJson { name: String, path: String, file_extension: String },
    /// A query whose result is the reply.
    Query { sql: String },
    /// The statistics of the table that `sql` selects in full.
    Describe { name: String, sql: String },
}

pub enum RequestView {
    RegisterCsv(Seq<char>, Seq<char>),
    RegisterParquet(Seq<char>, Seq<char>),
    RegisterJson(Seq<char>, Seq<char>, Seq<char>),
    Query(Seq<char>),
    Describe(Seq<char>, Seq<char>),
}

impl View for EngineRequest {
    type V = RequestView;

    open spec fn view(&self) -> RequestView {
        match self {
            EngineRequest::RegisterCsv { name, path } => RequestView::RegisterCsv(name@, path@),
            EngineRequest::RegisterParquet { name, path } => RequestView::RegisterParquet(
                name@,
                path@,
            ),
            EngineRequest::RegisterJson { name, path, file_extension } => RequestView::RegisterJson(
                name@,
                path@,
                file_extension@,
            ),
            EngineRequest::Query { sql } => RequestView::Query(sql@),
            EngineRequest::Describe { name, sql } => RequestView::Describe(name@, sql@),
        }
    }
}

/// What the dispatch core does with a command.
#[derive(Debug, Clone)]
pub enum Route {
    /// Send a request to the engine; its outcome becomes the reply.
    Engine(EngineRequest),
    /// Reply at once with `text`, after showing `notice` to the user.
    Reply { text: String, notice: String },
    /// End the process without a reply.
    Exit,
}

pub enum RouteView {
    Engine(RequestView),
    /// The reply text, then the notice.
    Reply(Seq<char>, Seq<char>),
    Exit,
}

impl View for Route {
    type V = RouteView;

    open spec fn view(&self) -> RouteView {
        match self {
            Route::Engine(r) => RouteView::Engine(r@),
            Route::Reply { text, notice } => RouteView::Reply(text@, notice@),
            Route::Exit => RouteView::Exit,
        }
    }
}

pub open spec fn list_sql() -> Seq<char> {
    "select table_name, table_type from information_schema.tables where table_schema = 'public'"@
}

/// The number of rows that `head` shows when none is given.
pub const DEFAULT_HEAD_ROWS: usize = 5;

pub open spec fn head_rows(n: Option<usize>) -> nat {
    match n {
        Some(k) => k as nat,
        None => DEFAULT_HEAD_ROWS as nat,
    }
}

/// Where each command goes. A connection that no reader supports still
/// succeeds as a command: it registers nothing, and says so in a notice.
pub open spec fn route_of(cmd: ReplCommand) -> RouteView {
    match cmd {
        ReplCommand::Connect(o) => match o.conn {
            DatabaseConn::Postgres(_) => RouteView::Reply(
                "connect success"@,
                "Postgres is not supported yet"@,
            ),
            DatabaseConn::Csv(p) => RouteView::Engine(RequestView::RegisterCsv(o.name@, p@)),
            DatabaseConn::Parquet(p) => RouteView::Engine(RequestView::RegisterParquet(o.name@, p@)),
            DatabaseConn::Json(p) => RouteView::Engine(
                RequestView::RegisterJson(o.name@, p@, ".ndjson"@),
            ),
        },
        ReplCommand::List(_) => RouteView::Engine(RequestView::Query(list_sql())),
        ReplCommand::Describe(o) => RouteView::Engine(
            RequestView::Describe(o.name@, "select * from "@ + o.name@),
        ),
        ReplCommand::Schema(o) => RouteView::Engine(RequestView::Query("DESCRIBE "@ + o.name@)),
        ReplCommand::Head(o) => RouteView::Engine(
            RequestView::Query(
                "SELECT * FROM "@ + o.name@ + " LIMIT "@ + decimal(head_rows(o.n)),
            ),
        ),
        ReplCommand::Sql(o) => RouteView::Engine(RequestView::Query(o.query@)),
        ReplCommand::Exit(_) => RouteView::Exit,
    }
}

/// Resolves a command to what the dispatch core does with it.
pub fn route(cmd: &ReplCommand) -> (r: Route)
    ensures
        r@ == route_of(*cmd),
{
    match cmd {
        ReplCommand::Connect(o) => match &o.conn {
            DatabaseConn::Postgres(_) => Route::Reply {
                text: String::from_str("connect success"),
                notice: String::from_str("Postgres is not supported yet"),
            },
            DatabaseConn::Csv(p) => Route::Engine(
                EngineRequest::RegisterCsv { name: o.name.clone(), path: p.clone() },
            ),
            DatabaseConn::Parquet(p) => Route::Engine(
                EngineRequest::RegisterParquet { name: o.name.clone(), path: p.clone() },
            ),
            DatabaseConn::Json(p) => Route::Engine(
                EngineRequest::RegisterJson {
                    name: o.name.clone(),
                    path: p.clone(),
                    file_extension: String::from_str(".ndjson"),
                },
            ),
        },
        ReplCommand::List(_) => Route::Engine(
            EngineRequest::Query {
                sql: String::from_str(
                    "select table_name, table_type from information_schema.tables where table_schema = 'public'",
                ),
            },
        ),
        ReplCommand::Describe(o) => {
            let mut sql = String::from_str("select * from ");
            sql.append(o.name.as_str());
            Route::Engine(EngineRequest::Describe { name: o.name.clone(), sql })
        },
        ReplCommand::Schema(o) => {
            let mut sql = String::from_str("DESCRIBE ");
            sql.append(o.name.as_str());
            Route::Engine(EngineRequest::Query { sql })
        },
        ReplCommand::Head(o) => {
            let n = match o.n {
                Some(k) => k,
                None => DEFAULT_HEAD_ROWS,
            };
            let mut sql = String::from_str("SELECT * FROM ");
            sql.append(o.name.as_str());
            sql.append(" LIMIT ");
            push_decimal(&mut sql, n);
            Route::Engine(EngineRequest::Query { sql })
        },
        ReplCommand::Sql(o) => Route::Engine(EngineRequest::Query { sql: o.query.clone() }),
        ReplCommand::Exit(_) => Route::Exit,
    }
}

} // verus!
