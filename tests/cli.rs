use taotie::backend::{route, DataFusionBackend, EngineRequest, Route, DEFAULT_HEAD_ROWS};
use taotie::cli::{
    has_prefix, has_suffix, verify_conn_str, ConnectOpts, DatabaseConn, DescribeOpts, ExitOpts,
    HeadOpts, ListOpts, ReplCommand, SchemaOpts, SqlOpts,
};

fn query_of(cmd: &ReplCommand) -> String {
    match route(cmd) {
        Route::Engine(EngineRequest::Query { sql }) => sql,
        other => panic!("unexpected route {:?}", other),
    }
}

#[test]
fn prefix_and_suffix() {
    assert!(has_prefix("postgres://x", "postgres://"));
    assert!(!has_prefix("postgres:/", "postgres://"));
    assert!(has_suffix("a/b.csv", ".csv"));
    assert!(!has_suffix("a/b.csvx", ".csv"));
    assert!(has_suffix("", ""));
}

#[test]
fn connection_strings_by_scheme_and_suffix() {
    assert!(matches!(verify_conn_str("postgres://u@h/db"), Ok(DatabaseConn::Postgres(s)) if s == "postgres://u@h/db"));
    assert!(matches!(verify_conn_str("data/a.csv"), Ok(DatabaseConn::Csv(s)) if s == "data/a.csv"));
    assert!(matches!(verify_conn_str("a.parquet"), Ok(DatabaseConn::Parquet(_))));
    assert!(matches!(verify_conn_str("a.json"), Ok(DatabaseConn::Json(_))));
    assert!(matches!(verify_conn_str("a.ndjson"), Ok(DatabaseConn::Json(_))));
    assert!(matches!(verify_conn_str("postgres://x.csv"), Ok(DatabaseConn::Postgres(_))));
}

#[test]
fn invalid_connection_string() {
    assert_eq!(verify_conn_str("a.txt").unwrap_err(), "Invalid connection string");
    assert_eq!(verify_conn_str("").unwrap_err(), "Invalid connection string");
}

#[test]
fn option_constructors() {
    let c = ConnectOpts::new(DatabaseConn::Csv("a.csv".into()), Some("t".into()), "T".into());
    assert_eq!(c.name, "T");
    assert_eq!(c.table.as_deref(), Some("t"));
    assert_eq!(DescribeOpts::new("T".into()).name, "T");
    let h = HeadOpts::new("T".into(), Some(3));
    assert_eq!(h.n, Some(3));
    assert_eq!(SchemaOpts::new("T".into()).name, "T");
    assert_eq!(SqlOpts::new("select 1".into()).query, "select 1");
}

#[test]
fn routes_of_queries() {
    assert_eq!(
        query_of(&ReplCommand::Head(HeadOpts::new("T".into(), None))),
        format!("SELECT * FROM T LIMIT {}", DEFAULT_HEAD_ROWS)
    );
    assert_eq!(
        query_of(&ReplCommand::Head(HeadOpts::new("T".into(), Some(3)))),
        "SELECT * FROM T LIMIT 3"
    );
    assert_eq!(query_of(&ReplCommand::Schema(SchemaOpts::new("T".into()))), "DESCRIBE T");
    assert_eq!(query_of(&ReplCommand::Sql(SqlOpts::new("select 1".into()))), "select 1");
    assert_eq!(
        query_of(&ReplCommand::List(ListOpts)),
        "select table_name, table_type from information_schema.tables where table_schema = 'public'"
    );
    match route(&ReplCommand::Describe(DescribeOpts::new("T".into()))) {
        Route::Engine(EngineRequest::Describe { name, sql }) => {
            assert_eq!(name, "T");
            assert_eq!(sql, "select * from T");
        }
        other => panic!("unexpected route {:?}", other),
    }
}

#[test]
fn routes_of_connect_and_exit() {
    let csv = ConnectOpts::new(DatabaseConn::Csv("a.csv".into()), None, "T".into());
    assert!(matches!(route(&ReplCommand::Connect(csv)),
        Route::Engine(EngineRequest::RegisterCsv { name, path }) if name == "T" && path == "a.csv"));
    let json = ConnectOpts::new(DatabaseConn::Json("a.json".into()), None, "J".into());
    assert!(matches!(route(&ReplCommand::Connect(json)),
        Route::Engine(EngineRequest::RegisterJson { file_extension, .. }) if file_extension == ".ndjson"));
    let pg = ConnectOpts::new(DatabaseConn::Postgres("postgres://x".into()), None, "T".into());
    assert!(matches!(route(&ReplCommand::Connect(pg)),
        Route::Reply { text, notice } if text == "connect success" && notice == "Postgres is not supported yet"));
    assert!(matches!(route(&ReplCommand::Exit(ExitOpts)), Route::Exit));
}

#[test]
fn backend_registration() {
    let mut b = DataFusionBackend::new();
    assert!(b.information_schema);
    assert!(!b.is_registered(&"T".to_string()));
    b.register("T".to_string());
    b.register("T".to_string());
    assert!(b.is_registered(&"T".to_string()));
    assert_eq!(b.tables.len(), 1);
}
