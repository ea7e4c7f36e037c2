use taotie::backend::EngineRequest;
use taotie::cli::{
    ConnectOpts, DatabaseConn, ExitOpts, HeadOpts, ListOpts, ReplCommand, SchemaOpts,
};
use taotie::dispatch::{Action, DispatchCore, WorkerState};

fn head(n: usize) -> ReplCommand {
    ReplCommand::Head(HeadOpts::new("T".into(), Some(n)))
}

fn executed(a: Action) -> (u64, String) {
    match a {
        Action::Execute { ticket, request: EngineRequest::Query { sql } } => (ticket, sql),
        other => panic!("unexpected action {:?}", other),
    }
}

#[test]
fn commands_run_in_submission_order() {
    let mut d = DispatchCore::new();
    let t3 = d.submit(head(3));
    let t5 = d.submit(head(5));
    let (ticket, sql) = executed(d.next_action());
    assert_eq!(ticket, t3);
    assert_eq!(sql, "SELECT * FROM T LIMIT 3");
    // at most one command in flight
    assert!(matches!(d.next_action(), Action::Wait));
    let r = d.complete(Ok("three rows".into()));
    assert_eq!((r.ticket, r.text.as_str()), (t3, "three rows"));
    let (ticket, sql) = executed(d.next_action());
    assert_eq!(ticket, t5);
    assert_eq!(sql, "SELECT * FROM T LIMIT 5");
    let r = d.complete(Ok("five rows".into()));
    assert_eq!((r.ticket, r.text.as_str()), (t5, "five rows"));
    assert!(matches!(d.next_action(), Action::Wait));
}

#[test]
fn schema_twice_sends_the_same_query() {
    let mut d = DispatchCore::new();
    d.submit(ReplCommand::Schema(SchemaOpts::new("T".into())));
    d.submit(ReplCommand::Schema(SchemaOpts::new("T".into())));
    let (_, first) = executed(d.next_action());
    d.complete(Ok("id Int64".into()));
    let (_, second) = executed(d.next_action());
    assert_eq!(first, second);
    assert_eq!(first, "DESCRIBE T");
    assert!(d.backend.tables.is_empty());
}

#[test]
fn postgres_connect_does_not_register() {
    let mut d = DispatchCore::new();
    let pg = ConnectOpts::new(DatabaseConn::Postgres("postgres://x".into()), None, "T".into());
    let t = d.submit(ReplCommand::Connect(pg));
    d.submit(ReplCommand::List(ListOpts));
    match d.next_action() {
        Action::Reply(r) => {
            assert_eq!(r.ticket, t);
            assert_eq!(r.text, "connect success");
            assert_eq!(r.notice.as_deref(), Some("Postgres is not supported yet"));
        }
        other => panic!("unexpected action {:?}", other),
    }
    assert!(matches!(d.state, WorkerState::Idle));
    let (_, sql) = executed(d.next_action());
    assert!(sql.starts_with("select table_name"));
    assert!(!d.backend.is_registered(&"T".to_string()));
}

#[test]
fn connect_registers_on_success_only() {
    let mut d = DispatchCore::new();
    let ok = ConnectOpts::new(DatabaseConn::Csv("a.csv".into()), None, "A".into());
    let bad = ConnectOpts::new(DatabaseConn::Parquet("b.parquet".into()), None, "B".into());
    d.submit(ReplCommand::Connect(ok));
    d.submit(ReplCommand::Connect(bad));
    assert!(matches!(d.next_action(), Action::Execute { request: EngineRequest::RegisterCsv { .. }, .. }));
    let r = d.complete(Ok(String::new()));
    assert_eq!(r.text, "connect success");
    assert!(r.notice.is_none());
    assert!(matches!(d.next_action(), Action::Execute { request: EngineRequest::RegisterParquet { .. }, .. }));
    let r = d.complete(Err("no such file".into()));
    assert_eq!(r.text, "Error: no such file");
    assert!(d.backend.is_registered(&"A".to_string()));
    assert!(!d.backend.is_registered(&"B".to_string()));
}

#[test]
fn exit_stops_the_core() {
    let mut d = DispatchCore::new();
    d.submit(ReplCommand::Exit(ExitOpts));
    d.submit(head(1));
    assert!(matches!(d.next_action(), Action::Exit));
    assert!(matches!(d.state, WorkerState::Stopped));
    assert!(matches!(d.next_action(), Action::Exit));
    assert_eq!(d.pending.len(), 1);
}
