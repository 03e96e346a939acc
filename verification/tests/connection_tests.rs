use diesel_sentry::ConnectError;
use diesel_sentry::DbError;
use diesel_sentry::DbRow;
use diesel_sentry::Driver;
use diesel_sentry::SentryConnection;
use diesel_sentry::SpanStatus;
use diesel_sentry::TraceContext;
use diesel_sentry::connection::connection_info_from_rows;

const PROBE: &str = "SELECT DATABASE(), VERSION()";

#[derive(Debug)]
struct FakeDriver {
    probe_fails: bool,
}

impl Driver for FakeDriver {
    fn establish(_ctx: &mut TraceContext, url: &str) -> Result<Self, ConnectError> {
        if url == "mysql://bad" {
            Err(ConnectError::BadConnection("refused".to_string()))
        } else if url == "not-a-url" {
            Err(ConnectError::InvalidConnectionUrl("not-a-url".to_string()))
        } else if url == "mysql://noprobe" {
            Ok(FakeDriver { probe_fails: true })
        } else {
            Ok(FakeDriver { probe_fails: false })
        }
    }

    fn batch_execute(&mut self, _ctx: &mut TraceContext, query: &str) -> Result<(), DbError> {
        if query.contains("boom") {
            Err(DbError { message: "syntax error".to_string() })
        } else {
            Ok(())
        }
    }

    fn load(&mut self, _ctx: &mut TraceContext, query: &str) -> Result<Vec<DbRow>, DbError> {
        if self.probe_fails {
            return Err(DbError { message: "probe failed".to_string() });
        }
        if query == PROBE {
            Ok(vec![DbRow { cols: vec!["mydb".to_string(), "8.0.34".to_string()] }])
        } else {
            Ok(vec![DbRow { cols: vec!["row".to_string()] }])
        }
    }

    fn execute_returning_count(
        &mut self,
        _ctx: &mut TraceContext,
        _query: &str,
    ) -> Result<usize, DbError> {
        Ok(3)
    }

    fn ping(&mut self, _ctx: &mut TraceContext) -> Result<(), DbError> {
        Ok(())
    }
}

fn connect(ctx: &mut TraceContext) -> SentryConnection<FakeDriver> {
    SentryConnection::<FakeDriver>::establish(ctx, "mysql://good").unwrap()
}

#[test]
fn establish_probes_database_identity() {
    let mut ctx = TraceContext::new();
    let conn = connect(&mut ctx);
    assert_eq!(conn.info.current_database, "mydb");
    assert_eq!(conn.info.version, "8.0.34");
    assert_eq!(ctx.finished.len(), 1);
    let span = &ctx.finished[0];
    assert_eq!(span.name, "establish");
    assert_eq!(span.op, "db.connection");
    assert_eq!(span.status, SpanStatus::Okay);
    assert_eq!(span.db_system.as_deref(), Some("mysql"));
    assert_eq!(span.otel_kind.as_deref(), Some("client"));
    assert_eq!(span.db_name.as_deref(), Some("mydb"));
    assert_eq!(span.db_version.as_deref(), Some("8.0.34"));
    assert_eq!(ctx.current, None);
}

#[test]
fn establish_failure_propagates_error_verbatim() {
    let mut ctx = TraceContext::new();
    let r = SentryConnection::<FakeDriver>::establish(&mut ctx, "mysql://bad");
    match r {
        Err(ConnectError::BadConnection(msg)) => assert_eq!(msg, "refused"),
        other => panic!("expected the driver's error verbatim, got {other:?}"),
    }
    // the connection span is still finished exactly once, without identity
    assert_eq!(ctx.finished.len(), 1);
    assert_eq!(ctx.finished[0].name, "establish");
    assert_eq!(ctx.finished[0].db_name, None);
    assert_eq!(ctx.finished[0].db_version, None);
    assert_eq!(ctx.current, None);
}

#[test]
fn probe_failure_yields_configuration_error() {
    let mut ctx = TraceContext::new();
    let r = SentryConnection::<FakeDriver>::establish(&mut ctx, "mysql://noprobe");
    match r {
        Err(ConnectError::CouldntSetupConfiguration(e)) => {
            assert_eq!(e.message, "probe failed");
        },
        other => panic!("expected a configuration error, got {other:?}"),
    }
    assert_eq!(ctx.finished.len(), 1);
    assert_eq!(ctx.current, None);
}

#[test]
fn query_spans_carry_connection_identity() {
    let mut ctx = TraceContext::new();
    let mut conn = connect(&mut ctx);
    let rows = conn.load(&mut ctx, "SELECT * FROM users").unwrap();
    assert_eq!(rows.len(), 1);
    assert_eq!(ctx.finished.len(), 2);
    let span = &ctx.finished[1];
    assert_eq!(span.name, "SELECT * FROM users");
    assert_eq!(span.op, "db.sql.query");
    assert_eq!(span.db_statement.as_deref(), Some("SELECT * FROM users"));
    assert_eq!(span.db_name.as_deref(), Some("mydb"));
    assert_eq!(span.db_version.as_deref(), Some("8.0.34"));
    assert_eq!(span.status, SpanStatus::Okay);
}

#[test]
fn batch_execute_failure_still_finishes_span() {
    let mut ctx = TraceContext::new();
    let mut conn = connect(&mut ctx);
    let r = conn.batch_execute(&mut ctx, "boom");
    assert_eq!(r, Err(DbError { message: "syntax error".to_string() }));
    // one establish span, one query span: finish ran on the error path too
    assert_eq!(ctx.finished.len(), 2);
    assert_eq!(ctx.finished[1].name, "boom");
    // the span's status is not marked failed before finishing: it defaults
    assert_eq!(ctx.finished[1].status, SpanStatus::Okay);
    assert_eq!(ctx.current, None);
}

#[test]
fn session_query_runs_untraced() {
    let mut ctx = TraceContext::new();
    let mut conn = connect(&mut ctx);
    let r = conn.batch_execute(&mut ctx, "DELETE FROM `Session` WHERE expired = 1");
    assert_eq!(r, Ok(()));
    assert_eq!(ctx.finished.len(), 1);
}

#[test]
fn execute_returning_count_traces_statement() {
    let mut ctx = TraceContext::new();
    let mut conn = connect(&mut ctx);
    let n = conn.execute_returning_count(&mut ctx, "UPDATE users SET active = 1").unwrap();
    assert_eq!(n, 3);
    assert_eq!(ctx.finished.len(), 2);
    assert_eq!(ctx.finished[1].db_statement.as_deref(), Some("UPDATE users SET active = 1"));
}

#[test]
fn ping_traces_no_span() {
    let mut ctx = TraceContext::new();
    let mut conn = connect(&mut ctx);
    conn.ping(&mut ctx).unwrap();
    assert_eq!(ctx.finished.len(), 1);
}

#[test]
fn transaction_span_tree_with_nested_query() {
    let mut ctx = TraceContext::new();
    let conn = connect(&mut ctx);
    let conn_id = conn.id;
    let (_conn, ctx, r): (_, _, Result<i32, DbError>) = conn.transaction(ctx, |mut c, mut ctx| {
        let txn_id = ctx.current.expect("the transaction span is current");
        let rows = c.load(&mut ctx, "SELECT * FROM orders");
        assert!(rows.is_ok());
        // the inner query span is parented to the transaction span and the
        // transaction span is current again once the query finished
        let inner = ctx.finished.last().unwrap();
        assert_eq!(inner.parent, Some(txn_id));
        assert_eq!(ctx.current, Some(txn_id));
        (c, ctx, Ok(7))
    });
    assert_eq!(r, Ok(7));
    // establish, nested query, then the transaction span, finished last
    assert_eq!(ctx.finished.len(), 3);
    let txn_span = &ctx.finished[2];
    assert_eq!(txn_span.name, uuid::Uuid::from_u128(conn_id).to_string());
    assert_eq!(txn_span.op, "db.transaction");
    assert_eq!(txn_span.status, SpanStatus::Okay);
    assert_eq!(txn_span.parent, None);
    assert_eq!(ctx.finished[1].parent, Some(txn_span.id));
    assert_eq!(ctx.current, None);
}

#[test]
fn transaction_error_still_finishes_span() {
    let mut ctx = TraceContext::new();
    let conn = connect(&mut ctx);
    let (_conn, ctx, r): (_, _, Result<i32, DbError>) = conn.transaction(ctx, |c, ctx| {
        (c, ctx, Err(DbError { message: "rolled back".to_string() }))
    });
    assert_eq!(r, Err(DbError { message: "rolled back".to_string() }));
    assert_eq!(ctx.finished.len(), 2);
    assert_eq!(ctx.finished[1].op, "db.transaction");
    assert_eq!(ctx.current, None);
}

#[test]
fn begin_transaction_handle_restores_parent() {
    let mut ctx = TraceContext::new();
    let mut conn = connect(&mut ctx);
    let mut txn = conn.begin_transaction(&mut ctx);
    let txn_id = txn.transaction.as_ref().unwrap().id;
    assert_eq!(ctx.current, Some(txn_id));
    conn.batch_execute(&mut ctx, "INSERT INTO t VALUES (1)").unwrap();
    assert_eq!(ctx.current, Some(txn_id));
    txn.finish(&mut ctx);
    assert_eq!(ctx.current, None);
    assert_eq!(ctx.finished.len(), 3);
}

#[test]
fn wrapped_wrapper_is_substitutable() {
    let mut ctx = TraceContext::new();
    let conn =
        <SentryConnection<SentryConnection<FakeDriver>> as Driver>::establish(
            &mut ctx,
            "mysql://good",
        )
        .unwrap();
    assert_eq!(conn.info.current_database, "mydb");
    // inner establish span, probe query span through the inner wrapper, and
    // the outer establish span, finished last
    assert_eq!(ctx.finished.len(), 3);
    let outer = &ctx.finished[2];
    assert_eq!(outer.name, "establish");
    assert_eq!(ctx.finished[0].name, "establish");
    assert_eq!(ctx.finished[0].parent, Some(outer.id));
    assert_eq!(ctx.finished[1].name, PROBE);
    assert_eq!(ctx.finished[1].parent, Some(outer.id));
    assert_eq!(ctx.current, None);
}

#[test]
fn probe_rows_map_to_connection_info() {
    let ok = connection_info_from_rows(Ok(vec![DbRow {
        cols: vec!["db1".to_string(), "9.1".to_string(), "extra".to_string()],
    }]));
    let info = ok.unwrap();
    assert_eq!(info.current_database, "db1");
    assert_eq!(info.version, "9.1");

    let err = connection_info_from_rows(Err(DbError { message: "down".to_string() }));
    assert_eq!(
        err,
        Err(ConnectError::CouldntSetupConfiguration(DbError { message: "down".to_string() }))
    );

    let empty = connection_info_from_rows(Ok(vec![]));
    assert!(matches!(empty, Err(ConnectError::CouldntSetupConfiguration(_))));

    let short = connection_info_from_rows(Ok(vec![DbRow { cols: vec!["only".to_string()] }]));
    assert!(matches!(short, Err(ConnectError::CouldntSetupConfiguration(_))));
}

#[test]
fn invalid_url_error_propagates_verbatim() {
    let mut ctx = TraceContext::new();
    let r = SentryConnection::<FakeDriver>::establish(&mut ctx, "not-a-url");
    assert_eq!(r.unwrap_err(), ConnectError::InvalidConnectionUrl("not-a-url".to_string()));
    assert_eq!(ctx.finished.len(), 1);
    assert_eq!(ctx.current, None);
}
