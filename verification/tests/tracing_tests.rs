use diesel_sentry::SpanStatus;
use diesel_sentry::TraceContext;
use diesel_sentry::start_sentry_db_transaction;

#[test]
fn start_finish_delivers_one_span() {
    let mut ctx = TraceContext::new();
    let mut t = start_sentry_db_transaction(&mut ctx, "sql.query", "SELECT 1");
    assert!(!t.skip);
    t.finish(&mut ctx);
    assert_eq!(ctx.finished.len(), 1);
    let span = &ctx.finished[0];
    assert_eq!(span.name, "SELECT 1");
    assert_eq!(span.op, "db.sql.query");
    assert_eq!(span.status, SpanStatus::Okay);
    assert_eq!(ctx.current, None);
}

#[test]
fn session_label_is_skipped() {
    let mut ctx = TraceContext::new();
    let label = "SELECT * FROM `Session` WHERE id = 1";
    let mut t = start_sentry_db_transaction(&mut ctx, "sql.query", label);
    assert!(t.skip);
    assert!(t.transaction.is_none());
    assert_eq!(ctx.finished.len(), 0);
    assert_eq!(ctx.current, None);
    t.finish(&mut ctx);
    assert_eq!(ctx.finished.len(), 0);
    assert_eq!(ctx.current, None);
}

#[test]
fn non_session_label_is_not_skipped() {
    let mut ctx = TraceContext::new();
    // mentions the table without the exact backtick-and-space marker
    let mut t = start_sentry_db_transaction(&mut ctx, "sql.query", "SELECT * FROM Session");
    assert!(!t.skip);
    t.finish(&mut ctx);
    assert_eq!(ctx.finished.len(), 1);
}

#[test]
fn nested_operation_parent_and_restore() {
    let mut ctx = TraceContext::new();
    let mut a = start_sentry_db_transaction(&mut ctx, "transaction", "outer");
    let a_id = a.transaction.as_ref().unwrap().id;
    assert_eq!(ctx.current, Some(a_id));

    let mut b = start_sentry_db_transaction(&mut ctx, "sql.query", "SELECT 2");
    let b_span = b.transaction.as_ref().unwrap();
    assert_eq!(b_span.parent, Some(a_id));
    assert_eq!(b.parent_span, Some(a_id));

    b.finish(&mut ctx);
    assert_eq!(ctx.current, Some(a_id));

    a.finish(&mut ctx);
    assert_eq!(ctx.current, None);
    assert_eq!(ctx.finished.len(), 2);
    assert_eq!(ctx.finished[0].name, "SELECT 2");
    assert_eq!(ctx.finished[1].name, "outer");
}

#[test]
fn finish_twice_is_a_noop() {
    let mut ctx = TraceContext::new();
    let mut t = start_sentry_db_transaction(&mut ctx, "sql.query", "SELECT 3");
    t.finish(&mut ctx);
    assert_eq!(ctx.finished.len(), 1);
    t.finish(&mut ctx);
    assert_eq!(ctx.finished.len(), 1);
}

#[test]
fn explicit_status_is_kept() {
    let mut ctx = TraceContext::new();
    let mut t = start_sentry_db_transaction(&mut ctx, "sql.query", "SELECT 4");
    t.set_status(SpanStatus::Failed);
    t.finish(&mut ctx);
    assert_eq!(ctx.finished[0].status, SpanStatus::Failed);
}

#[test]
fn recorded_attributes_are_delivered() {
    let mut ctx = TraceContext::new();
    let mut t = start_sentry_db_transaction(&mut ctx, "sql.query", "SELECT 5");
    t.record_db_system("mysql");
    t.record_otel_kind("client");
    t.record_db_info("mydb", "8.0.34");
    t.record_db_statement("SELECT 5");
    t.finish(&mut ctx);
    let span = &ctx.finished[0];
    assert_eq!(span.db_system.as_deref(), Some("mysql"));
    assert_eq!(span.otel_kind.as_deref(), Some("client"));
    assert_eq!(span.db_name.as_deref(), Some("mydb"));
    assert_eq!(span.db_version.as_deref(), Some("8.0.34"));
    assert_eq!(span.db_statement.as_deref(), Some("SELECT 5"));
}

#[test]
fn root_span_has_no_parent() {
    let mut ctx = TraceContext::new();
    let t = start_sentry_db_transaction(&mut ctx, "connection", "establish");
    let span = t.transaction.as_ref().unwrap();
    assert_eq!(span.parent, None);
    assert_eq!(t.parent_span, None);
}

#[test]
fn session_marker_alone_is_noisy() {
    let mut ctx = TraceContext::new();
    let t = start_sentry_db_transaction(&mut ctx, "sql.query", " `Session` ");
    assert!(t.skip);
}

#[test]
fn session_marker_at_either_end_is_noisy() {
    let mut ctx = TraceContext::new();
    let t = start_sentry_db_transaction(&mut ctx, "sql.query", " `Session` joined");
    assert!(t.skip);
    let t = start_sentry_db_transaction(&mut ctx, "sql.query", "DELETE FROM `Session` ");
    assert!(t.skip);
}

#[test]
fn label_shorter_than_marker_is_kept() {
    let mut ctx = TraceContext::new();
    let mut t = start_sentry_db_transaction(&mut ctx, "sql.query", "Session");
    assert!(!t.skip);
    t.finish(&mut ctx);
    assert_eq!(ctx.finished.len(), 1);
}
