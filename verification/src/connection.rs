//! An instrumented database connection.
//!
//! [`SentryConnection`] wraps an underlying database driver and brackets each
//! of its capabilities — establish, batch execution, row-returning queries,
//! count-returning execution, transactions — with a tracing span carrying the
//! operation's metadata. Results and errors of the wrapped driver are returned
//! unchanged; the wrapper only surrounds them. The driver is reached through
//! the [`Driver`] capability interface, and the wrapper implements that same
//! interface, so it is substitutable wherever a plain driver is expected.
//!
//! The wrapper does not inspect the delegated call's result when it finishes
//! a span: a failed operation's span is still delivered with the default
//! `Okay` status, as the contracts below state.
use vstd::prelude::*;
use vstd::seq_lib::*;
use vstd::string::*;

use crate::trace::CtxModel;
use crate::trace::SentryTransaction;
use crate::trace::SpanModel;
use crate::trace::SpanStatus;
use crate::trace::TraceContext;
use crate::trace::db_op;
use crate::trace::is_noisy;
use crate::trace::lemma_no_space_not_noisy;
use crate::trace::sat_inc;
use crate::trace::start_sentry_db_transaction;

verus! {

/// Immutable snapshot of the connected database's identity, captured once at
/// establish time by the capability-probe query and attached to every span
/// the connection produces.
#[derive(Clone, Debug, PartialEq, Default)]
pub struct ConnectionInfo {
    pub current_database: String,
    pub version: String,
}

/// One result row, as the text of its columns.
#[derive(Clone, Debug, PartialEq)]
pub struct DbRow {
    pub cols: Vec<String>,
}

/// An error of the underlying driver while running a query. It is propagated
/// unchanged by the wrapper.
#[derive(Clone, Debug, PartialEq)]
pub struct DbError {
    pub message: String,
}

/// An error while establishing a connection. Errors of the underlying driver
/// propagate verbatim; `CouldntSetupConfiguration` is the one error the
/// wrapper introduces itself, when the connection succeeded but the
/// capability probe did not.
#[derive(Clone, Debug, PartialEq)]
pub enum ConnectError {
    BadConnection(String),
    InvalidConnectionUrl(String),
    CouldntSetupConfiguration(DbError),
}

/// The capability interface of an underlying database connection. Every
/// method leaves the tracing context's current span as it found it and only
/// ever appends to the log of finished spans: a plain driver touches neither,
/// and an instrumented connection appends the spans of its own operations.
pub trait Driver: Sized {
    /// Connect to the database at `url`.
    fn establish(ctx: &mut TraceContext, url: &str) -> (r: Result<Self, ConnectError>)
        ensures
            final(ctx)@.current == old(ctx)@.current,
            old(ctx)@.finished.is_prefix_of(final(ctx)@.finished),
    ;

    /// Run one or more semicolon-separated statements.
    fn batch_execute(&mut self, ctx: &mut TraceContext, query: &str) -> (r: Result<(), DbError>)
        ensures
            final(ctx)@.current == old(ctx)@.current,
            old(ctx)@.finished.is_prefix_of(final(ctx)@.finished),
    ;

    /// Run a query and return its rows.
    fn load(&mut self, ctx: &mut TraceContext, query: &str) -> (r: Result<Vec<DbRow>, DbError>)
        ensures
            final(ctx)@.current == old(ctx)@.current,
            old(ctx)@.finished.is_prefix_of(final(ctx)@.finished),
    ;

    /// Run a statement and return the number of affected rows.
    fn execute_returning_count(&mut self, ctx: &mut TraceContext, query: &str) -> (r: Result<
        usize,
        DbError,
    >)
        ensures
            final(ctx)@.current == old(ctx)@.current,
            old(ctx)@.finished.is_prefix_of(final(ctx)@.finished),
    ;

    /// Health check.
    fn ping(&mut self, ctx: &mut TraceContext) -> (r: Result<(), DbError>)
        ensures
            final(ctx)@.current == old(ctx)@.current,
            old(ctx)@.finished.is_prefix_of(final(ctx)@.finished),
    ;
}

/// A name for the hyphenated text form of a 128-bit UUID value, a pure
/// function of the value.
pub uninterp spec fn uuid_text(id: u128) -> Seq<char>;

/// Relies on uuid::Uuid::new_v4: a freshly generated random (version 4)
/// UUID, returned as its 128-bit value. The result depends on randomness, so
/// nothing is promised of it.
#[verifier::external_body]
fn new_connection_id() -> u128 {
    uuid::Uuid::new_v4().as_u128()
}

/// Relies on uuid::Uuid::from_u128 and uuid's Display implementation: the
/// hyphenated form of the value, 36 characters, each a lowercase hexadecimal
/// digit or a hyphen, depending on the value alone.
#[verifier::external_body]
fn uuid_string(id: u128) -> (r: String)
    ensures
        r@ == uuid_text(id),
        r@.len() == 36,
        forall|i: int|
            0 <= i < r@.len() ==> ((#[trigger] r@[i]) == '-' || ('0' <= r@[i] && r@[i] <= '9')
                || ('a' <= r@[i] && r@[i] <= 'f')),
{
    uuid::Uuid::from_u128(id).to_string()
}

/// The context's finished-span log grew only by spans of inner operations.
pub open spec fn untraced_tail(pre: CtxModel, post: CtxModel) -> bool {
    exists|mid: Seq<SpanModel>| post.finished == pre.finished + mid
}

/// The context's finished-span log grew by spans of inner operations followed
/// by `sp`, the span of the operation itself, finished last.
pub open spec fn traced_tail(pre: CtxModel, post: CtxModel, sp: SpanModel) -> bool {
    exists|mid: Seq<SpanModel>| post.finished == pre.finished + mid + seq![sp]
}

proof fn lemma_split_prefix(pre: Seq<SpanModel>, post: Seq<SpanModel>)
    requires
        pre.is_prefix_of(post),
    ensures
        post == pre + post.skip(pre.len() as int),
{
    assert(post =~= pre + post.skip(pre.len() as int));
}

/// A log that grew by inner spans and one own span in particular grew only by
/// appending.
pub proof fn lemma_traced_tail_prefix(pre: CtxModel, post: CtxModel, sp: SpanModel)
    requires
        traced_tail(pre, post, sp),
    ensures
        pre.finished.is_prefix_of(post.finished),
{
    let mid = choose|mid: Seq<SpanModel>| post.finished == pre.finished + mid + seq![sp];
    assert(pre.finished =~= post.finished.subrange(0, pre.finished.len() as int));
}

/// A log that grew by inner spans alone grew only by appending.
pub proof fn lemma_untraced_tail_prefix(pre: CtxModel, post: CtxModel)
    requires
        untraced_tail(pre, post),
    ensures
        pre.finished.is_prefix_of(post.finished),
{
    let mid = choose|mid: Seq<SpanModel>| post.finished == pre.finished + mid;
    assert(pre.finished =~= post.finished.subrange(0, pre.finished.len() as int));
}

/// The span a query operation delivers: named with the statement text, of
/// operation type `db.sql.query`, carrying the statement and the connection's
/// database identity, finished with status `Okay`.
pub open spec fn query_span_model(pre: CtxModel, info: ConnectionInfo, sql: Seq<char>) -> SpanModel {
    SpanModel {
        id: pre.next_id,
        parent: pre.current,
        name: sql,
        op: db_op("sql.query"@),
        status: SpanStatus::Okay,
        otel_kind: Some("client"@),
        db_system: Some("mysql"@),
        db_name: Some(info.current_database@),
        db_version: Some(info.version@),
        db_statement: Some(sql),
    }
}

/// The span `establish` delivers: named `establish`, of operation type
/// `db.connection`, carrying the probed database identity on success and no
/// identity on failure.
pub open spec fn establish_span_model(pre: CtxModel, info: Option<ConnectionInfo>) -> SpanModel {
    SpanModel {
        id: pre.next_id,
        parent: pre.current,
        name: "establish"@,
        op: db_op("connection"@),
        status: SpanStatus::Okay,
        otel_kind: Some("client"@),
        db_system: Some("mysql"@),
        db_name: match info {
            Some(i) => Some(i.current_database@),
            None => None,
        },
        db_version: match info {
            Some(i) => Some(i.version@),
            None => None,
        },
        db_statement: None,
    }
}

/// The span a transaction starts: named with the connection's identifier in
/// text form, of operation type `db.transaction`, status still unset.
pub open spec fn txn_span_model(pre: CtxModel, info: ConnectionInfo, id: u128) -> SpanModel {
    SpanModel {
        id: pre.next_id,
        parent: pre.current,
        name: uuid_text(id),
        op: db_op("transaction"@),
        status: SpanStatus::Unset,
        otel_kind: Some("client"@),
        db_system: Some("mysql"@),
        db_name: Some(info.current_database@),
        db_version: Some(info.version@),
        db_statement: None,
    }
}

/// The database identity that `establish` records on the connection span is
/// the identity every later query span of that connection carries: both take
/// their `db.name` and `db.version` from the same immutable snapshot.
pub proof fn lemma_info_shared_by_spans(
    pre_establish: CtxModel,
    pre_query: CtxModel,
    info: ConnectionInfo,
    sql: Seq<char>,
)
    ensures
        establish_span_model(pre_establish, Some(info)).db_name == query_span_model(
            pre_query,
            info,
            sql,
        ).db_name,
        establish_span_model(pre_establish, Some(info)).db_version == query_span_model(
            pre_query,
            info,
            sql,
        ).db_version,
{
}

/// Turn the capability probe's outcome into the connection's identity
/// snapshot. A failed probe, a probe without rows, and a row without the two
/// expected columns all yield the `CouldntSetupConfiguration` error; a row
/// with at least two columns yields its first column as the database name and
/// its second as the version.
pub fn connection_info_from_rows(rows: Result<Vec<DbRow>, DbError>) -> (r: Result<
    ConnectionInfo,
    ConnectError,
>)
    ensures
        match rows {
            Result::Err(e) => r == Result::<ConnectionInfo, ConnectError>::Err(
                ConnectError::CouldntSetupConfiguration(e),
            ),
            Result::Ok(rs) => {
                if rs@.len() >= 1 && rs@[0].cols@.len() >= 2 {
                    &&& r is Ok
                    &&& r->Ok_0.current_database == rs@[0].cols@[0]
                    &&& r->Ok_0.version == rs@[0].cols@[1]
                } else {
                    &&& r is Err
                    &&& r->Err_0 is CouldntSetupConfiguration
                }
            },
        },
{
    match rows {
        Result::Err(e) => Result::Err(ConnectError::CouldntSetupConfiguration(e)),
        Result::Ok(mut rs) => {
            if rs.len() >= 1 {
                let row = rs.remove(0);
                let mut cols = row.cols;
                if cols.len() >= 2 {
                    let current_database = cols.remove(0);
                    let version = cols.remove(0);
                    Result::Ok(ConnectionInfo { current_database, version })
                } else {
                    Result::Err(ConnectError::CouldntSetupConfiguration(DbError {
                        message: "could not determine the database name and version".to_owned(),
                    }))
                }
            } else {
                Result::Err(ConnectError::CouldntSetupConfiguration(DbError {
                    message: "could not determine the database name and version".to_owned(),
                }))
            }
        },
    }
}

/// A connection wrapper that includes tracing points: it delegates every
/// capability to the wrapped driver and surrounds each with a span.
#[derive(Debug)]
pub struct SentryConnection<C: Driver> {
    pub inner: C,
    pub id: u128,
    pub info: ConnectionInfo,
}

impl<C: Driver> SentryConnection<C> {
    /// Establish a connection: generate the connection's identifier, start a
    /// `connection`-kind span named `establish`, delegate to the driver, and
    /// on success probe the database for its name and version, record them on
    /// the still-open span, and finish it. A driver failure propagates
    /// verbatim; a probe failure yields `CouldntSetupConfiguration`. The span
    /// is finished exactly once on every path, and the current span is
    /// restored.
    pub fn establish(ctx: &mut TraceContext, url: &str) -> (r: Result<Self, ConnectError>)
        ensures
            final(ctx)@.current == old(ctx)@.current,
            match r {
                Result::Ok(conn) => traced_tail(
                    old(ctx)@,
                    final(ctx)@,
                    establish_span_model(old(ctx)@, Some(conn.info)),
                ),
                Result::Err(_) => traced_tail(
                    old(ctx)@,
                    final(ctx)@,
                    establish_span_model(old(ctx)@, None),
                ),
            },
    {
        let id = new_connection_id();
        proof {
            reveal_strlit("establish");
            reveal_strlit(" `Session` ");
            assert(!is_noisy("establish"@));
        }
        let mut txn = start_sentry_db_transaction(ctx, "connection", "establish");
        txn.record_db_system("mysql");
        txn.record_otel_kind("client");
        let ghost c_started = ctx@;
        let inner_r = C::establish(ctx, url);
        match inner_r {
            Result::Err(e) => {
                let ghost c_mid = ctx@;
                txn.finish(ctx);
                proof {
                    lemma_split_prefix(old(ctx)@.finished, c_mid.finished);
                    let mid = c_mid.finished.skip(old(ctx)@.finished.len() as int);
                    assert(ctx@.finished =~= old(ctx)@.finished + mid + seq![
                        establish_span_model(old(ctx)@, None),
                    ]);
                }
                Result::Err(e)
            },
            Result::Ok(mut inner) => {
                let rows = inner.load(ctx, "SELECT DATABASE(), VERSION()");
                let info_r = connection_info_from_rows(rows);
                match info_r {
                    Result::Err(e) => {
                        let ghost c_mid = ctx@;
                        txn.finish(ctx);
                        proof {
                            assert(c_started.finished.is_prefix_of(c_mid.finished));
                            lemma_split_prefix(old(ctx)@.finished, c_mid.finished);
                            let mid = c_mid.finished.skip(old(ctx)@.finished.len() as int);
                            assert(ctx@.finished =~= old(ctx)@.finished + mid + seq![
                                establish_span_model(old(ctx)@, None),
                            ]);
                        }
                        Result::Err(e)
                    },
                    Result::Ok(info) => {
                        txn.record_db_info(info.current_database.as_str(), info.version.as_str());
                        let ghost c_mid = ctx@;
                        txn.finish(ctx);
                        proof {
                            assert(c_started.finished.is_prefix_of(c_mid.finished));
                            lemma_split_prefix(old(ctx)@.finished, c_mid.finished);
                            let mid = c_mid.finished.skip(old(ctx)@.finished.len() as int);
                            assert(ctx@.finished =~= old(ctx)@.finished + mid + seq![
                                establish_span_model(old(ctx)@, Some(info)),
                            ]);
                        }
                        Result::Ok(SentryConnection { inner, id, info })
                    },
                }
            },
        }
    }

    /// Run one or more statements, surrounded by a `sql.query` span named
    /// with the statement text and carrying it as `db.statement`, together
    /// with the connection's database identity. A noisy statement runs
    /// untraced. The driver's result is returned unchanged and the current
    /// span is restored on every path.
    pub fn batch_execute(&mut self, ctx: &mut TraceContext, query: &str) -> (r: Result<
        (),
        DbError,
    >)
        ensures
            final(self).id == old(self).id,
            final(self).info == old(self).info,
            final(ctx)@.current == old(ctx)@.current,
            !is_noisy(query@) ==> traced_tail(
                old(ctx)@,
                final(ctx)@,
                query_span_model(old(ctx)@, old(self).info, query@),
            ),
            is_noisy(query@) ==> untraced_tail(old(ctx)@, final(ctx)@),
    {
        let mut txn = start_sentry_db_transaction(ctx, "sql.query", query);
        txn.record_db_system("mysql");
        txn.record_otel_kind("client");
        txn.record_db_info(self.info.current_database.as_str(), self.info.version.as_str());
        txn.record_db_statement(query);
        let ghost c_started = ctx@;
        let result = self.inner.batch_execute(ctx, query);
        let ghost c_mid = ctx@;
        txn.finish(ctx);
        proof {
            lemma_split_prefix(c_started.finished, c_mid.finished);
            let mid = c_mid.finished.skip(c_started.finished.len() as int);
            if !is_noisy(query@) {
                assert(ctx@.finished =~= old(ctx)@.finished + mid + seq![
                    query_span_model(old(ctx)@, old(self).info, query@),
                ]);
            } else {
                assert(ctx@.finished =~= old(ctx)@.finished + mid);
            }
        }
        result
    }

    /// Run a query and return its rows, surrounded by a `sql.query` span as
    /// for [`Self::batch_execute`].
    pub fn load(&mut self, ctx: &mut TraceContext, query: &str) -> (r: Result<Vec<DbRow>, DbError>)
        ensures
            final(self).id == old(self).id,
            final(self).info == old(self).info,
            final(ctx)@.current == old(ctx)@.current,
            !is_noisy(query@) ==> traced_tail(
                old(ctx)@,
                final(ctx)@,
                query_span_model(old(ctx)@, old(self).info, query@),
            ),
            is_noisy(query@) ==> untraced_tail(old(ctx)@, final(ctx)@),
    {
        let mut txn = start_sentry_db_transaction(ctx, "sql.query", query);
        txn.record_db_system("mysql");
        txn.record_otel_kind("client");
        txn.record_db_info(self.info.current_database.as_str(), self.info.version.as_str());
        txn.record_db_statement(query);
        let ghost c_started = ctx@;
        let result = self.inner.load(ctx, query);
        let ghost c_mid = ctx@;
        txn.finish(ctx);
        proof {
            lemma_split_prefix(c_started.finished, c_mid.finished);
            let mid = c_mid.finished.skip(c_started.finished.len() as int);
            if !is_noisy(query@) {
                assert(ctx@.finished =~= old(ctx)@.finished + mid + seq![
                    query_span_model(old(ctx)@, old(self).info, query@),
                ]);
            } else {
                assert(ctx@.finished =~= old(ctx)@.finished + mid);
            }
        }
        result
    }

    /// Run a statement and return the number of affected rows, surrounded by
    /// a `sql.query` span as for [`Self::batch_execute`].
    pub fn execute_returning_count(&mut self, ctx: &mut TraceContext, query: &str) -> (r: Result<
        usize,
        DbError,
    >)
        ensures
            final(self).id == old(self).id,
            final(self).info == old(self).info,
            final(ctx)@.current == old(ctx)@.current,
            !is_noisy(query@) ==> traced_tail(
                old(ctx)@,
                final(ctx)@,
                query_span_model(old(ctx)@, old(self).info, query@),
            ),
            is_noisy(query@) ==> untraced_tail(old(ctx)@, final(ctx)@),
    {
        let mut txn = start_sentry_db_transaction(ctx, "sql.query", query);
        txn.record_db_system("mysql");
        txn.record_otel_kind("client");
        txn.record_db_info(self.info.current_database.as_str(), self.info.version.as_str());
        txn.record_db_statement(query);
        let ghost c_started = ctx@;
        let result = self.inner.execute_returning_count(ctx, query);
        let ghost c_mid = ctx@;
        txn.finish(ctx);
        proof {
            lemma_split_prefix(c_started.finished, c_mid.finished);
            let mid = c_mid.finished.skip(c_started.finished.len() as int);
            if !is_noisy(query@) {
                assert(ctx@.finished =~= old(ctx)@.finished + mid + seq![
                    query_span_model(old(ctx)@, old(self).info, query@),
                ]);
            } else {
                assert(ctx@.finished =~= old(ctx)@.finished + mid);
            }
        }
        result
    }

    /// Health check, delegated unchanged; no span of its own is traced.
    pub fn ping(&mut self, ctx: &mut TraceContext) -> (r: Result<(), DbError>)
        ensures
            final(self).id == old(self).id,
            final(self).info == old(self).info,
            final(ctx)@.current == old(ctx)@.current,
            old(ctx)@.finished.is_prefix_of(final(ctx)@.finished),
    {
        self.inner.ping(ctx)
    }

    /// Start a `transaction`-kind span named with the connection's identifier
    /// in text form, and make it current, so every query run before the
    /// returned handle is finished is parented to it. The identifier's text
    /// contains no space, so the span is never suppressed.
    pub fn begin_transaction(&self, ctx: &mut TraceContext) -> (t: SentryTransaction)
        ensures
            t@.skip == false,
            t@.parent_span == old(ctx)@.current,
            t@.transaction == Some(txn_span_model(old(ctx)@, self.info, self.id)),
            final(ctx)@ == (CtxModel {
                next_id: sat_inc(old(ctx)@.next_id),
                current: Some(old(ctx)@.next_id),
                finished: old(ctx)@.finished,
            }),
    {
        let label = uuid_string(self.id);
        proof {
            lemma_no_space_not_noisy(label@);
        }
        let mut txn = start_sentry_db_transaction(ctx, "transaction", label.as_str());
        txn.record_db_system("mysql");
        txn.record_otel_kind("client");
        txn.record_db_info(self.info.current_database.as_str(), self.info.version.as_str());
        txn
    }

    /// Run a transaction body within a `transaction`-kind span named with the
    /// connection's identifier. The connection is passed through to the body,
    /// so queries the body runs are parented to the transaction span through
    /// the then-current span; the span is finished after the body on success
    /// and failure alike, the previously current span is restored, and the
    /// body's result is returned unchanged.
    pub fn transaction<T, E, F>(self, ctx: TraceContext, f: F) -> (res: (
        Self,
        TraceContext,
        Result<T, E>,
    )) where F: FnOnce(Self, TraceContext) -> (Self, TraceContext, Result<T, E>)
        requires
            forall|s: Self, c: TraceContext| #[trigger] call_requires(f, (s, c)),
        ensures
            exists|c1: TraceContext, s2: Self, c2: TraceContext, r0: Result<T, E>|
                {
                    &&& c1@ == (CtxModel {
                        next_id: sat_inc(ctx@.next_id),
                        current: Some(ctx@.next_id),
                        finished: ctx@.finished,
                    })
                    &&& #[trigger] call_ensures(f, (self, c1), (s2, c2, r0))
                    &&& res.0 == s2
                    &&& res.2 == r0
                    &&& res.1@ == (CtxModel {
                        next_id: c2@.next_id,
                        current: ctx@.current,
                        finished: c2@.finished.push(crate::trace::default_ok(
                            txn_span_model(ctx@, self.info, self.id),
                        )),
                    })
                },
    {
        let mut started = ctx;
        let mut txn = self.begin_transaction(&mut started);
        let ghost g_c1 = started;
        let (s2, mut c2, r0) = f(self, started);
        let ghost g_c2 = c2;
        txn.finish(&mut c2);
        let res = (s2, c2, r0);
        proof {
            assert(call_ensures(f, (self, g_c1), (res.0, g_c2, res.2)));
        }
        res
    }
}

impl<C: Driver> Driver for SentryConnection<C> {
    fn establish(ctx: &mut TraceContext, url: &str) -> (r: Result<Self, ConnectError>) {
        let r = SentryConnection::<C>::establish(ctx, url);
        proof {
            if r is Ok {
                lemma_traced_tail_prefix(
                    old(ctx)@,
                    ctx@,
                    establish_span_model(old(ctx)@, Some(r->Ok_0.info)),
                );
            } else {
                lemma_traced_tail_prefix(old(ctx)@, ctx@, establish_span_model(old(ctx)@, None));
            }
        }
        r
    }

    fn batch_execute(&mut self, ctx: &mut TraceContext, query: &str) -> (r: Result<(), DbError>) {
        let r = SentryConnection::<C>::batch_execute(self, ctx, query);
        proof {
            if !is_noisy(query@) {
                lemma_traced_tail_prefix(
                    old(ctx)@,
                    ctx@,
                    query_span_model(old(ctx)@, old(self).info, query@),
                );
            } else {
                lemma_untraced_tail_prefix(old(ctx)@, ctx@);
            }
        }
        r
    }

    fn load(&mut self, ctx: &mut TraceContext, query: &str) -> (r: Result<Vec<DbRow>, DbError>) {
        let r = SentryConnection::<C>::load(self, ctx, query);
        proof {
            if !is_noisy(query@) {
                lemma_traced_tail_prefix(
                    old(ctx)@,
                    ctx@,
                    query_span_model(old(ctx)@, old(self).info, query@),
                );
            } else {
                lemma_untraced_tail_prefix(old(ctx)@, ctx@);
            }
        }
        r
    }

    fn execute_returning_count(&mut self, ctx: &mut TraceContext, query: &str) -> (r: Result<
        usize,
        DbError,
    >) {
        let r = SentryConnection::<C>::execute_returning_count(self, ctx, query);
        proof {
            if !is_noisy(query@) {
                lemma_traced_tail_prefix(
                    old(ctx)@,
                    ctx@,
                    query_span_model(old(ctx)@, old(self).info, query@),
                );
            } else {
                lemma_untraced_tail_prefix(old(ctx)@, ctx@);
            }
        }
        r
    }

    fn ping(&mut self, ctx: &mut TraceContext) -> (r: Result<(), DbError>) {
        SentryConnection::<C>::ping(self, ctx)
    }
}

} // verus!
