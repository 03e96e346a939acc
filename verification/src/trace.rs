//! Tracing-span lifecycle management.
//!
//! Every traced database operation is bracketed by a [`SentryTransaction`]
//! handle: [`start_sentry_db_transaction`] captures the span that was current
//! before the operation, starts a fresh span for it, and marks that span
//! current; [`SentryTransaction::finish`] delivers the span to the backend log
//! and restores the previously current span. The ambient "current span" state
//! is an explicit [`TraceContext`] value passed to every operation, so each
//! operation reads and writes its own notion of "current" without touching any
//! global state.
use vstd::prelude::*;
use vstd::string::*;

verus! {

/// Status recorded on a span. A span whose status was never set explicitly is
/// defaulted to `Okay` when it is finished.
#[derive(Clone, Copy, Debug, PartialEq, Eq, Structural)]
pub enum SpanStatus {
    Unset,
    Okay,
    Failed,
}

/// A timed unit of tracing work: a name, an operation kind, a status, the
/// database attributes the backend keys off of, and a link to the span that
/// was current when it started.
#[derive(Clone, Debug, PartialEq)]
pub struct Span {
    pub id: u64,
    pub parent: Option<u64>,
    pub name: String,
    pub op: String,
    pub status: SpanStatus,
    pub otel_kind: Option<String>,
    pub db_system: Option<String>,
    pub db_name: Option<String>,
    pub db_version: Option<String>,
    pub db_statement: Option<String>,
}

/// Mathematical model of a [`Span`].
#[verifier::ext_equal]
pub struct SpanModel {
    pub id: u64,
    pub parent: Option<u64>,
    pub name: Seq<char>,
    pub op: Seq<char>,
    pub status: SpanStatus,
    pub otel_kind: Option<Seq<char>>,
    pub db_system: Option<Seq<char>>,
    pub db_name: Option<Seq<char>>,
    pub db_version: Option<Seq<char>>,
    pub db_statement: Option<Seq<char>>,
}

pub open spec fn opt_view(o: Option<String>) -> Option<Seq<char>> {
    match o {
        Some(s) => Some(s@),
        None => None,
    }
}

impl View for Span {
    type V = SpanModel;

    open spec fn view(&self) -> SpanModel {
        SpanModel {
            id: self.id,
            parent: self.parent,
            name: self.name@,
            op: self.op@,
            status: self.status,
            otel_kind: opt_view(self.otel_kind),
            db_system: opt_view(self.db_system),
            db_name: opt_view(self.db_name),
            db_version: opt_view(self.db_version),
            db_statement: opt_view(self.db_statement),
        }
    }
}

/// The explicit tracing context: the id for the next span, the span currently
/// marked "active", and the log of finished spans in the order the backend
/// received them.
#[derive(Clone, Debug, PartialEq)]
pub struct TraceContext {
    pub next_id: u64,
    pub current: Option<u64>,
    pub finished: Vec<Span>,
}

/// Mathematical model of a [`TraceContext`].
#[verifier::ext_equal]
pub struct CtxModel {
    pub next_id: u64,
    pub current: Option<u64>,
    pub finished: Seq<SpanModel>,
}

impl View for TraceContext {
    type V = CtxModel;

    open spec fn view(&self) -> CtxModel {
        CtxModel {
            next_id: self.next_id,
            current: self.current,
            finished: self.finished@.map_values(|s: Span| s@),
        }
    }
}

impl TraceContext {
    /// A fresh context: no span is current and nothing has been delivered.
    pub fn new() -> (c: TraceContext)
        ensures
            c@ == (CtxModel { next_id: 0u64, current: None::<u64>, finished: Seq::<SpanModel>::empty() }),
    {
        let c = TraceContext { next_id: 0, current: None, finished: Vec::new() };
        proof {
            assert(c@.finished =~= Seq::<SpanModel>::empty());
            assert(c@ =~= (CtxModel {
                next_id: 0u64,
                current: None::<u64>,
                finished: Seq::<SpanModel>::empty(),
            }));
        }
        c
    }
}

/// The handle for one traced operation: the span started for it (none once
/// finished, or if the operation was skipped), the span that was current
/// before it started, and whether the noisy-label rule suppressed it.
#[derive(Clone, Debug, PartialEq)]
pub struct SentryTransaction {
    pub transaction: Option<Span>,
    pub parent_span: Option<u64>,
    pub skip: bool,
}

/// Mathematical model of a [`SentryTransaction`].
#[verifier::ext_equal]
pub struct HandleModel {
    pub transaction: Option<SpanModel>,
    pub parent_span: Option<u64>,
    pub skip: bool,
}

impl View for SentryTransaction {
    type V = HandleModel;

    open spec fn view(&self) -> HandleModel {
        HandleModel {
            transaction: match self.transaction {
                Some(s) => Some(s@),
                None => None,
            },
            parent_span: self.parent_span,
            skip: self.skip,
        }
    }
}

/// The label marker of high-volume session-table queries whose spans are
/// suppressed.
pub open spec fn noisy_pattern() -> Seq<char> {
    " `Session` "@
}

/// A label is noisy when it contains the session marker as a substring.
pub open spec fn is_noisy(label: Seq<char>) -> bool {
    exists|i: int|
        0 <= i && i + noisy_pattern().len() <= label.len()
            && #[trigger] label.subrange(i, i + noisy_pattern().len() as int) == noisy_pattern()
}

/// Substring search deciding the noisy-label rule.
fn contains_noisy(label: &str) -> (r: bool)
    ensures
        r == is_noisy(label@),
{
    let pat = " `Session` ";
    proof {
        reveal_strlit(" `Session` ");
    }
    let n = label.unicode_len();
    let m = pat.unicode_len();
    if n < m {
        return false;
    }
    let mut i: usize = 0;
    while i <= n - m
        invariant
            label@.len() == n,
            pat@ == noisy_pattern(),
            pat@.len() == m,
            1 <= m <= n,
            i <= n - m + 1,
            forall|k: int|
                0 <= k < i ==> #[trigger] label@.subrange(k, k + noisy_pattern().len() as int)
                    != noisy_pattern(),
        decreases n - m + 1 - i,
    {
        let mut j: usize = 0;
        let mut mismatch = false;
        while j < m && !mismatch
            invariant
                label@.len() == n,
                pat@ == noisy_pattern(),
                pat@.len() == m,
                1 <= m <= n,
                i + m <= n,
                j <= m,
                !mismatch ==> forall|k: int| 0 <= k < j ==> label@[i + k] == noisy_pattern()[k],
                mismatch ==> label@.subrange(i as int, i + noisy_pattern().len() as int)
                    != noisy_pattern(),
            decreases m - j + (if mismatch { 0int } else { 1int }),
        {
            let c = label.get_char(i + j);
            let p = pat.get_char(j);
            if c != p {
                proof {
                    assert(label@.subrange(i as int, i + noisy_pattern().len() as int)[j as int]
                        == label@[i + j]);
                }
                mismatch = true;
            } else {
                j = j + 1;
            }
        }
        if !mismatch {
            proof {
                assert(label@.subrange(i as int, i + noisy_pattern().len() as int)
                    =~= noisy_pattern());
            }
            return true;
        }
        i = i + 1;
    }
    false
}

/// Saturating increment used for span ids.
pub open spec fn sat_inc(n: u64) -> u64 {
    if n < 0xffff_ffff_ffff_ffff {
        (n + 1) as u64
    } else {
        n
    }
}

/// The operation type recorded on a span: `db.` followed by the kind.
pub open spec fn db_op(kind: Seq<char>) -> Seq<char> {
    "db."@ + kind
}

/// The span that starting an operation creates: parented to whatever span is
/// current, with no attributes recorded yet and its status not set.
pub open spec fn fresh_span_model(c: CtxModel, kind: Seq<char>, label: Seq<char>) -> SpanModel {
    SpanModel {
        id: c.next_id,
        parent: c.current,
        name: label,
        op: db_op(kind),
        status: SpanStatus::Unset,
        otel_kind: None,
        db_system: None,
        db_name: None,
        db_version: None,
        db_statement: None,
    }
}

/// How starting an operation changes the context: nothing for a noisy label;
/// otherwise the fresh span becomes current and the id counter moves on.
pub open spec fn start_ctx_model(c: CtxModel, kind: Seq<char>, label: Seq<char>) -> CtxModel {
    if is_noisy(label) {
        c
    } else {
        CtxModel { next_id: sat_inc(c.next_id), current: Some(c.next_id), finished: c.finished }
    }
}

/// The handle that starting an operation returns: a skip handle with no span
/// for a noisy label; otherwise the fresh span and the captured parent.
pub open spec fn start_handle_model(c: CtxModel, kind: Seq<char>, label: Seq<char>) -> HandleModel {
    if is_noisy(label) {
        HandleModel { transaction: None, parent_span: None, skip: true }
    } else {
        HandleModel {
            transaction: Some(fresh_span_model(c, kind, label)),
            parent_span: c.current,
            skip: false,
        }
    }
}

/// A span's status once finished: `Okay` where the caller never set one.
pub open spec fn default_ok(s: SpanModel) -> SpanModel {
    SpanModel { status: if s.status is Unset { SpanStatus::Okay } else { s.status }, ..s }
}

/// How finishing a handle changes the context: a handle that carries no span
/// changes nothing; otherwise its span is delivered with a defaulted status
/// and the captured parent becomes current again.
pub open spec fn finish_ctx_model(c: CtxModel, h: HandleModel) -> CtxModel {
    match h.transaction {
        Some(s) => CtxModel {
            next_id: c.next_id,
            current: h.parent_span,
            finished: c.finished.push(default_ok(s)),
        },
        None => c,
    }
}

/// A finished handle: it no longer carries a span, so finishing again is a
/// no-op.
pub open spec fn finished_handle_model(h: HandleModel) -> HandleModel {
    HandleModel { transaction: None, ..h }
}

/// Start a traced operation of the given kind (for example `sql.query`,
/// `connection`, `transaction`) labeled with operation-specific text. For a
/// label that contains the noisy session marker no span is created and the
/// returned handle skips all work; otherwise a fresh span named `label` with
/// operation type `db.{kind}` is created, parented to the current span, and
/// made current. Span creation never fails.
pub fn start_sentry_db_transaction(ctx: &mut TraceContext, kind: &str, label: &str) -> (t:
    SentryTransaction)
    ensures
        t@ == start_handle_model(old(ctx)@, kind@, label@),
        final(ctx)@ == start_ctx_model(old(ctx)@, kind@, label@),
{
    if contains_noisy(label) {
        let t = SentryTransaction { transaction: None, parent_span: None, skip: true };
        proof {
            assert(t@ =~= start_handle_model(ctx@, kind@, label@));
        }
        t
    } else {
        let id = ctx.next_id;
        if ctx.next_id < 0xffff_ffff_ffff_ffff {
            ctx.next_id = ctx.next_id + 1;
        }
        let mut op = "db.".to_owned();
        op.append(kind);
        let span = Span {
            id,
            parent: ctx.current,
            name: label.to_owned(),
            op,
            status: SpanStatus::Unset,
            otel_kind: None,
            db_system: None,
            db_name: None,
            db_version: None,
            db_statement: None,
        };
        let t = SentryTransaction {
            transaction: Some(span),
            parent_span: ctx.current,
            skip: false,
        };
        ctx.current = Some(id);
        proof {
            assert(t@ =~= start_handle_model(old(ctx)@, kind@, label@));
            assert(ctx@ =~= start_ctx_model(old(ctx)@, kind@, label@));
        }
        t
    }
}

impl SentryTransaction {
    /// Finish the traced operation: a no-op for a handle that carries no span
    /// (skipped, or already finished); otherwise the span's status is
    /// defaulted to `Okay` where the caller never set one, the span is
    /// delivered to the backend log, and the span that was current before the
    /// operation is made current again. A second call is a safe no-op.
    pub fn finish(&mut self, ctx: &mut TraceContext)
        ensures
            final(ctx)@ == finish_ctx_model(old(ctx)@, old(self)@),
            final(self)@ == finished_handle_model(old(self)@),
    {
        let t = self.transaction.take();
        match t {
            None => {
                proof {
                    assert(self@ =~= finished_handle_model(old(self)@));
                }
            },
            Some(mut span) => {
                if span.status == SpanStatus::Unset {
                    span.status = SpanStatus::Okay;
                }
                ctx.finished.push(span);
                ctx.current = self.parent_span;
                proof {
                    assert(ctx@.finished =~= old(ctx)@.finished.push(default_ok(
                        old(self)@.transaction->Some_0,
                    )));
                    assert(ctx@ =~= finish_ctx_model(old(ctx)@, old(self)@));
                    assert(self@ =~= finished_handle_model(old(self)@));
                }
            },
        }
    }

    /// Set the span's status explicitly; a later [`Self::finish`] keeps it.
    /// No-op for a handle that carries no span.
    pub fn set_status(&mut self, status: SpanStatus)
        ensures
            final(self)@ == set_status_model(old(self)@, status),
    {
        match &mut self.transaction {
            None => {},
            Some(span) => {
                span.status = status;
            },
        }
    }

    /// Record the `db.system` attribute on the span. No-op for a handle that
    /// carries no span.
    pub fn record_db_system(&mut self, value: &str)
        ensures
            final(self)@ == record_db_system_model(old(self)@, value@),
    {
        match &mut self.transaction {
            None => {},
            Some(span) => {
                span.db_system = Some(value.to_owned());
            },
        }
    }

    /// Record the `otel.kind` attribute on the span. No-op for a handle that
    /// carries no span.
    pub fn record_otel_kind(&mut self, value: &str)
        ensures
            final(self)@ == record_otel_kind_model(old(self)@, value@),
    {
        match &mut self.transaction {
            None => {},
            Some(span) => {
                span.otel_kind = Some(value.to_owned());
            },
        }
    }

    /// Record the `db.name` and `db.version` attributes on the span. No-op
    /// for a handle that carries no span.
    pub fn record_db_info(&mut self, name: &str, version: &str)
        ensures
            final(self)@ == record_db_info_model(old(self)@, name@, version@),
    {
        match &mut self.transaction {
            None => {},
            Some(span) => {
                span.db_name = Some(name.to_owned());
                span.db_version = Some(version.to_owned());
            },
        }
    }

    /// Record the `db.statement` attribute on the span. No-op for a handle
    /// that carries no span.
    pub fn record_db_statement(&mut self, value: &str)
        ensures
            final(self)@ == record_db_statement_model(old(self)@, value@),
    {
        match &mut self.transaction {
            None => {},
            Some(span) => {
                span.db_statement = Some(value.to_owned());
            },
        }
    }
}

pub open spec fn set_status_model(h: HandleModel, status: SpanStatus) -> HandleModel {
    match h.transaction {
        Some(s) => HandleModel { transaction: Some(SpanModel { status, ..s }), ..h },
        None => h,
    }
}

pub open spec fn record_db_system_model(h: HandleModel, value: Seq<char>) -> HandleModel {
    match h.transaction {
        Some(s) => HandleModel { transaction: Some(SpanModel { db_system: Some(value), ..s }), ..h },
        None => h,
    }
}

pub open spec fn record_otel_kind_model(h: HandleModel, value: Seq<char>) -> HandleModel {
    match h.transaction {
        Some(s) => HandleModel { transaction: Some(SpanModel { otel_kind: Some(value), ..s }), ..h },
        None => h,
    }
}

pub open spec fn record_db_info_model(h: HandleModel, name: Seq<char>, version: Seq<char>) -> HandleModel {
    match h.transaction {
        Some(s) => HandleModel {
            transaction: Some(SpanModel { db_name: Some(name), db_version: Some(version), ..s }),
            ..h
        },
        None => h,
    }
}

pub open spec fn record_db_statement_model(h: HandleModel, value: Seq<char>) -> HandleModel {
    match h.transaction {
        Some(s) => HandleModel {
            transaction: Some(SpanModel { db_statement: Some(value), ..s }),
            ..h
        },
        None => h,
    }
}

/// A label without a space character is never noisy: the session marker
/// begins with a space, so it cannot occur as a substring.
pub proof fn lemma_no_space_not_noisy(label: Seq<char>)
    requires
        forall|i: int| 0 <= i < label.len() ==> #[trigger] label[i] != ' ',
    ensures
        !is_noisy(label),
{
    reveal_strlit(" `Session` ");
    if is_noisy(label) {
        let i = choose|i: int|
            0 <= i && i + noisy_pattern().len() <= label.len()
                && #[trigger] label.subrange(i, i + noisy_pattern().len() as int)
                == noisy_pattern();
        assert(label.subrange(i, i + noisy_pattern().len() as int)[0] == label[i]);
        assert(noisy_pattern()[0] == ' ');
        assert(false);
    }
}

/// Finishing delivers a started span to the backend log exactly once: a
/// handle that carries a span appends that span (with its status defaulted)
/// and nothing else; a skipped or already finished handle delivers nothing;
/// and finishing a handle a second time never changes the context again.
pub proof fn lemma_finish_exactly_once(c: CtxModel, h: HandleModel)
    ensures
        h.transaction is Some ==> finish_ctx_model(c, h).finished
            == c.finished.push(default_ok(h.transaction->Some_0)),
        h.transaction is None ==> finish_ctx_model(c, h) == c,
        finish_ctx_model(finish_ctx_model(c, h), finished_handle_model(h))
            == finish_ctx_model(c, h),
{
}

/// A noisy label suppresses the whole operation: starting returns a skip
/// handle that carries no span, the context is unchanged, and finishing the
/// handle performs no backend interaction either.
pub proof fn lemma_noisy_label_skips(c: CtxModel, kind: Seq<char>, label: Seq<char>)
    requires
        is_noisy(label),
    ensures
        start_handle_model(c, kind, label).skip,
        start_handle_model(c, kind, label).transaction is None,
        start_ctx_model(c, kind, label) == c,
        finish_ctx_model(start_ctx_model(c, kind, label), start_handle_model(c, kind, label))
            == c,
{
}

/// Nesting round-trip: starting operation B while operation A's span is
/// active makes A's span B's parent, and when B finishes, A's span is
/// restored as the current span.
pub proof fn lemma_nested_parent_restored(
    c: CtxModel,
    kind_a: Seq<char>,
    label_a: Seq<char>,
    kind_b: Seq<char>,
    label_b: Seq<char>,
)
    requires
        !is_noisy(label_a),
        !is_noisy(label_b),
    ensures
        ({
            let c_a = start_ctx_model(c, kind_a, label_a);
            let h_a = start_handle_model(c, kind_a, label_a);
            let c_b = start_ctx_model(c_a, kind_b, label_b);
            let h_b = start_handle_model(c_a, kind_b, label_b);
            &&& h_b.transaction->Some_0.parent == Some(h_a.transaction->Some_0.id)
            &&& finish_ctx_model(c_b, h_b).current == Some(h_a.transaction->Some_0.id)
        }),
{
}

} // verus!
