//! Tracing probes for database connections.
//!
//! A [`connection::SentryConnection`] wraps an underlying database driver and
//! brackets every connection-establish, query, and transaction boundary with a
//! tracing span, managed by the lifecycle handles in [`trace`]. The wrapper
//! never alters query semantics, error values, or return values: it only
//! surrounds them. A phone-number value type for database text columns lives
//! in [`phone_number`].

pub mod connection;
pub mod phone_number;
pub mod trace;

pub use connection::ConnectError;
pub use connection::ConnectionInfo;
pub use connection::DbError;
pub use connection::DbRow;
pub use connection::Driver;
pub use connection::SentryConnection;
pub use phone_number::PhoneError;
pub use phone_number::PhoneNumber;
pub use trace::SentryTransaction;
pub use trace::Span;
pub use trace::SpanStatus;
pub use trace::TraceContext;
pub use trace::start_sentry_db_transaction;
