//! Data-access core of a small email-notification service.
//!
//! The library owns the two pieces of the service that carry real logic: the
//! lifecycle of a lazily created, self-healing connection pool, and the query
//! executor that turns rows of the notification table into records. The
//! asynchronous plumbing around it (HTTP routing, awaiting checkouts and
//! statements) lives outside the library and only hands plain values in and
//! out.

pub mod error;
pub mod executor;
pub mod pool;
pub mod record;
