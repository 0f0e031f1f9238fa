use vstd::prelude::*;

verus! {

/// Error taxonomy of the data-access layer.
///
/// Every store-reported failure is mapped onto one of these kinds, so that a
/// caller can always tell a missing row from a connectivity problem:
/// - `PoolCreation`: the connection pool could not be built from the
///   configuration (misconfiguration; never retried).
/// - `Connectivity`: a usable connection could not be obtained from the pool.
/// - `Query`: the store rejected or failed a statement.
/// - `NotFound`: a by-identifier lookup matched no row.
#[derive(Clone, Copy, Debug, PartialEq, Eq, Structural)]
pub enum DbError {
    PoolCreation,
    Connectivity,
    Query,
    NotFound,
}

impl DbError {
    /// A short description of the error kind, for logging at the boundary.
    pub fn describe(&self) -> (r: &'static str)
        ensures
            *self is PoolCreation ==> r@ == "connection pool could not be created"@,
            *self is Connectivity ==> r@ == "no usable connection"@,
            *self is Query ==> r@ == "statement failed"@,
            *self is NotFound ==> r@ == "no matching row"@,
    {
        match self {
            DbError::PoolCreation => "connection pool could not be created",
            DbError::Connectivity => "no usable connection",
            DbError::Query => "statement failed",
            DbError::NotFound => "no matching row",
        }
    }
}

} // verus!
