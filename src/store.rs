//! Backend-agnostic store capabilities, and the checkout policy of pooled
//! engine connections.
//!
//! Running queries and applying migrations suspend on I/O; those operations
//! belong to the asynchronous layer around this library. What they decide
//! without I/O is here.
use vstd::prelude::*;
use crate::param::{Params, SqlQuery};

verus! {

/// A storage backend, with the error type of its operations.
pub trait Store {
    /// Error type for store operations.
    type Error;
}

/// Marker for key types used in stores.
pub trait Key {}

/// A value that converts to and from a storage representation.
pub trait Value: Sized {
    /// Error type for value conversion.
    type Error;
    /// The underlying value type.
    type ValueType;

    /// Converts the value to another type where possible.
    fn convert_to<T: TryFrom<Self::ValueType>>(&self) -> Result<Option<T>, Self::Error>;
}

/// The query text of the round trip that checks a pooled connection on checkout.
pub open spec fn probe_text() -> Seq<char> {
    "SELECT 1;"@
}

/// The trivial query that checks whether a connection still responds.
pub fn validity_probe() -> (r: SqlQuery)
    ensures
        r.query@ == probe_text(),
        r.params == Params::Empty,
{
    SqlQuery::plain("SELECT 1;")
}

/// Whether a connection handed back to the pool must be discarded. Staleness
/// is left to the validity probe on checkout, so no connection is reported
/// broken here.
pub fn has_broken() -> (r: bool)
    ensures
        !r,
{
    false
}

} // verus!
