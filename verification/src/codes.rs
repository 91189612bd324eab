//! The engine's own constants, as `libsqlite3_sys` declares them.
//!
//! The executable functions read the constants of `libsqlite3_sys`; their
//! values are not proved here but taken from that crate's bindings.

use vstd::prelude::*;

verus! {

/// The result code for success.
pub open spec fn spec_sqlite_ok() -> i32 {
    0
}

/// The result code for a string or blob that exceeds the size limit.
pub open spec fn spec_sqlite_toobig() -> i32 {
    18
}

/// The resolution code for an abort. An apply that comes back with it is
/// not counted as failed.
pub open spec fn spec_changeset_abort() -> i32 {
    2
}

/// Reads `libsqlite3_sys::SQLITE_OK`, which the bindings declare as 0.
#[verifier::external_body]
pub(crate) fn sqlite_ok() -> (code: i32)
    ensures
        code == spec_sqlite_ok(),
{
    libsqlite3_sys::SQLITE_OK
}

/// Reads `libsqlite3_sys::SQLITE_TOOBIG`, which the bindings declare as 18.
#[verifier::external_body]
pub(crate) fn sqlite_toobig() -> (code: i32)
    ensures
        code == spec_sqlite_toobig(),
{
    libsqlite3_sys::SQLITE_TOOBIG
}

/// Reads `libsqlite3_sys::SQLITE_CHANGESET_ABORT`, which the bindings
/// declare as 2.
#[verifier::external_body]
pub(crate) fn changeset_abort() -> (code: i32)
    ensures
        code == spec_changeset_abort(),
{
    libsqlite3_sys::SQLITE_CHANGESET_ABORT
}

} // verus!
