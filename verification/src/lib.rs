//! Verified core of a call-level database driver: connection-string parsing,
//! statement preparation and bind bookkeeping, result-column type resolution,
//! and the pull-based row cursor, all stated and proved over plain values.
//! The unverified foreign-call layer around this library performs the native
//! calls and feeds their outcomes back in.
use vstd::prelude::*;

pub mod cursor;
pub mod diag;
pub mod error;
pub mod stmt;
pub mod types;
pub mod url;

verus! {

/// Null-indicator value that marks a SQL NULL in a bind or a fetched column.
pub const NULL_INDICATOR: i16 = -1;

/// True exactly when an indicator cell reports SQL NULL.
pub fn indicator_is_null(indicator: i16) -> (r: bool)
    ensures
        r == (indicator == NULL_INDICATOR),
{
    indicator == NULL_INDICATOR
}

} // verus!
