//! The typed failures this driver core can report.
use vstd::prelude::*;

verus! {

/// Every failure the driver core reports. Native-call failures carry the
/// translated diagnostic bytes (already cut at the first terminating byte);
/// the unverified foreign-call layer renders them for display.
#[derive(Debug)]
pub enum OciError {
    /// The connection string was rejected before any native call was made.
    InvalidConnectionUrl(String),
    /// Server attach or session begin failed; carries the diagnostic bytes.
    BadConnection(Vec<u8>),
    /// A native call failed while preparing, binding, executing or fetching;
    /// carries the diagnostic bytes.
    CommandFailure(Vec<u8>),
    /// A native call reported an invalid handle.
    InvalidHandle,
    /// A result column's native type code lies outside the supported table.
    UnsupportedType(u32),
    /// The row-decoding collaborator rejected a fetched row.
    RowDeserialization,
}

} // verus!
