//! The ways an operation can fail.

use vstd::prelude::*;

verus! {

/// Why an operation was refused.
#[derive(Clone, Copy, Debug, PartialEq, Eq, Structural)]
pub enum ApiError {
    /// No row has the requested id.
    NotFound,
    /// The caller does not own the row.
    Unauthorized,
    /// The caller's identity could not be read.
    InternalFailure,
}

/// What a lookup by id comes to: the row, or `NotFound` where there is
/// none.
pub open spec fn sought<Row>(found: Option<Row>) -> Result<Row, ApiError> {
    match found {
        Some(row) => Ok(row),
        None => Err(ApiError::NotFound),
    }
}

} // verus!
