//! Error kinds and their integer status codes.

use vstd::prelude::*;

verus! {

/// Result of every operation that crosses the transaction boundary: a status
/// on success, an error code on failure.
pub type FusionResult<T> = Result<T, i32>;

/// Status `Ok` carries when a payload has been moved without incident.
pub const SUCCESS: i32 = 0;

/// Error code of a failed transmission or payload transfer.
pub const FAILURE: i32 = -1;

/// Error code reported for a request code whose intention field is not recognised.
pub const UNKNOWN_INTENTION: i32 = -2;

/// Error code reported for a request code whose action field is not recognised.
pub const UNKNOWN_ACTION: i32 = -3;

/// Why a request code could not be decoded.
#[derive(Clone, Copy, Debug, PartialEq, Eq, Structural)]
pub enum DecodeError {
    /// The action field holds none of the nine action numbers.
    UnknownAction,
    /// The intention field lies outside the recognised range.
    UnknownIntention,
}

impl DecodeError {
    /// The error code under which this error leaves the router.
    pub open spec fn spec_status(self) -> i32 {
        match self {
            DecodeError::UnknownAction => UNKNOWN_ACTION,
            DecodeError::UnknownIntention => UNKNOWN_INTENTION,
        }
    }

    /// The error code under which this error leaves the router.
    #[verifier::when_used_as_spec(spec_status)]
    pub fn status(self) -> (code: i32)
        ensures
            code == self.spec_status(),
            code < 0,
            code != FAILURE,
    {
        match self {
            DecodeError::UnknownAction => UNKNOWN_ACTION,
            DecodeError::UnknownIntention => UNKNOWN_INTENTION,
        }
    }
}

} // verus!
