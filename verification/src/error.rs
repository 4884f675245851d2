//! The ways in which an operation of the gateway can fail.

use vstd::prelude::*;

verus! {

/// Why an operation was refused or did not go through.
///
/// Nothing is recovered from locally: each failure ends the whole operation.
#[derive(Clone, Copy, Debug, PartialEq, Eq)]
pub enum WrapperError {
    /// The authority record exists already. Initializing it again is an error,
    /// not a no-op.
    AlreadyInitialized,
    /// The market has not gathered enough of the quote asset to graduate. The
    /// same request may succeed later.
    ThresholdNotMet,
    /// The label and salt at hand do not derive the identity that the call
    /// would have to be signed with.
    AuthorizationMismatch,
    /// The market program or the token program refused the call. The code is
    /// theirs and is handed on as it came.
    ExternalCallFailure(u64),
}

} // verus!
