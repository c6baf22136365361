//! Why a claim or a setup is refused.
use vstd::prelude::*;

verus! {

/// A rule that a request broke. Each one leaves every record as it was.
#[derive(Clone, Copy, Debug, PartialEq, Eq, Structural)]
pub enum ClaimError {
    /// The acting authority is not the configured owner.
    Unauthorized,
    /// The vault or the mint is not of the configured fund type.
    FundTypeMismatch,
    /// The amount asked for is zero.
    InvalidAmount,
    /// The ceiling given is zero.
    InvalidCeiling,
    /// The request's number is not the record's next one.
    StaleOrFutureNonce,
    /// The ceiling given is below the record's current ceiling.
    CeilingDecreaseRejected,
    /// The total paid out would pass the ceiling given.
    ExceedsCeiling,
}

/// Why a claim did not go through: a rule was broken, or the transfer of the
/// funds failed with its own error `E`.
#[derive(Debug, PartialEq, Eq)]
pub enum ClaimFailure<E> {
    /// A check failed before any funds moved.
    Rejected(ClaimError),
    /// Every check passed and the transfer failed with this error.
    TransferFailure(E),
}

} // verus!
