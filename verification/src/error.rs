use vstd::prelude::*;

verus! {

/// Why a call was rejected. Every operation is all-or-nothing: an error means
/// zero partial effects.
///
/// The first three variants are business-rule violations of the availability
/// toggle; `AuthorizationFailed` is a signer/derivation proof mismatch;
/// `ConcurrencyConflict` is a failed optimistic check against the accumulator;
/// the rest stand for failures of the surrounding storage and value-transfer
/// services, propagated unchanged.
#[derive(Clone, Copy, Debug, PartialEq, Eq, Structural)]
pub enum JobBoardError {
    /// The record links to a bounty but none was supplied for inspection.
    BountyAccountMissing,
    /// The supplied bounty's key does not equal the record's linked bounty key.
    BountyAccountMismatch,
    /// The linked bounty is accepted and its unlock time has not been reached.
    BountyDelistTimeoutStillActive,
    /// The signing identity is not the accumulator's configured authority.
    AuthorizationFailed,
    /// The supplied root or previous-leaf value does not match the
    /// accumulator's current state; refetch and retry with a fresh proof.
    ConcurrencyConflict,
    /// The accumulator is at capacity; no further leaf can be appended.
    TreeFull,
    /// A bounty for this (sponsor, recipient) pair is already outstanding.
    BountyAlreadyExists,
    /// The sponsor's balance does not cover the bounty amount.
    InsufficientFunds,
    /// A value transfer would overflow the receiving balance.
    BalanceOverflow,
}

} // verus!
