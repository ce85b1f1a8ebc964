use crate::Pubkey;
use vstd::prelude::*;

verus! {

/// Payload bytes the persisted bounty record occupies.
pub const BOUNTY_SIZE: usize = 113;

/// Seed prefix under which the ledger derives a bounty record's key.
pub const BOUNTY_PREFIX: &'static str = "bounty";

/// Escrow record for one (sponsor, recipient) pair; the ledger keys it by
/// that pair, so at most one is outstanding per ordered pair at a time.
#[derive(Clone, Copy, Debug, PartialEq, Eq)]
pub struct Bounty {
    /// Who has provided the bounty.
    pub sponsor: Pubkey,
    /// Who can claim the bounty.
    pub recipient: Pubkey,
    /// Which value type is being offered.
    pub mint: Pubkey,
    /// How much is offered; fixed at creation.
    pub amount: u64,
    /// The unlock time, a ledger-clock value: an exclusivity timer gating the
    /// recipient's later Set-Available transition, not a condition on funds.
    pub slot: u64,
    /// Set by accept; cleared only by the timeout path of Set-Available.
    pub accepted: bool,
}

/// A bounty together with the key under which it was supplied: what a caller
/// hands to the availability toggle for inspection of the linked bounty.
#[derive(Clone, Copy, Debug, PartialEq, Eq)]
pub struct BountyAccount {
    /// The ledger key of the supplied bounty record.
    pub key: Pubkey,
    /// The record's contents.
    pub data: Bounty,
}

} // verus!
