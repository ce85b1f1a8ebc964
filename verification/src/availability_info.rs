use crate::Pubkey;
use vstd::prelude::*;

verus! {

/// Payload bytes the persisted availability record occupies.
pub const AVAILABILITY_INFO_SIZE: usize = 36;

/// Per-worker availability state, mirrored as the accumulator leaf at
/// `leaf_index`. Created once at registration, never deleted.
#[derive(Clone, Copy, Debug, PartialEq, Eq)]
pub struct AvailabilityInfo {
    /// The worker's unique public identifier.
    pub key: Pubkey,
    /// Position of this worker's leaf in the availability accumulator,
    /// assigned once at registration and never changed.
    pub leaf_index: u32,
    /// The active bounty's key, if one is linked: present only between a
    /// successful accept and the timeout-gated unlink. `None` stands for the
    /// all-zero sentinel key of the persisted layout.
    pub bounty: Option<Pubkey>,
}

} // verus!
