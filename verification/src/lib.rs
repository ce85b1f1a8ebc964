//! A worker-availability registry and a time-locked bounty escrow, run as
//! trusted logic behind a shared authenticated ledger. Each worker's
//! Available/Unavailable state is mirrored as a leaf in an external
//! authenticated accumulator under optimistic-concurrency control, and a
//! bounty's acceptance starts an exclusivity timer that gates the worker's
//! next Set-Available transition. The accumulator and the value-transfer
//! service are external collaborators, modelled here at their interface
//! boundary; the leaf hashing is the one outside call the core makes.

#![allow(unused_imports)]
use vstd::prelude::*;

mod accumulator;
mod availability;
mod availability_info;
mod bounty;
mod error;
mod escrow;
mod laws;
mod leaf;

pub use crate::accumulator::Accumulator;
pub use crate::availability::{
    register_availability, set_myself_available, set_myself_unavailable,
};
pub use crate::availability_info::AvailabilityInfo;
pub use crate::bounty::{Bounty, BountyAccount};
pub use crate::error::JobBoardError;
pub use crate::escrow::{accept_bounty, close_bounty, create_bounty};
pub use crate::leaf::{create_available_leaf, create_unavailable_leaf};

verus! {

/// A 32-byte public identifier, as the surrounding ledger issues them.
pub type Pubkey = [u8; 32];

/// A 32-byte authenticated accumulator leaf.
pub type Node = [u8; 32];

/// Seed prefix under which the ledger derives the global authority.
pub const GLOBAL_AUTH_PREFIX: &'static str = "global_auth";

/// Seed prefix under which the ledger derives a worker's availability record.
pub const AVAILABILITY_PREFIX: &'static str = "available";

pub const AVAILABILITY_TREE_DEPTH: u32 = 20;

pub const AVAILABILITY_TREE_BUFFER_SIZE: u32 = 64;

/// Create the two process-wide accumulators — the oracle tree and the
/// availability tree — both owned by the given global authority, both with
/// depth 20 and buffer capacity 64.
pub fn initialize_globals(authority: Pubkey) -> (trees: (Accumulator, Accumulator))
    ensures
        trees.0.wf() && trees.1.wf(),
        trees.0.authority_key() == authority@,
        trees.1.authority_key() == authority@,
        trees.0.leaves().len() == 0 && trees.1.leaves().len() == 0,
        trees.0.root_token() == 0 && trees.1.root_token() == 0,
        trees.0.capacity() == (1u64 << 20u32),
        trees.1.capacity() == (1u64 << AVAILABILITY_TREE_DEPTH),
        trees.0.buffer() == 64 && trees.1.buffer() == AVAILABILITY_TREE_BUFFER_SIZE,
{
    let oracle_max_depth: u32 = 20;
    let oracle_max_buffer_size: u32 = 64;
    let oracle_tree = Accumulator::init_tree(authority, oracle_max_depth, oracle_max_buffer_size);
    let available_tree = Accumulator::init_tree(
        authority,
        AVAILABILITY_TREE_DEPTH,
        AVAILABILITY_TREE_BUFFER_SIZE,
    );
    (oracle_tree, available_tree)
}

/// Publish an externally supplied oracle update: a pure pass-through replace
/// against the oracle accumulator, with no business semantics of its own.
pub fn update_job_board(
    oracle_tree: &mut Accumulator,
    auth: &Pubkey,
    leaf_index: u32,
    new_leaf: Node,
    prev_leaf: Node,
    root: u64,
) -> (res: Result<(), JobBoardError>)
    requires
        old(oracle_tree).wf(),
    ensures
        final(oracle_tree).wf(),
        res is Ok <==> crate::accumulator::replace_enabled(
            *old(oracle_tree),
            auth@,
            leaf_index,
            prev_leaf@,
            root,
        ),
        res is Ok ==> crate::accumulator::replace_step(
            *old(oracle_tree),
            *final(oracle_tree),
            leaf_index,
            new_leaf@,
        ),
        res is Err ==> *final(oracle_tree) == *old(oracle_tree),
        res matches Err(e) ==> e == crate::accumulator::replace_err(*old(oracle_tree), auth@),
{
    oracle_tree.replace_leaf(auth, leaf_index, new_leaf, prev_leaf, root)
}

} // verus!
