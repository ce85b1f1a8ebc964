use crate::accumulator::{replace_enabled, replace_step, Accumulator};
use crate::availability::{
    register_step, set_available_enabled, set_available_err, set_available_step,
    set_unavailable_enabled, set_unavailable_step, with_accepted_cleared,
};
use crate::availability_info::AvailabilityInfo;
use crate::bounty::{Bounty, BountyAccount};
use crate::error::JobBoardError;
use crate::escrow::{accept_bounty_step, create_bounty_step};
use crate::leaf::leaf_hash;
use crate::Pubkey;
use vstd::prelude::*;

verus! {

/// Non-idempotence of Set-Available: after one successful Unavailable ->
/// Available transition, a second one for the same record cannot succeed —
/// whatever root, clock and supplied bounty the second caller brings — since
/// the stored leaf is now the "available" hash and no longer matches the
/// expected "unavailable" hash. Stated for identities whose two leaf hashes
/// differ, as they do for the digest in use.
pub proof fn lemma_set_available_non_idempotent(
    info0: AvailabilityInfo,
    tree0: Accumulator,
    supplied0: Option<BountyAccount>,
    info1: AvailabilityInfo,
    tree1: Accumulator,
    supplied1: Option<BountyAccount>,
    auth: Seq<u8>,
    root0: u64,
    clock0: u64,
    auth1: Seq<u8>,
    root1: u64,
    clock1: u64,
    supplied2: Option<BountyAccount>,
)
    requires
        leaf_hash(info0.key@, 0) != leaf_hash(info0.key@, 1),
        set_available_enabled(info0, tree0, auth, root0, clock0, supplied0),
        set_available_step(info0, tree0, supplied0, info1, tree1, supplied1),
    ensures
        !set_available_enabled(info1, tree1, auth1, root1, clock1, supplied2),
{
    assert(tree1.leaves()[info1.leaf_index as int]@ == leaf_hash(info0.key@, 1));
}

/// Round trip: Register, then Set-Unavailable, then Set-Available, each
/// against the freshly observed root, reproduces at the worker's leaf index
/// exactly the leaf hash that registration appended — and both toggles are
/// in fact enabled against those fresh roots.
pub proof fn lemma_register_toggle_round_trip(
    tree0: Accumulator,
    tree1: Accumulator,
    tree2: Accumulator,
    tree3: Accumulator,
    info: AvailabilityInfo,
    info3: AvailabilityInfo,
    key: Pubkey,
    auth: Seq<u8>,
    clock_slot: u64,
    supplied3: Option<BountyAccount>,
)
    requires
        register_step(tree0, tree1, info, key),
        auth == tree1.authority_key(),
        set_unavailable_step(info, tree1, tree2),
        set_available_step(info, tree2, None, info3, tree3, supplied3),
    ensures
        set_unavailable_enabled(info, tree1, auth, tree1.root_token()),
        set_available_enabled(info, tree2, auth, tree2.root_token(), clock_slot, None),
        tree3.leaves()[info.leaf_index as int]@ == leaf_hash(key@, 1),
        tree3.leaves()[info.leaf_index as int]@ == tree1.leaves()[info.leaf_index as int]@,
{
    assert(tree1.leaves()[info.leaf_index as int]@ == leaf_hash(key@, 1));
    assert(tree2.leaves()[info.leaf_index as int]@ == leaf_hash(key@, 0));
}

/// The timeout gate: for a record linked to a supplied, accepted bounty, the
/// Unavailable -> Available transition fails with timeout-still-active while
/// the ledger clock is strictly below the bounty's unlock time; once the
/// clock reaches it, the transition is enabled (given a passing optimistic
/// check), and any successful step clears both the accepted flag and the
/// record's bounty link.
pub proof fn lemma_timeout_gate(
    info: AvailabilityInfo,
    tree: Accumulator,
    auth: Seq<u8>,
    root: u64,
    clock_slot: u64,
    ba: BountyAccount,
)
    requires
        info.bounty == Some(ba.key),
        ba.data.accepted,
    ensures
        clock_slot < ba.data.slot ==> !set_available_enabled(
            info,
            tree,
            auth,
            root,
            clock_slot,
            Some(ba),
        ),
        clock_slot < ba.data.slot ==> set_available_err(info, tree, auth, root, clock_slot, Some(ba))
            == JobBoardError::BountyDelistTimeoutStillActive,
        clock_slot >= ba.data.slot && replace_enabled(
            tree,
            auth,
            info.leaf_index,
            leaf_hash(info.key@, 0),
            root,
        ) ==> set_available_enabled(info, tree, auth, root, clock_slot, Some(ba)),
        forall|info1: AvailabilityInfo, tree1: Accumulator, supplied1: Option<BountyAccount>|
            set_available_step(info, tree, Some(ba), info1, tree1, supplied1) ==> info1.bounty
                is None && supplied1 == Some(with_accepted_cleared(ba)),
{
}

/// Escrow conservation at creation: the sum of the sponsor's balance and the
/// vault's balance is the same before and after a successful CreateBounty.
pub proof fn lemma_create_bounty_conserves(
    entry1: Option<Bounty>,
    sponsor_balance0: u64,
    sponsor_balance1: u64,
    vault_balance0: u64,
    vault_balance1: u64,
    sponsor: Pubkey,
    recipient: Pubkey,
    mint: Pubkey,
    slot: u64,
    amount: u64,
)
    requires
        create_bounty_step(
            entry1,
            sponsor_balance0,
            sponsor_balance1,
            vault_balance0,
            vault_balance1,
            sponsor,
            recipient,
            mint,
            slot,
            amount,
        ),
    ensures
        sponsor_balance1 + vault_balance1 == sponsor_balance0 + vault_balance0,
{
}

/// Escrow conservation at acceptance: the sum of the vault's balance and the
/// recipient's balance is the same before and after a successful
/// AcceptBounty, and the amount moved equals the vault's balance at call
/// time, exactly.
pub proof fn lemma_accept_bounty_conserves(
    bounty0: Bounty,
    bounty1: Bounty,
    info0: AvailabilityInfo,
    info1: AvailabilityInfo,
    bounty_key: Pubkey,
    vault_balance0: u64,
    vault_balance1: u64,
    recipient_balance0: u64,
    recipient_balance1: u64,
)
    requires
        accept_bounty_step(
            bounty0,
            bounty1,
            info0,
            info1,
            bounty_key,
            vault_balance0,
            vault_balance1,
            recipient_balance0,
            recipient_balance1,
        ),
    ensures
        vault_balance1 + recipient_balance1 == vault_balance0 + recipient_balance0,
        recipient_balance1 - recipient_balance0 == vault_balance0,
{
}

/// Concurrency rejection: of two replace calls racing with the same observed
/// root, at most one can succeed. Once the first has gone through, the root
/// has moved to a fresh value, so the second — whatever authority, index and
/// previous leaf it brings — fails its optimistic check against that same
/// stale root; with a proven authority it reports a concurrency conflict.
pub proof fn lemma_concurrent_replace_excludes(
    tree0: Accumulator,
    tree1: Accumulator,
    auth: Seq<u8>,
    root: u64,
    index: u32,
    prev: Seq<u8>,
    new_leaf: Seq<u8>,
    auth2: Seq<u8>,
    index2: u32,
    prev2: Seq<u8>,
)
    requires
        replace_enabled(tree0, auth, index, prev, root),
        replace_step(tree0, tree1, index, new_leaf),
    ensures
        !replace_enabled(tree1, auth2, index2, prev2, root),
        auth2 == tree1.authority_key() ==> crate::accumulator::replace_err(tree1, auth2)
            == JobBoardError::ConcurrencyConflict,
{
    assert(tree1.root_token() != root);
}

} // verus!
