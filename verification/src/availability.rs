use crate::accumulator::{
    append_enabled, append_err, append_step, replace_enabled, replace_err, replace_step,
    Accumulator,
};
use crate::availability_info::AvailabilityInfo;
use crate::bounty::{Bounty, BountyAccount};
use crate::error::JobBoardError;
use crate::leaf::{create_available_leaf, create_unavailable_leaf, leaf_hash, nodes_equal};
use crate::Pubkey;
use vstd::prelude::*;

verus! {

/// Registration succeeds exactly when the append does: authority proven and
/// room in the tree.
pub open spec fn register_enabled(tree: Accumulator, auth: Seq<u8>) -> bool {
    append_enabled(tree, auth)
}

/// How a successful registration relates the availability tree before and
/// after, and the record it creates: an "available" leaf for `key` appended
/// at the old next-free index, and a record holding that index, unlinked.
pub open spec fn register_step(
    tree0: Accumulator,
    tree1: Accumulator,
    info: AvailabilityInfo,
    key: Pubkey,
) -> bool {
    &&& info.key == key
    &&& info.leaf_index as int == tree0.leaves().len()
    &&& info.bounty is None
    &&& append_step(tree0, tree1, leaf_hash(key@, 1))
}

/// Register a worker: append an "available" leaf to the availability
/// accumulator and create the worker's record at the assigned index. The
/// initial state after registration is Available. A worker registers once:
/// the surrounding ledger's storage layer rejects a second record for the
/// same identity before this logic runs.
pub fn register_availability(
    tree: &mut Accumulator,
    auth: &Pubkey,
    myself: Pubkey,
) -> (res: Result<AvailabilityInfo, JobBoardError>)
    requires
        old(tree).wf(),
    ensures
        final(tree).wf(),
        res is Ok <==> register_enabled(*old(tree), auth@),
        res matches Ok(info) ==> register_step(*old(tree), *final(tree), info, myself),
        res is Err ==> *final(tree) == *old(tree),
        res matches Err(e) ==> e == append_err(*old(tree), auth@),
{
    let leaf = create_available_leaf(&myself);
    match tree.append_leaf(auth, leaf) {
        Ok(index) => Ok(AvailabilityInfo { key: myself, leaf_index: index, bounty: None }),
        Err(e) => Err(e),
    }
}

/// Available -> Unavailable succeeds exactly when the replace does: the
/// caller's root is current and the stored leaf is the "available" hash.
pub open spec fn set_unavailable_enabled(
    info: AvailabilityInfo,
    tree: Accumulator,
    auth: Seq<u8>,
    root: u64,
) -> bool {
    replace_enabled(tree, auth, info.leaf_index, leaf_hash(info.key@, 1), root)
}

/// A successful Available -> Unavailable writes the "unavailable" hash at
/// the record's index; the record itself does not change.
pub open spec fn set_unavailable_step(
    info: AvailabilityInfo,
    tree0: Accumulator,
    tree1: Accumulator,
) -> bool {
    replace_step(tree0, tree1, info.leaf_index, leaf_hash(info.key@, 0))
}

/// Available -> Unavailable: replace hash(key || 1) with hash(key || 0) at
/// the record's leaf index, gated only by the caller's observed root. Fails
/// with no mutation if the worker is already unavailable, since the stored
/// leaf then differs from the expected "available" hash.
pub fn set_myself_unavailable(
    info: &AvailabilityInfo,
    tree: &mut Accumulator,
    auth: &Pubkey,
    root: u64,
) -> (res: Result<(), JobBoardError>)
    requires
        old(tree).wf(),
    ensures
        final(tree).wf(),
        res is Ok <==> set_unavailable_enabled(*info, *old(tree), auth@, root),
        res is Ok ==> set_unavailable_step(*info, *old(tree), *final(tree)),
        res is Err ==> *final(tree) == *old(tree),
        res matches Err(e) ==> e == replace_err(*old(tree), auth@),
{
    let prev_leaf = create_available_leaf(&info.key);
    let new_leaf = create_unavailable_leaf(&info.key);
    tree.replace_leaf(auth, info.leaf_index, new_leaf, prev_leaf, root)
}

/// The business gate on Unavailable -> Available. With no linked bounty the
/// transition is unconditional. With a link, the linked bounty must be
/// supplied, its key must equal the linked key, and if it is accepted its
/// unlock time must have been reached on the ledger clock.
pub open spec fn set_available_gate_ok(
    info: AvailabilityInfo,
    clock_slot: u64,
    supplied: Option<BountyAccount>,
) -> bool {
    match info.bounty {
        None => true,
        Some(linked) => match supplied {
            None => false,
            Some(ba) => ba.key@ == linked@ && (ba.data.accepted ==> clock_slot >= ba.data.slot),
        },
    }
}

/// The timeout path is taken: a linked bounty was supplied as accepted, so a
/// successful transition also soft-unlinks it (no value movement).
pub open spec fn set_available_unlinks(
    info: AvailabilityInfo,
    supplied: Option<BountyAccount>,
) -> bool {
    &&& info.bounty is Some
    &&& match supplied {
        Some(ba) => ba.data.accepted,
        None => false,
    }
}

/// The supplied bounty with its accepted flag cleared.
pub open spec fn with_accepted_cleared(ba: BountyAccount) -> BountyAccount {
    BountyAccount {
        key: ba.key,
        data: Bounty {
            sponsor: ba.data.sponsor,
            recipient: ba.data.recipient,
            mint: ba.data.mint,
            amount: ba.data.amount,
            slot: ba.data.slot,
            accepted: false,
        },
    }
}

/// Unavailable -> Available succeeds exactly when the bounty gate passes and
/// the replace of the "unavailable" hash with the "available" one does.
pub open spec fn set_available_enabled(
    info: AvailabilityInfo,
    tree: Accumulator,
    auth: Seq<u8>,
    root: u64,
    clock_slot: u64,
    supplied: Option<BountyAccount>,
) -> bool {
    &&& set_available_gate_ok(info, clock_slot, supplied)
    &&& replace_enabled(tree, auth, info.leaf_index, leaf_hash(info.key@, 0), root)
}

/// Which error a failed Unavailable -> Available reports, in the order the
/// call checks: the bounty gate first, then the accumulator.
pub open spec fn set_available_err(
    info: AvailabilityInfo,
    tree: Accumulator,
    auth: Seq<u8>,
    root: u64,
    clock_slot: u64,
    supplied: Option<BountyAccount>,
) -> JobBoardError {
    if !set_available_gate_ok(info, clock_slot, supplied) {
        match (info.bounty, supplied) {
            (Some(linked), None) => JobBoardError::BountyAccountMissing,
            (Some(linked), Some(ba)) => if ba.key@ != linked@ {
                JobBoardError::BountyAccountMismatch
            } else {
                JobBoardError::BountyDelistTimeoutStillActive
            },
            // not used: a record without a link is never rejected here
            (None, _) => JobBoardError::BountyAccountMissing,
        }
    } else {
        replace_err(tree, auth)
    }
}

/// How a successful Unavailable -> Available relates record, tree and
/// supplied bounty before and after: the "available" hash is written at the
/// record's index, and on the timeout path the supplied bounty's accepted
/// flag and the record's link are both cleared.
pub open spec fn set_available_step(
    info0: AvailabilityInfo,
    tree0: Accumulator,
    supplied0: Option<BountyAccount>,
    info1: AvailabilityInfo,
    tree1: Accumulator,
    supplied1: Option<BountyAccount>,
) -> bool {
    &&& info1.key == info0.key
    &&& info1.leaf_index == info0.leaf_index
    &&& replace_step(tree0, tree1, info0.leaf_index, leaf_hash(info0.key@, 1))
    &&& if set_available_unlinks(info0, supplied0) {
        &&& info1.bounty is None
        &&& supplied1 == match supplied0 {
            Some(ba) => Some(with_accepted_cleared(ba)),
            None => supplied0,
        }
    } else {
        &&& info1.bounty == info0.bounty
        &&& supplied1 == supplied0
    }
}

/// Unavailable -> Available: replace hash(key || 0) with hash(key || 1) at
/// the record's leaf index. If the record links to a bounty, the linked
/// bounty must be supplied for inspection; an accepted bounty blocks the
/// transition until its unlock time, and once that time is reached a
/// successful transition also clears the accepted flag and the record's link
/// (a soft unlink — no value moves). A stale root fails the whole call
/// atomically: on any error nothing is mutated.
pub fn set_myself_available(
    info: &mut AvailabilityInfo,
    tree: &mut Accumulator,
    auth: &Pubkey,
    root: u64,
    clock_slot: u64,
    supplied: &mut Option<BountyAccount>,
) -> (res: Result<(), JobBoardError>)
    requires
        old(tree).wf(),
    ensures
        final(tree).wf(),
        res is Ok <==> set_available_enabled(
            *old(info),
            *old(tree),
            auth@,
            root,
            clock_slot,
            *old(supplied),
        ),
        res is Ok ==> set_available_step(
            *old(info),
            *old(tree),
            *old(supplied),
            *final(info),
            *final(tree),
            *final(supplied),
        ),
        res is Err ==> *final(info) == *old(info) && *final(tree) == *old(tree)
            && *final(supplied) == *old(supplied),
        res matches Err(e) ==> e == set_available_err(
            *old(info),
            *old(tree),
            auth@,
            root,
            clock_slot,
            *old(supplied),
        ),
{
    let mut clear_link = false;
    if info.bounty.is_some() {
        let linked = info.bounty.unwrap();
        if supplied.is_none() {
            return Err(JobBoardError::BountyAccountMissing);
        }
        let ba = (*supplied).unwrap();
        if !nodes_equal(&ba.key, &linked) {
            return Err(JobBoardError::BountyAccountMismatch);
        }
        if ba.data.accepted && clock_slot < ba.data.slot {
            return Err(JobBoardError::BountyDelistTimeoutStillActive);
        }
        if ba.data.accepted {
            clear_link = true;
        }
    }
    let prev_leaf = create_unavailable_leaf(&info.key);
    let new_leaf = create_available_leaf(&info.key);
    match tree.replace_leaf(auth, info.leaf_index, new_leaf, prev_leaf, root) {
        Ok(()) => {
            if clear_link {
                let ba = (*supplied).unwrap();
                *supplied = Some(
                    BountyAccount {
                        key: ba.key,
                        data: Bounty {
                            sponsor: ba.data.sponsor,
                            recipient: ba.data.recipient,
                            mint: ba.data.mint,
                            amount: ba.data.amount,
                            slot: ba.data.slot,
                            accepted: false,
                        },
                    },
                );
                info.bounty = None;
            }
            Ok(())
        },
        Err(e) => Err(e),
    }
}

} // verus!
