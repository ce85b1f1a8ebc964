use job_board::{
    create_available_leaf, create_unavailable_leaf, initialize_globals, register_availability,
    set_myself_available, set_myself_unavailable, Bounty, BountyAccount, JobBoardError,
};

const AUTH: [u8; 32] = [7u8; 32];
const WORKER: [u8; 32] = [2u8; 32];

fn bounty_for(recipient: [u8; 32], slot: u64, accepted: bool) -> Bounty {
    Bounty {
        sponsor: [1u8; 32],
        recipient,
        mint: [3u8; 32],
        amount: 1000,
        slot,
        accepted,
    }
}

#[test]
fn register_creates_available_record() {
    let (_, mut tree) = initialize_globals(AUTH);
    let info = register_availability(&mut tree, &AUTH, WORKER).unwrap();
    assert_eq!(info.key, WORKER);
    assert_eq!(info.leaf_index, 0);
    assert_eq!(info.bounty, None);
    assert_eq!(tree.leaf_at(0), Some(create_available_leaf(&WORKER)));
}

#[test]
fn register_assigns_next_free_index() {
    let (_, mut tree) = initialize_globals(AUTH);
    register_availability(&mut tree, &AUTH, [10u8; 32]).unwrap();
    let info = register_availability(&mut tree, &AUTH, WORKER).unwrap();
    assert_eq!(info.leaf_index, 1);
}

#[test]
fn set_unavailable_writes_unavailable_leaf() {
    let (_, mut tree) = initialize_globals(AUTH);
    let info = register_availability(&mut tree, &AUTH, WORKER).unwrap();
    let root = tree.current_root();
    assert_eq!(set_myself_unavailable(&info, &mut tree, &AUTH, root), Ok(()));
    assert_eq!(tree.leaf_at(0), Some(create_unavailable_leaf(&WORKER)));
}

#[test]
fn set_unavailable_when_already_unavailable_rejected() {
    let (_, mut tree) = initialize_globals(AUTH);
    let info = register_availability(&mut tree, &AUTH, WORKER).unwrap();
    let root = tree.current_root();
    set_myself_unavailable(&info, &mut tree, &AUTH, root).unwrap();
    let fresh = tree.current_root();
    assert_eq!(
        set_myself_unavailable(&info, &mut tree, &AUTH, fresh),
        Err(JobBoardError::ConcurrencyConflict)
    );
}

#[test]
fn set_available_twice_rejected() {
    // non-idempotence: the second consecutive Set-Available fails on the
    // previous-leaf mismatch even with a freshly observed root
    let (_, mut tree) = initialize_globals(AUTH);
    let mut info = register_availability(&mut tree, &AUTH, WORKER).unwrap();
    let root = tree.current_root();
    set_myself_unavailable(&info, &mut tree, &AUTH, root).unwrap();
    let mut none = None;
    let fresh = tree.current_root();
    assert_eq!(
        set_myself_available(&mut info, &mut tree, &AUTH, fresh, 0, &mut none),
        Ok(())
    );
    let fresh2 = tree.current_root();
    assert_eq!(
        set_myself_available(&mut info, &mut tree, &AUTH, fresh2, 0, &mut none),
        Err(JobBoardError::ConcurrencyConflict)
    );
}

#[test]
fn register_toggle_round_trip_reproduces_leaf() {
    let (_, mut tree) = initialize_globals(AUTH);
    let mut info = register_availability(&mut tree, &AUTH, WORKER).unwrap();
    let registered_leaf = tree.leaf_at(0).unwrap();
    let root = tree.current_root();
    set_myself_unavailable(&info, &mut tree, &AUTH, root).unwrap();
    assert_ne!(tree.leaf_at(0).unwrap(), registered_leaf);
    let mut none = None;
    let fresh = tree.current_root();
    set_myself_available(&mut info, &mut tree, &AUTH, fresh, 0, &mut none).unwrap();
    assert_eq!(tree.leaf_at(0).unwrap(), registered_leaf);
}

#[test]
fn linked_bounty_must_be_supplied() {
    let (_, mut tree) = initialize_globals(AUTH);
    let mut info = register_availability(&mut tree, &AUTH, WORKER).unwrap();
    info.bounty = Some([9u8; 32]);
    let root = tree.current_root();
    let mut none = None;
    assert_eq!(
        set_myself_available(&mut info, &mut tree, &AUTH, root, 0, &mut none),
        Err(JobBoardError::BountyAccountMissing)
    );
    assert_eq!(info.bounty, Some([9u8; 32]));
}

#[test]
fn supplied_bounty_must_match_link() {
    let (_, mut tree) = initialize_globals(AUTH);
    let mut info = register_availability(&mut tree, &AUTH, WORKER).unwrap();
    info.bounty = Some([9u8; 32]);
    let root = tree.current_root();
    let mut wrong = Some(BountyAccount {
        key: [8u8; 32],
        data: bounty_for(WORKER, 500, true),
    });
    assert_eq!(
        set_myself_available(&mut info, &mut tree, &AUTH, root, 0, &mut wrong),
        Err(JobBoardError::BountyAccountMismatch)
    );
}

#[test]
fn timeout_gate_blocks_until_unlock() {
    // accepted bounty with unlock time 500: Set-Available fails while the
    // clock is below 500, succeeds at 500 and clears the flag and the link
    let (_, mut tree) = initialize_globals(AUTH);
    let mut info = register_availability(&mut tree, &AUTH, WORKER).unwrap();
    let root = tree.current_root();
    set_myself_unavailable(&info, &mut tree, &AUTH, root).unwrap();
    let bounty_key = [9u8; 32];
    info.bounty = Some(bounty_key);
    let mut supplied = Some(BountyAccount {
        key: bounty_key,
        data: bounty_for(WORKER, 500, true),
    });
    let fresh = tree.current_root();
    assert_eq!(
        set_myself_available(&mut info, &mut tree, &AUTH, fresh, 499, &mut supplied),
        Err(JobBoardError::BountyDelistTimeoutStillActive)
    );
    assert_eq!(info.bounty, Some(bounty_key));
    assert!(supplied.unwrap().data.accepted);
    assert_eq!(
        set_myself_available(&mut info, &mut tree, &AUTH, fresh, 500, &mut supplied),
        Ok(())
    );
    assert_eq!(info.bounty, None);
    assert!(!supplied.unwrap().data.accepted);
    assert_eq!(tree.leaf_at(0), Some(create_available_leaf(&WORKER)));
}

#[test]
fn unaccepted_linked_bounty_does_not_block() {
    let (_, mut tree) = initialize_globals(AUTH);
    let mut info = register_availability(&mut tree, &AUTH, WORKER).unwrap();
    let root = tree.current_root();
    set_myself_unavailable(&info, &mut tree, &AUTH, root).unwrap();
    let bounty_key = [9u8; 32];
    info.bounty = Some(bounty_key);
    let mut supplied = Some(BountyAccount {
        key: bounty_key,
        data: bounty_for(WORKER, 500, false),
    });
    let fresh = tree.current_root();
    assert_eq!(
        set_myself_available(&mut info, &mut tree, &AUTH, fresh, 0, &mut supplied),
        Ok(())
    );
    // no timeout path was taken, so the link is kept as it was
    assert_eq!(info.bounty, Some(bounty_key));
}

#[test]
fn stale_root_fails_whole_call_atomically() {
    // the timeout path would unlink, but the stale root fails the call as a
    // whole: no leaf moves and no unlink persists
    let (_, mut tree) = initialize_globals(AUTH);
    let mut info = register_availability(&mut tree, &AUTH, WORKER).unwrap();
    let root = tree.current_root();
    set_myself_unavailable(&info, &mut tree, &AUTH, root).unwrap();
    let bounty_key = [9u8; 32];
    info.bounty = Some(bounty_key);
    let mut supplied = Some(BountyAccount {
        key: bounty_key,
        data: bounty_for(WORKER, 500, true),
    });
    let stale = root;
    assert_eq!(
        set_myself_available(&mut info, &mut tree, &AUTH, stale, 600, &mut supplied),
        Err(JobBoardError::ConcurrencyConflict)
    );
    assert_eq!(info.bounty, Some(bounty_key));
    assert!(supplied.unwrap().data.accepted);
    assert_eq!(tree.leaf_at(0), Some(create_unavailable_leaf(&WORKER)));
}
