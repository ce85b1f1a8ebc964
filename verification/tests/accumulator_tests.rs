use job_board::{initialize_globals, update_job_board, Accumulator, JobBoardError};

const AUTH: [u8; 32] = [7u8; 32];

#[test]
fn init_tree_starts_empty() {
    let tree = Accumulator::init_tree(AUTH, 20, 64);
    assert_eq!(tree.next_index(), 0);
    assert_eq!(tree.current_root(), 0);
    assert_eq!(tree.max_capacity(), 1u64 << 20);
    assert_eq!(tree.buffer_capacity(), 64);
    assert_eq!(tree.leaf_at(0), None);
}

#[test]
fn initialize_globals_configures_both_trees() {
    let (oracle, available) = initialize_globals(AUTH);
    for tree in [&oracle, &available] {
        assert_eq!(tree.next_index(), 0);
        assert_eq!(tree.current_root(), 0);
        assert_eq!(tree.max_capacity(), 1u64 << 20);
        assert_eq!(tree.buffer_capacity(), 64);
    }
}

#[test]
fn append_assigns_consecutive_indices() {
    let mut tree = Accumulator::init_tree(AUTH, 20, 64);
    assert_eq!(tree.append_leaf(&AUTH, [1u8; 32]), Ok(0));
    assert_eq!(tree.append_leaf(&AUTH, [2u8; 32]), Ok(1));
    assert_eq!(tree.append_leaf(&AUTH, [3u8; 32]), Ok(2));
    assert_eq!(tree.next_index(), 3);
    assert_eq!(tree.leaf_at(1), Some([2u8; 32]));
}

#[test]
fn append_moves_root() {
    let mut tree = Accumulator::init_tree(AUTH, 20, 64);
    let before = tree.current_root();
    tree.append_leaf(&AUTH, [1u8; 32]).unwrap();
    assert_ne!(tree.current_root(), before);
}

#[test]
fn append_wrong_authority_rejected() {
    let mut tree = Accumulator::init_tree(AUTH, 20, 64);
    let wrong = [8u8; 32];
    assert_eq!(
        tree.append_leaf(&wrong, [1u8; 32]),
        Err(JobBoardError::AuthorizationFailed)
    );
    assert_eq!(tree.next_index(), 0);
}

#[test]
fn append_full_tree_rejected() {
    let mut tree = Accumulator::init_tree(AUTH, 0, 8);
    assert_eq!(tree.max_capacity(), 1);
    assert_eq!(tree.append_leaf(&AUTH, [1u8; 32]), Ok(0));
    assert_eq!(
        tree.append_leaf(&AUTH, [2u8; 32]),
        Err(JobBoardError::TreeFull)
    );
}

#[test]
fn replace_updates_leaf() {
    let mut tree = Accumulator::init_tree(AUTH, 20, 64);
    tree.append_leaf(&AUTH, [1u8; 32]).unwrap();
    let root = tree.current_root();
    let res = tree.replace_leaf(&AUTH, 0, [9u8; 32], [1u8; 32], root);
    assert_eq!(res, Ok(()));
    assert_eq!(tree.leaf_at(0), Some([9u8; 32]));
    assert_ne!(tree.current_root(), root);
}

#[test]
fn replace_with_stale_root_rejected() {
    // two replace calls race on the same leaf index with the same observed
    // root: exactly one succeeds, the other fails with a concurrency conflict
    let mut tree = Accumulator::init_tree(AUTH, 20, 64);
    tree.append_leaf(&AUTH, [1u8; 32]).unwrap();
    let stale = tree.current_root();
    assert_eq!(tree.replace_leaf(&AUTH, 0, [2u8; 32], [1u8; 32], stale), Ok(()));
    assert_eq!(
        tree.replace_leaf(&AUTH, 0, [3u8; 32], [1u8; 32], stale),
        Err(JobBoardError::ConcurrencyConflict)
    );
    assert_eq!(tree.leaf_at(0), Some([2u8; 32]));
}

#[test]
fn replace_with_wrong_prev_leaf_rejected() {
    let mut tree = Accumulator::init_tree(AUTH, 20, 64);
    tree.append_leaf(&AUTH, [1u8; 32]).unwrap();
    let root = tree.current_root();
    assert_eq!(
        tree.replace_leaf(&AUTH, 0, [9u8; 32], [4u8; 32], root),
        Err(JobBoardError::ConcurrencyConflict)
    );
    assert_eq!(tree.leaf_at(0), Some([1u8; 32]));
    assert_eq!(tree.current_root(), root);
}

#[test]
fn replace_out_of_range_rejected() {
    let mut tree = Accumulator::init_tree(AUTH, 20, 64);
    tree.append_leaf(&AUTH, [1u8; 32]).unwrap();
    let root = tree.current_root();
    assert_eq!(
        tree.replace_leaf(&AUTH, 5, [9u8; 32], [1u8; 32], root),
        Err(JobBoardError::ConcurrencyConflict)
    );
}

#[test]
fn replace_wrong_authority_rejected() {
    let mut tree = Accumulator::init_tree(AUTH, 20, 64);
    tree.append_leaf(&AUTH, [1u8; 32]).unwrap();
    let root = tree.current_root();
    let wrong = [8u8; 32];
    assert_eq!(
        tree.replace_leaf(&wrong, 0, [9u8; 32], [1u8; 32], root),
        Err(JobBoardError::AuthorizationFailed)
    );
    assert_eq!(tree.leaf_at(0), Some([1u8; 32]));
}

#[test]
fn oracle_update_passes_through() {
    let (mut oracle, _) = initialize_globals(AUTH);
    oracle.append_leaf(&AUTH, [1u8; 32]).unwrap();
    let root = oracle.current_root();
    assert_eq!(
        update_job_board(&mut oracle, &AUTH, 0, [2u8; 32], [1u8; 32], root),
        Ok(())
    );
    assert_eq!(oracle.leaf_at(0), Some([2u8; 32]));
    assert_eq!(
        update_job_board(&mut oracle, &AUTH, 0, [3u8; 32], [1u8; 32], root),
        Err(JobBoardError::ConcurrencyConflict)
    );
}
