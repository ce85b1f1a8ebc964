use crate::error::JobBoardError;
use crate::leaf::nodes_equal;
use crate::{Node, Pubkey};
use vstd::prelude::*;

verus! {

/// The model of the external authenticated accumulator, specified at its
/// interface boundary: a sequence of 32-byte leaves at fixed indices,
/// summarized by a root value that serves purely as an optimistic-concurrency
/// token. Every successful mutation moves the root to a fresh value, so a
/// caller holding a stale root is rejected. The internal authenticated-tree
/// arithmetic of the real service is out of scope and is not rebuilt here.
pub struct Accumulator {
    authority: Pubkey,
    capacity: u64,
    buffer_size: u32,
    root: u64,
    nodes: Vec<Node>,
}

/// The root value after one successful mutation: always different from `r`.
pub open spec fn wrap_inc(r: u64) -> u64 {
    if r == u64::MAX {
        0u64
    } else {
        (r + 1) as u64
    }
}

impl Accumulator {
    /// The identity that every mutating call must prove it signs as.
    pub closed spec fn authority_key(&self) -> Seq<u8> {
        self.authority@
    }

    /// The current optimistic-concurrency token.
    pub closed spec fn root_token(&self) -> u64 {
        self.root
    }

    /// The leaves, in index order; index = position of registration.
    pub closed spec fn leaves(&self) -> Seq<Node> {
        self.nodes@
    }

    /// Fixed capacity, set at initialization as 2^depth.
    pub closed spec fn capacity(&self) -> u64 {
        self.capacity
    }

    /// The configured changelog buffer size; configuration only.
    pub closed spec fn buffer(&self) -> u32 {
        self.buffer_size
    }

    pub closed spec fn wf(&self) -> bool {
        &&& self.nodes@.len() <= self.capacity
        &&& self.capacity <= 0x4000_0000u64
    }

    /// Create an empty accumulator of fixed capacity `2^max_depth`, whose
    /// writes only `authority` may sign.
    pub fn init_tree(authority: Pubkey, max_depth: u32, max_buffer_size: u32) -> (t: Accumulator)
        requires
            max_depth <= 30,
        ensures
            t.wf(),
            t.authority_key() == authority@,
            t.leaves().len() == 0,
            t.root_token() == 0,
            t.capacity() == (1u64 << max_depth),
            t.buffer() == max_buffer_size,
    {
        let capacity: u64 = 1u64 << max_depth;
        assert(1u64 << max_depth <= 0x4000_0000u64) by (bit_vector)
            requires
                max_depth <= 30,
        ;
        Accumulator { authority, capacity, buffer_size: max_buffer_size, root: 0, nodes: Vec::new() }
    }

    /// Add `leaf` at the current next-free index and return that index.
    /// Atomic append-and-return-assigned-index: there is no separate
    /// read-index step for concurrent registrations to race through.
    pub fn append_leaf(&mut self, auth: &Pubkey, leaf: Node) -> (res: Result<u32, JobBoardError>)
        requires
            old(self).wf(),
        ensures
            final(self).wf(),
            res is Ok <==> append_enabled(*old(self), auth@),
            res matches Ok(i) ==> i as int == old(self).leaves().len(),
            res is Ok ==> append_step(*old(self), *final(self), leaf@),
            res is Err ==> *final(self) == *old(self),
            res matches Err(e) ==> e == append_err(*old(self), auth@),
    {
        if !nodes_equal(auth, &self.authority) {
            return Err(JobBoardError::AuthorizationFailed);
        }
        if !((self.nodes.len() as u64) < self.capacity) {
            return Err(JobBoardError::TreeFull);
        }
        let index = self.nodes.len() as u32;
        self.nodes.push(leaf);
        self.root = bump_root(self.root);
        Ok(index)
    }

    /// Swap the leaf at `index` from `prev_leaf` to `new_leaf`, but only if
    /// `root` is the accumulator's current root and `prev_leaf` is the value
    /// stored at `index`; otherwise fail with no mutation.
    pub fn replace_leaf(
        &mut self,
        auth: &Pubkey,
        index: u32,
        new_leaf: Node,
        prev_leaf: Node,
        root: u64,
    ) -> (res: Result<(), JobBoardError>)
        requires
            old(self).wf(),
        ensures
            final(self).wf(),
            res is Ok <==> replace_enabled(*old(self), auth@, index, prev_leaf@, root),
            res is Ok ==> replace_step(*old(self), *final(self), index, new_leaf@),
            res is Err ==> *final(self) == *old(self),
            res matches Err(e) ==> e == replace_err(*old(self), auth@),
    {
        if !nodes_equal(auth, &self.authority) {
            return Err(JobBoardError::AuthorizationFailed);
        }
        if root != self.root {
            return Err(JobBoardError::ConcurrencyConflict);
        }
        if !((index as usize) < self.nodes.len()) {
            return Err(JobBoardError::ConcurrencyConflict);
        }
        let stored: Node = self.nodes[index as usize];
        if !nodes_equal(&stored, &prev_leaf) {
            return Err(JobBoardError::ConcurrencyConflict);
        }
        let slot_ref = &mut self.nodes[index as usize];
        *slot_ref = new_leaf;
        self.root = bump_root(self.root);
        Ok(())
    }

    /// The currently observed root, for a later optimistic mutation.
    pub fn current_root(&self) -> (r: u64)
        ensures
            r == self.root_token(),
    {
        self.root
    }

    /// The next-free index: where the next successful append will land.
    pub fn next_index(&self) -> (r: u32)
        requires
            self.wf(),
        ensures
            r as int == self.leaves().len(),
    {
        self.nodes.len() as u32
    }

    /// The stored leaf at `index`, if that index is occupied.
    pub fn leaf_at(&self, index: u32) -> (res: Option<Node>)
        ensures
            res matches Some(leaf) ==> (index as int) < self.leaves().len() && leaf
                == self.leaves()[index as int],
            res is None <==> (index as int) >= self.leaves().len(),
    {
        if (index as usize) < self.nodes.len() {
            Some(self.nodes[index as usize])
        } else {
            None
        }
    }

    /// The fixed leaf capacity set at initialization.
    pub fn max_capacity(&self) -> (r: u64)
        ensures
            r == self.capacity(),
    {
        self.capacity
    }

    /// The configured changelog buffer size.
    pub fn buffer_capacity(&self) -> (r: u32)
        ensures
            r == self.buffer(),
    {
        self.buffer_size
    }
}

fn bump_root(r: u64) -> (r2: u64)
    ensures
        r2 == wrap_inc(r),
{
    if r == u64::MAX {
        0
    } else {
        r + 1
    }
}

/// The append succeeds: the authority matches and there is room for a leaf.
pub open spec fn append_enabled(a: Accumulator, auth: Seq<u8>) -> bool {
    &&& auth == a.authority_key()
    &&& a.leaves().len() < a.capacity()
}

pub open spec fn append_err(a: Accumulator, auth: Seq<u8>) -> JobBoardError {
    if auth != a.authority_key() {
        JobBoardError::AuthorizationFailed
    } else {
        JobBoardError::TreeFull
    }
}

/// How a successful append relates the accumulator before and after: one leaf
/// with the given bytes at the old next-free index, all other leaves kept,
/// and a fresh root.
pub open spec fn append_step(pre: Accumulator, post: Accumulator, leaf: Seq<u8>) -> bool {
    &&& post.leaves().len() == pre.leaves().len() + 1
    &&& post.leaves()[pre.leaves().len() as int]@ == leaf
    &&& forall|j: int| 0 <= j < pre.leaves().len() ==> post.leaves()[j] == pre.leaves()[j]
    &&& post.root_token() == wrap_inc(pre.root_token())
    &&& same_config(pre, post)
}

/// The replace succeeds: the authority matches, the caller's root is current,
/// and `prev` is the exact value stored at `index`.
pub open spec fn replace_enabled(
    a: Accumulator,
    auth: Seq<u8>,
    index: u32,
    prev: Seq<u8>,
    root: u64,
) -> bool {
    &&& auth == a.authority_key()
    &&& root == a.root_token()
    &&& (index as int) < a.leaves().len()
    &&& a.leaves()[index as int]@ == prev
}

pub open spec fn replace_err(a: Accumulator, auth: Seq<u8>) -> JobBoardError {
    if auth != a.authority_key() {
        JobBoardError::AuthorizationFailed
    } else {
        JobBoardError::ConcurrencyConflict
    }
}

/// How a successful replace relates the accumulator before and after: the
/// leaf at `index` now holds the given bytes, every other leaf is kept, and
/// the root moved to a fresh value.
pub open spec fn replace_step(pre: Accumulator, post: Accumulator, index: u32, new_leaf: Seq<u8>) -> bool {
    &&& post.leaves().len() == pre.leaves().len()
    &&& post.leaves()[index as int]@ == new_leaf
    &&& forall|j: int| 0 <= j < pre.leaves().len() && j != index ==> post.leaves()[j] == pre.leaves()[j]
    &&& post.root_token() == wrap_inc(pre.root_token())
    &&& same_config(pre, post)
}

/// The configuration (authority, capacity, buffer) never changes after
/// initialization.
pub open spec fn same_config(pre: Accumulator, post: Accumulator) -> bool {
    &&& post.authority_key() == pre.authority_key()
    &&& post.capacity() == pre.capacity()
    &&& post.buffer() == pre.buffer()
}

} // verus!
