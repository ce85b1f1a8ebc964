use crate::{Node, Pubkey};
use vstd::prelude::*;

verus! {

/// The 32-byte authenticated leaf content for an identity in a given state:
/// the keccak-256 digest of the 32 identity bytes followed by the one-byte
/// state tag (0x01 = available, 0x00 = unavailable).
pub uninterp spec fn leaf_hash(key: Seq<u8>, tag: u8) -> Seq<u8>;

/// Relies on anchor_lang::solana_program::keccak::hashv: the keccak-256
/// digest of the concatenation of the given byte slices, a function of those
/// bytes alone.
#[verifier::external_body]
fn hash_key_with_tag(key: &Pubkey, tag: u8) -> (r: Node)
    ensures
        r@ == leaf_hash(key@, tag),
{
    anchor_lang::solana_program::keccak::hashv(&[key.as_ref(), &[tag]]).to_bytes()
}

/// The leaf mirroring that `key` is available.
pub fn create_available_leaf(key: &Pubkey) -> (r: Node)
    ensures
        r@ == leaf_hash(key@, 1),
{
    hash_key_with_tag(key, 0x1)
}

/// The leaf mirroring that `key` is unavailable.
pub fn create_unavailable_leaf(key: &Pubkey) -> (r: Node)
    ensures
        r@ == leaf_hash(key@, 0),
{
    hash_key_with_tag(key, 0x0)
}

/// Exact byte equality of two 32-byte values.
pub fn nodes_equal(a: &Node, b: &Node) -> (r: bool)
    ensures
        r <==> a@ == b@,
{
    let mut i: usize = 0;
    while i < 32
        invariant
            i <= 32,
            forall|j: int| 0 <= j < i ==> a@[j] == b@[j],
        decreases 32 - i,
    {
        if a[i] != b[i] {
            assert(a@[i as int] != b@[i as int]);
            return false;
        }
        i = i + 1;
    }
    assert(a@ =~= b@);
    true
}

} // verus!
