//! Execution payload headers and their Merkle roots.
use vstd::prelude::*;

use crate::hash::Hash256;

verus! {

/// The root of the Merkle tree over some bytes, in leaves of 32, with at least so many leaves.
pub uninterp spec fn merkle_root_of(bytes: Seq<u8>, minimum_leaf_count: nat) -> Seq<u8>;

/// The most fields that a header can have.
pub const MAX_HEADER_FIELDS: usize = 0x100_0000;

/// Calls `tree_hash::merkle_root`. The root that it returns is determined by the bytes and the
/// leaf count; what root it is, is left to that function. It gives up on trees that are too deep,
/// hence the bounds, which no header comes near.
#[verifier::external_body]
fn merkle_root(bytes: &[u8], minimum_leaf_count: usize) -> (root: [u8; 32])
    requires
        bytes@.len() <= 32 * MAX_HEADER_FIELDS,
        minimum_leaf_count <= MAX_HEADER_FIELDS,
    ensures
        root@ == merkle_root_of(bytes@, minimum_leaf_count as nat),
{
    tree_hash::merkle_root(bytes, minimum_leaf_count).to_fixed_bytes()
}

/// The bytes of all hashes, one after another.
pub open spec fn joined(hashes: Seq<Hash256>) -> Seq<u8> {
    Seq::new(32 * hashes.len(), |i: int| hashes[i / 32].bytes[i % 32])
}

/// Bytes that hold byte `j` of hash `k` at `32 * k + j`, for all hashes, are the bytes of all hashes.
pub proof fn joined_bytes_are_found_by_their_place(hashes: Seq<Hash256>, bytes: Seq<u8>)
    requires
        bytes.len() == 32 * hashes.len(),
        forall|k: int, j: int|
            0 <= k < hashes.len() && 0 <= j < 32 ==> bytes[32 * k + j] == #[trigger] hashes[k].bytes@[j],
    ensures
        bytes == joined(hashes),
{
    assert forall|i: int| 0 <= i < bytes.len() implies bytes[i] == joined(hashes)[i] by {
        let k: int = i / 32;
        let j: int = i % 32;
        assert(i == 32 * k + j);
        assert(bytes[32 * k + j] == hashes[k].bytes@[j]);
    }
    assert(bytes =~= joined(hashes));
}

/// The header of an execution payload: the hash of the execution block, and the roots of the
/// header's fields in the order in which they are declared.
#[derive(PartialEq, Eq, Debug)]
pub struct PayloadHeader {
    pub block_hash: Hash256,
    pub field_roots: Vec<Hash256>,
}

impl PayloadHeader {
    /// The header has no more fields than a header can have.
    pub open spec fn wf(self) -> bool {
        self.field_roots@.len() <= MAX_HEADER_FIELDS
    }

    /// The bytes of the header's root: the root of the Merkle tree that has a leaf for each field.
    pub open spec fn root_bytes(self) -> Seq<u8> {
        merkle_root_of(joined(self.field_roots@), self.field_roots@.len())
    }

    /// The header's root.
    pub fn tree_hash_root(&self) -> (root: Hash256)
        requires
            self.wf(),
        ensures
            root.bytes@ == self.root_bytes(),
            forall|bytes: Seq<u8>|
                bytes.len() == 32 * self.field_roots@.len() && (forall|k: int, j: int|
                    0 <= k < self.field_roots@.len() && 0 <= j < 32 ==> bytes[32 * k + j]
                        == #[trigger] self.field_roots@[k].bytes@[j]) ==> root.bytes@
                    == #[trigger] merkle_root_of(bytes, self.field_roots@.len()),
    {
        let mut leaves: Vec<u8> = Vec::new();
        let mut i: usize = 0;
        while i < self.field_roots.len()
            invariant
                i <= self.field_roots.len(),
                leaves@ == joined(self.field_roots@.take(i as int)),
            decreases self.field_roots.len() - i,
        {
            let field_root = self.field_roots[i];
            let mut j: usize = 0;
            while j < 32
                invariant
                    j <= 32,
                    i < self.field_roots.len(),
                    field_root == self.field_roots@[i as int],
                    leaves@ == joined(self.field_roots@.take(i as int)) + field_root.bytes@.take(
                        j as int,
                    ),
                decreases 32 - j,
            {
                leaves.push(field_root.bytes[j]);
                j = j + 1;
                assert(field_root.bytes@.take(j as int) =~= field_root.bytes@.take(j - 1).push(
                    field_root.bytes@[j - 1],
                ));
            }
            i = i + 1;
            assert(leaves@ =~= joined(self.field_roots@.take(i as int)));
        }
        assert(self.field_roots@.take(i as int) =~= self.field_roots@);
        proof {
            assert forall|bytes: Seq<u8>|
                bytes.len() == 32 * self.field_roots@.len() && (forall|k: int, j: int|
                    0 <= k < self.field_roots@.len() && 0 <= j < 32 ==> bytes[32 * k + j]
                        == #[trigger] self.field_roots@[k].bytes@[j]) implies self.root_bytes()
                == #[trigger] merkle_root_of(bytes, self.field_roots@.len()) by {
                joined_bytes_are_found_by_their_place(self.field_roots@, bytes);
            }
        }
        Hash256 { bytes: merkle_root(leaves.as_slice(), self.field_roots.len()) }
    }
}

} // verus!
