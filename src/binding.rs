use vstd::prelude::*;
use rs_merkle::algorithms::Sha256 as MerkleSha256;
use rs_merkle::{Hasher, MerkleTree};
use crate::error::AggregationError;
use crate::words::{le_bytes_of_words, words_to_bytes_le};

verus! {

/// What rs_merkle's SHA-256 hasher returns for the given bytes.
pub uninterp spec fn merkle_hash_of(data: Seq<u8>) -> [u8; 32];

/// What rs_merkle's tree returns as the root over the given leaves.
pub uninterp spec fn merkle_root_of(leaves: Seq<[u8; 32]>) -> [u8; 32];

/// Relies on `<rs_merkle::algorithms::Sha256 as Hasher>::hash`: the 32-byte
/// hash of the bytes, a function of the bytes alone.
#[verifier::external_body]
fn merkle_hash(data: &[u8]) -> (r: [u8; 32])
    ensures
        r == merkle_hash_of(data@),
{
    MerkleSha256::hash(data)
}

/// Relies on rs_merkle's `MerkleTree::from_leaves` and `MerkleTree::root`:
/// the tree pairs nodes left to right and promotes an unpaired last node
/// as it is; it has a root exactly when it has at least one leaf.
#[verifier::external_body]
fn merkle_tree_root(leaves: &[[u8; 32]]) -> (r: Option<[u8; 32]>)
    ensures
        r.is_none() <==> leaves@.len() == 0,
        r matches Some(root) ==> root == merkle_root_of(leaves@),
{
    MerkleTree::<MerkleSha256>::from_leaves(leaves).root()
}

/// The bytes that one commitment leaf hashes: the key's 32 bytes followed
/// by the public value.
pub open spec fn leaf_preimage(vkey: [u32; 8], value: Seq<u8>) -> Seq<u8> {
    le_bytes_of_words(vkey@) + value
}

/// The commitment leaf of one (key, value) pair.
pub open spec fn leaf_of(vkey: [u32; 8], value: Seq<u8>) -> [u8; 32] {
    merkle_hash_of(leaf_preimage(vkey, value))
}

/// The public values as plain byte sequences.
pub open spec fn values_view(values: Seq<Vec<u8>>) -> Seq<Seq<u8>> {
    values.map_values(|v: Vec<u8>| v@)
}

/// The commitment leaves, one per pair, in the order of the input.
pub open spec fn leaves_of(vkeys: Seq<[u32; 8]>, values: Seq<Seq<u8>>) -> Seq<[u8; 32]> {
    Seq::new(vkeys.len(), |i: int| leaf_of(vkeys[i], values[i]))
}

/// The binding digest of the ordered pairs: the root over their leaves.
pub open spec fn binding_digest(vkeys: Seq<[u32; 8]>, values: Seq<Seq<u8>>) -> [u8; 32] {
    merkle_root_of(leaves_of(vkeys, values))
}

/// What computing the binding digest yields: an error for lists of
/// different length or for no pairs, and the digest otherwise.
pub open spec fn binding_outcome(vkeys: Seq<[u32; 8]>, values: Seq<Seq<u8>>) -> Result<
    [u8; 32],
    AggregationError,
> {
    if vkeys.len() != values.len() {
        Err(AggregationError::InputShape)
    } else if vkeys.len() == 0 {
        Err(AggregationError::EmptyInput)
    } else {
        Ok(binding_digest(vkeys, values))
    }
}

/// Computes the commitment leaf of one (key, value) pair: the hash of the
/// key's little-endian bytes followed by the value.
pub fn commitment_leaf(vkey: &[u32; 8], value: &[u8]) -> (leaf: [u8; 32])
    ensures
        leaf == leaf_of(*vkey, value@),
{
    let key_bytes = words_to_bytes_le(vkey);
    let mut preimage: Vec<u8> = Vec::new();
    let mut k: usize = 0;
    while k < 32
        invariant
            k <= 32,
            key_bytes@.len() == 32,
            preimage@ == key_bytes@.subrange(0, k as int),
        decreases 32 - k,
    {
        preimage.push(key_bytes[k]);
        k = k + 1;
    }
    let mut j: usize = 0;
    while j < value.len()
        invariant
            j <= value@.len(),
            preimage@ == key_bytes@ + value@.subrange(0, j as int),
        decreases value@.len() - j,
    {
        preimage.push(value[j]);
        j = j + 1;
    }
    assert(preimage@ =~= leaf_preimage(*vkey, value@));
    merkle_hash(preimage.as_slice())
}

/// Binds an ordered list of (key, value) pairs into one 32-byte digest.
///
/// The lists must have the same, non-zero length: otherwise no digest is
/// returned, never a default one.
pub fn commit_proof_pairs(vkeys: &[[u32; 8]], committed_values: &[Vec<u8>]) -> (r: Result<
    [u8; 32],
    AggregationError,
>)
    ensures
        r == binding_outcome(vkeys@, values_view(committed_values@)),
{
    if vkeys.len() != committed_values.len() {
        return Err(AggregationError::InputShape);
    }
    if vkeys.len() == 0 {
        return Err(AggregationError::EmptyInput);
    }
    let ghost values = values_view(committed_values@);
    let mut leaves: Vec<[u8; 32]> = Vec::new();
    let mut i: usize = 0;
    while i < vkeys.len()
        invariant
            i <= vkeys@.len(),
            vkeys@.len() == committed_values@.len(),
            values == values_view(committed_values@),
            leaves@ == leaves_of(vkeys@, values).subrange(0, i as int),
        decreases vkeys@.len() - i,
    {
        let leaf = commitment_leaf(&vkeys[i], committed_values[i].as_slice());
        leaves.push(leaf);
        i = i + 1;
    }
    assert(leaves@ =~= leaves_of(vkeys@, values));
    match merkle_tree_root(leaves.as_slice()) {
        Some(root) => Ok(root),
        None => Err(AggregationError::EmptyInput),
    }
}

/// The digest is a function of the ordered pairs: the same keys and values
/// give the same outcome, digest or error, on every run.
pub proof fn lemma_binding_deterministic(
    vkeys1: Seq<[u32; 8]>,
    values1: Seq<Seq<u8>>,
    vkeys2: Seq<[u32; 8]>,
    values2: Seq<Seq<u8>>,
)
    requires
        vkeys1 == vkeys2,
        values1 == values2,
    ensures
        binding_outcome(vkeys1, values1) == binding_outcome(vkeys2, values2),
{
}

/// No digest exists for zero pairs: the outcome is the empty-input error.
pub proof fn lemma_empty_input_has_no_digest(vkeys: Seq<[u32; 8]>, values: Seq<Seq<u8>>)
    requires
        vkeys.len() == 0,
        values.len() == 0,
    ensures
        binding_outcome(vkeys, values) == Err::<[u8; 32], AggregationError>(
            AggregationError::EmptyInput,
        ),
{
}

proof fn lemma_word_from_le_bytes(x: u32, y: u32)
    requires
        (x >> 0u32) as u8 == (y >> 0u32) as u8,
        (x >> 8u32) as u8 == (y >> 8u32) as u8,
        (x >> 16u32) as u8 == (y >> 16u32) as u8,
        (x >> 24u32) as u8 == (y >> 24u32) as u8,
    ensures
        x == y,
{
    assert(x == y) by (bit_vector)
        requires
            (x >> 0u32) as u8 == (y >> 0u32) as u8,
            (x >> 8u32) as u8 == (y >> 8u32) as u8,
            (x >> 16u32) as u8 == (y >> 16u32) as u8,
            (x >> 24u32) as u8 == (y >> 24u32) as u8,
    ;
}

/// The bytes a commitment leaf hashes determine its pair: two pairs with
/// the same leaf preimage have the same key and the same value. So a
/// change to any key or value, and a swap of two distinct pairs, changes
/// what is hashed; that the digest then changes rests on the hash.
pub proof fn lemma_leaf_preimage_injective(
    vkey1: [u32; 8],
    value1: Seq<u8>,
    vkey2: [u32; 8],
    value2: Seq<u8>,
)
    requires
        leaf_preimage(vkey1, value1) == leaf_preimage(vkey2, value2),
    ensures
        vkey1 == vkey2,
        value1 == value2,
{
    let p1 = leaf_preimage(vkey1, value1);
    let p2 = leaf_preimage(vkey2, value2);
    let b1 = le_bytes_of_words(vkey1@);
    let b2 = le_bytes_of_words(vkey2@);
    assert(b1.len() == 32 && b2.len() == 32);
    assert(p1.subrange(32, p1.len() as int) =~= value1);
    assert(p2.subrange(32, p2.len() as int) =~= value2);
    assert forall|k: int| 0 <= k < 32 implies b1[k] == b2[k] by {
        assert(b1[k] == p1[k]);
        assert(b2[k] == p2[k]);
    }
    assert forall|w: int| 0 <= w < 8 implies vkey1@[w] == vkey2@[w] by {
        assert(b1[4 * w] == b2[4 * w]);
        assert(b1[4 * w + 1] == b2[4 * w + 1]);
        assert(b1[4 * w + 2] == b2[4 * w + 2]);
        assert(b1[4 * w + 3] == b2[4 * w + 3]);
        assert((4 * w) / 4 == w && (4 * w) % 4 == 0);
        assert((4 * w + 1) / 4 == w && (4 * w + 1) % 4 == 1);
        assert((4 * w + 2) / 4 == w && (4 * w + 2) % 4 == 2);
        assert((4 * w + 3) / 4 == w && (4 * w + 3) % 4 == 3);
        lemma_word_from_le_bytes(vkey1@[w], vkey2@[w]);
    }
    assert(vkey1@ =~= vkey2@);
    assert(vkey1 =~= vkey2);
}

} // verus!
