use vstd::prelude::*;
use vstd::arithmetic::div_mod::{lemma_mod_breakdown, lemma_small_mod};
use vstd::arithmetic::power2::{lemma2_to64, lemma_pow2_adds, lemma_pow2_pos, pow2};
use alloy_sol_types::SolValue;
use crate::binding::{binding_outcome, commit_proof_pairs, values_view};
use crate::error::AggregationError;
use crate::words::{le_bytes_of_words, words_to_bytes_le};

verus! {

/// The lowercase hexadecimal digit of a value below 16.
pub open spec fn hex_digit(n: int) -> char {
    seq!['0', '1', '2', '3', '4', '5', '6', '7', '8', '9', 'a', 'b', 'c', 'd', 'e', 'f'][n]
}

/// Lowercase hexadecimal text of bytes: two digits per byte, high nibble
/// first.
pub open spec fn hex_lower(b: Seq<u8>) -> Seq<char> {
    Seq::new(
        2 * b.len(),
        |i: int|
            if i % 2 == 0 {
                hex_digit(b[i / 2] as int / 16)
            } else {
                hex_digit(b[i / 2] as int % 16)
            },
    )
}

/// Hexadecimal text of bytes as the fixtures carry it: `0x` and the digits.
pub open spec fn hex_text(b: Seq<u8>) -> Seq<char> {
    seq!['0', 'x'] + hex_lower(b)
}

/// Relies on `hex::encode`: two lowercase hex digits per byte, high nibble
/// first.
#[verifier::external_body]
fn hex_encode(data: &[u8]) -> (r: String)
    ensures
        r@ == hex_lower(data@),
{
    hex::encode(data)
}

/// Relies on std's `String + &str`: the text of `s` followed by `tail`.
#[verifier::external_body]
fn append_str(s: String, tail: &str) -> (r: String)
    ensures
        r@ == s@ + tail@,
{
    s + tail
}

/// The `0x`-prefixed hexadecimal text of bytes.
pub fn hex_prefixed(data: &[u8]) -> (text: String)
    ensures
        text@ == hex_text(data@),
{
    let digits = hex_encode(data);
    let prefix = "0x".to_owned();
    proof {
        reveal_strlit("0x");
    }
    append_str(prefix, digits.as_str())
}

/// A 32-byte ABI word holding `n`, most significant byte first.
pub open spec fn abi_word(n: nat) -> Seq<u8> {
    Seq::new(32, |i: int| ((n / pow2((8 * (31 - i)) as nat)) % 256) as u8)
}

/// The zero bytes that pad `len` bytes up to a whole number of words.
pub open spec fn abi_padding(len: nat) -> Seq<u8> {
    Seq::new(((32 - len % 32) % 32) as nat, |i: int| 0u8)
}

/// The ABI encoding of the on-chain struct `(bytes32 verification_key,
/// bytes32 merkle_root, bytes proof)` as one value: the offset of the
/// struct, its two fixed words, the offset of `proof` within the struct,
/// then the length of `proof` and its bytes padded to a word.
pub open spec fn abi_encoding(vkey: [u8; 32], root: [u8; 32], proof: Seq<u8>) -> Seq<u8> {
    abi_word(32) + vkey@ + root@ + abi_word(96) + abi_word(proof.len()) + proof + abi_padding(
        proof.len(),
    )
}

/// Relies on alloy_sol_types' `SolValue::abi_encode` on the tuple
/// `([u8; 32], [u8; 32], Vec<u8>)`, that is `(bytes32, bytes32, bytes)`,
/// which encodes as one dynamic tuple behind its offset.
#[verifier::external_body]
fn abi_encode_aggregate(vkey: [u8; 32], root: [u8; 32], proof: &[u8]) -> (r: Vec<u8>)
    ensures
        r@ == abi_encoding(vkey, root, proof@),
{
    (vkey, root, proof.to_vec()).abi_encode()
}

/// The two mutually exclusive forms of the outer proof: the same proof,
/// wrapped at a different size and verification cost.
#[derive(Debug, Clone, Copy, PartialEq, Eq, Structural)]
pub enum ProofSystem {
    Plonk,
    Groth16,
}

/// The result of an aggregation run: the outer proof and the aggregator's
/// key hash, the binding digest the proof commits to, and the ordered keys
/// and values the digest binds, kept for off-chain audit.
#[derive(Debug, Clone)]
pub struct AggregateArtifact {
    pub system: ProofSystem,
    pub aggregator_vkey: [u8; 32],
    pub binding_digest: [u8; 32],
    pub proof: Vec<u8>,
    pub verification_keys: Vec<[u32; 8]>,
    pub public_values: Vec<Vec<u8>>,
}

/// The fixture an on-chain verifier reads, as `0x`-prefixed hex text.
#[derive(Debug, Clone)]
pub struct OnChainFixture {
    pub verification_key: String,
    pub merkle_root: String,
    pub proof: String,
}

/// The off-chain index: leaf `i` has key `verification_keys[i]` and value
/// `public_values[i]`, both as `0x`-prefixed hex text.
#[derive(Debug, Clone)]
pub struct OffChainIndex {
    pub verification_keys: Vec<String>,
    pub public_values: Vec<String>,
    pub leaf_indices: Vec<usize>,
}

/// An artifact serialized for its consumers.
#[derive(Debug, Clone)]
pub struct PackagedArtifact {
    pub abi_encoding: Vec<u8>,
    pub onchain: OnChainFixture,
    pub offchain: OffChainIndex,
}

impl AggregateArtifact {
    /// The digest is the recomputation of the binding digest over the
    /// off-chain lists.
    pub open spec fn well_formed(&self) -> bool {
        binding_outcome(self.verification_keys@, values_view(self.public_values@)) == Ok::<
            [u8; 32],
            AggregationError,
        >(self.binding_digest)
    }

    /// Assembles an artifact from the outer proof and its public output
    /// `committed`, after checking that the output is the binding digest of
    /// the keys and values.
    pub fn new(
        system: ProofSystem,
        aggregator_vkey: [u8; 32],
        committed: &[u8],
        proof: Vec<u8>,
        verification_keys: Vec<[u32; 8]>,
        public_values: Vec<Vec<u8>>,
    ) -> (r: Result<AggregateArtifact, AggregationError>)
        ensures
            ({
                let outcome = binding_outcome(verification_keys@, values_view(public_values@));
                &&& outcome is Err ==> r == Err::<AggregateArtifact, AggregationError>(
                    outcome->Err_0,
                )
                &&& outcome is Ok && committed@ != outcome->Ok_0@ ==> r == Err::<
                    AggregateArtifact,
                    AggregationError,
                >(AggregationError::Serialization)
                &&& outcome is Ok && committed@ == outcome->Ok_0@ ==> (r matches Ok(a)
                    && a.well_formed() && a.system == system && a.aggregator_vkey
                    == aggregator_vkey && a.binding_digest == outcome->Ok_0 && a.proof@ == proof@
                    && a.verification_keys@ == verification_keys@ && a.public_values@
                    == public_values@)
            }),
    {
        let digest = match commit_proof_pairs(verification_keys.as_slice(), public_values.as_slice()) {
            Ok(d) => d,
            Err(e) => {
                return Err(e);
            },
        };
        if committed.len() != 32 {
            return Err(AggregationError::Serialization);
        }
        let mut k: usize = 0;
        while k < 32
            invariant
                k <= 32,
                committed@.len() == 32,
                digest@.len() == 32,
                binding_outcome(verification_keys@, values_view(public_values@)) == Ok::<
                    [u8; 32],
                    AggregationError,
                >(digest),
                forall|m: int| 0 <= m < k ==> committed@[m] == digest@[m],
            decreases 32 - k,
        {
            if committed[k] != digest[k] {
                assert(committed@[k as int] != digest@[k as int]);
                return Err(AggregationError::Serialization);
            }
            k = k + 1;
        }
        assert(committed@ =~= digest@);
        Ok(
            AggregateArtifact {
                system,
                aggregator_vkey,
                binding_digest: digest,
                proof,
                verification_keys,
                public_values,
            },
        )
    }

    /// Serializes the artifact: the ABI encoding of the on-chain struct,
    /// the on-chain fixture as hex text, and the off-chain index of every
    /// leaf's key and value in leaf order.
    pub fn package(&self) -> (p: PackagedArtifact)
        ensures
            p.abi_encoding@ == abi_encoding(self.aggregator_vkey, self.binding_digest, self.proof@),
            p.onchain.verification_key@ == hex_text(self.aggregator_vkey@),
            p.onchain.merkle_root@ == hex_text(self.binding_digest@),
            p.onchain.proof@ == hex_text(self.proof@),
            p.offchain.verification_keys@.len() == self.verification_keys@.len(),
            forall|i: int|
                0 <= i < self.verification_keys@.len() ==> (
                #[trigger] p.offchain.verification_keys@[i])@ == hex_text(
                    le_bytes_of_words(self.verification_keys@[i]@),
                ),
            p.offchain.public_values@.len() == self.public_values@.len(),
            forall|i: int|
                0 <= i < self.public_values@.len() ==> (#[trigger] p.offchain.public_values@[i])@
                    == hex_text(self.public_values@[i]@),
            p.offchain.leaf_indices@ == Seq::new(
                self.verification_keys@.len(),
                |i: int| i as usize,
            ),
    {
        let abi = abi_encode_aggregate(self.aggregator_vkey, self.binding_digest, self.proof.as_slice());
        let onchain = OnChainFixture {
            verification_key: hex_prefixed(&self.aggregator_vkey),
            merkle_root: hex_prefixed(&self.binding_digest),
            proof: hex_prefixed(self.proof.as_slice()),
        };
        let n = self.verification_keys.len();
        let mut keys: Vec<String> = Vec::new();
        let mut indices: Vec<usize> = Vec::new();
        let mut i: usize = 0;
        while i < n
            invariant
                i <= n,
                n == self.verification_keys@.len(),
                keys@.len() == i,
                indices@ == Seq::new(i as nat, |j: int| j as usize),
                forall|j: int|
                    0 <= j < i ==> (#[trigger] keys@[j])@ == hex_text(
                        le_bytes_of_words(self.verification_keys@[j]@),
                    ),
            decreases n - i,
        {
            let bytes = words_to_bytes_le(&self.verification_keys[i]);
            keys.push(hex_prefixed(&bytes));
            indices.push(i);
            i = i + 1;
            assert(indices@ =~= Seq::new(i as nat, |j: int| j as usize));
        }
        let mut values: Vec<String> = Vec::new();
        let mut v: usize = 0;
        while v < self.public_values.len()
            invariant
                v <= self.public_values@.len(),
                values@.len() == v,
                forall|j: int|
                    0 <= j < v ==> (#[trigger] values@[j])@ == hex_text(self.public_values@[j]@),
            decreases self.public_values@.len() - v,
        {
            values.push(hex_prefixed(self.public_values[v].as_slice()));
            v = v + 1;
        }
        PackagedArtifact {
            abi_encoding: abi,
            onchain,
            offchain: OffChainIndex { verification_keys: keys, public_values: values, leaf_indices: indices },
        }
    }
}

/// The wrap mode never touches the binding digest: two well-formed
/// artifacts over the same ordered keys and values carry the same digest,
/// and their on-chain encodings hold it in the same place, the struct's
/// second word. Only the outer proofs tell the encodings apart: distinct
/// proof bytes give distinct encodings.
pub proof fn lemma_wrap_mode_keeps_digest(a: AggregateArtifact, b: AggregateArtifact)
    requires
        a.well_formed(),
        b.well_formed(),
        a.verification_keys@ == b.verification_keys@,
        a.public_values@ == b.public_values@,
        a.proof@.len() <= u64::MAX,
        b.proof@.len() <= u64::MAX,
    ensures
        a.binding_digest == b.binding_digest,
        hex_text(a.binding_digest@) == hex_text(b.binding_digest@),
        abi_encoding(a.aggregator_vkey, a.binding_digest, a.proof@).subrange(64, 96)
            == a.binding_digest@,
        abi_encoding(b.aggregator_vkey, b.binding_digest, b.proof@).subrange(64, 96)
            == b.binding_digest@,
        a.proof@ != b.proof@ ==> abi_encoding(a.aggregator_vkey, a.binding_digest, a.proof@)
            != abi_encoding(b.aggregator_vkey, b.binding_digest, b.proof@),
{
    lemma_root_word(a.aggregator_vkey, a.binding_digest, a.proof@);
    lemma_root_word(b.aggregator_vkey, b.binding_digest, b.proof@);
    if abi_encoding(a.aggregator_vkey, a.binding_digest, a.proof@) == abi_encoding(
        b.aggregator_vkey,
        b.binding_digest,
        b.proof@,
    ) {
        lemma_encoding_determines_proof(
            a.aggregator_vkey,
            a.binding_digest,
            a.proof@,
            b.aggregator_vkey,
            b.binding_digest,
            b.proof@,
        );
    }
}

proof fn lemma_root_word(vkey: [u8; 32], root: [u8; 32], proof: Seq<u8>)
    ensures
        abi_encoding(vkey, root, proof).subrange(64, 96) == root@,
{
    let e = abi_encoding(vkey, root, proof);
    assert(e.subrange(64, 96) =~= root@);
}

/// Equal ABI words hold values that agree modulo `2^(8t)`, for each `t`
/// up to eight bytes.
proof fn lemma_low_bytes_agree(n: nat, m: nat, t: nat)
    requires
        t <= 8,
        abi_word(n) == abi_word(m),
    ensures
        n % pow2(8 * t) == m % pow2(8 * t),
    decreases t,
{
    lemma2_to64();
    if t > 0 {
        let s = (t - 1) as nat;
        lemma_low_bytes_agree(n, m, s);
        let p = pow2(8 * s);
        lemma_pow2_pos(8 * s);
        lemma_pow2_adds(8 * s, 8);
        assert(8 * s + 8 == 8 * t);
        lemma_mod_breakdown(n as int, p as int, 256);
        lemma_mod_breakdown(m as int, p as int, 256);
        let i: int = 31 - s;
        assert(((8 * (31 - i)) as nat) == 8 * s);
        let bn: nat = (n / p) % 256;
        let bm: nat = (m / p) % 256;
        assert(bn < 256 && bm < 256);
        assert(abi_word(n)[i] == bn as u8);
        assert(abi_word(m)[i] == bm as u8);
        assert(abi_word(n)[i] == abi_word(m)[i]);
        assert(bn == bm);
    }
}

proof fn lemma_abi_word_injective(n: nat, m: nat)
    requires
        n <= u64::MAX,
        m <= u64::MAX,
        abi_word(n) == abi_word(m),
    ensures
        n == m,
{
    lemma2_to64();
    lemma_low_bytes_agree(n, m, 8);
    lemma_small_mod(n, pow2(64));
    lemma_small_mod(m, pow2(64));
}

proof fn lemma_encoding_determines_proof(
    vkey1: [u8; 32],
    root1: [u8; 32],
    proof1: Seq<u8>,
    vkey2: [u8; 32],
    root2: [u8; 32],
    proof2: Seq<u8>,
)
    requires
        proof1.len() <= u64::MAX,
        proof2.len() <= u64::MAX,
        abi_encoding(vkey1, root1, proof1) == abi_encoding(vkey2, root2, proof2),
    ensures
        proof1 == proof2,
{
    let e1 = abi_encoding(vkey1, root1, proof1);
    let e2 = abi_encoding(vkey2, root2, proof2);
    assert(e1.subrange(128, 160) =~= abi_word(proof1.len()));
    assert(e2.subrange(128, 160) =~= abi_word(proof2.len()));
    lemma_abi_word_injective(proof1.len(), proof2.len());
    let l = proof1.len() as int;
    assert(e1.subrange(160, 160 + l) =~= proof1);
    assert(e2.subrange(160, 160 + l) =~= proof2);
}

} // verus!
