use vstd::prelude::*;
use sha2::{Digest, Sha256};
use crate::binding::{binding_digest, commit_proof_pairs, values_view};
use crate::error::AggregationError;

verus! {

/// What sha2's SHA-256 returns for the given bytes.
pub uninterp spec fn sha256_of(data: Seq<u8>) -> [u8; 32];

/// Relies on `sha2::Sha256::digest`: the 32-byte SHA-256 digest of the
/// bytes, a function of the bytes alone.
#[verifier::external_body]
fn sha256_digest(data: &[u8]) -> (r: [u8; 32])
    ensures
        r == sha256_of(data@),
{
    Sha256::digest(data).into()
}

/// One check that the proving backend is asked to make: that a sub-proof
/// was made under `vkey` and declares a public value whose content digest
/// is `digest`.
#[derive(Debug, Clone, Copy)]
pub struct VerificationRequest {
    pub vkey: [u32; 8],
    pub digest: [u8; 32],
}

/// The content digest of a public value, as handed to the backend's check.
pub fn public_value_digest(value: &[u8]) -> (digest: [u8; 32])
    ensures
        digest == sha256_of(value@),
{
    sha256_digest(value)
}

/// The checks to make, one per leaf and in leaf order.
///
/// Lists of different length, or no leaves at all, are refused before any
/// hashing is done.
pub fn verification_requests(vkeys: &[[u32; 8]], values: &[Vec<u8>]) -> (r: Result<
    Vec<VerificationRequest>,
    AggregationError,
>)
    ensures
        vkeys@.len() != values@.len() ==> r == Err::<Vec<VerificationRequest>, AggregationError>(
            AggregationError::InputShape,
        ),
        vkeys@.len() == values@.len() && vkeys@.len() == 0 ==> r == Err::<
            Vec<VerificationRequest>,
            AggregationError,
        >(AggregationError::EmptyInput),
        vkeys@.len() == values@.len() && vkeys@.len() > 0 ==> r is Ok,
        r matches Ok(reqs) ==> reqs@.len() == vkeys@.len() && forall|i: int|
            0 <= i < reqs@.len() ==> (#[trigger] reqs@[i]).vkey == vkeys@[i] && reqs@[i].digest
                == sha256_of(values@[i]@),
{
    if vkeys.len() != values.len() {
        return Err(AggregationError::InputShape);
    }
    if vkeys.len() == 0 {
        return Err(AggregationError::EmptyInput);
    }
    let mut reqs: Vec<VerificationRequest> = Vec::new();
    let mut i: usize = 0;
    while i < vkeys.len()
        invariant
            i <= vkeys@.len(),
            vkeys@.len() == values@.len(),
            reqs@.len() == i,
            forall|j: int|
                0 <= j < i ==> (#[trigger] reqs@[j]).vkey == vkeys@[j] && reqs@[j].digest
                    == sha256_of(values@[j]@),
        decreases vkeys@.len() - i,
    {
        let digest = public_value_digest(values[i].as_slice());
        reqs.push(VerificationRequest { vkey: vkeys[i], digest });
        i = i + 1;
    }
    Ok(reqs)
}

/// Commits to the pairs once the backend has judged every sub-proof.
///
/// `accepted[i]` is the backend's verdict on the request for leaf `i`. The
/// digest is returned only when the three lists have one length, that
/// length is not zero, and every verdict is an acceptance; otherwise the
/// error names the first reason, and the first rejected leaf.
pub fn build_commitment(vkeys: &[[u32; 8]], values: &[Vec<u8>], accepted: &[bool]) -> (r: Result<
    [u8; 32],
    AggregationError,
>)
    ensures
        vkeys@.len() != values@.len() || vkeys@.len() != accepted@.len() ==> r == Err::<
            [u8; 32],
            AggregationError,
        >(AggregationError::InputShape),
        vkeys@.len() == values@.len() == accepted@.len() == 0 ==> r == Err::<
            [u8; 32],
            AggregationError,
        >(AggregationError::EmptyInput),
        vkeys@.len() == values@.len() == accepted@.len() > 0 && (forall|i: int|
            0 <= i < accepted@.len() ==> #[trigger] accepted@[i]) ==> r == Ok::<
            [u8; 32],
            AggregationError,
        >(binding_digest(vkeys@, values_view(values@))),
        vkeys@.len() == values@.len() == accepted@.len() && (exists|i: int|
            0 <= i < accepted@.len() && !#[trigger] accepted@[i]) ==> (r matches Err(
            AggregationError::LeafVerification { index },
        ) && index < accepted@.len() && !accepted@[index as int] && forall|j: int|
            0 <= j < index ==> #[trigger] accepted@[j]),
{
    if vkeys.len() != values.len() || vkeys.len() != accepted.len() {
        return Err(AggregationError::InputShape);
    }
    if vkeys.len() == 0 {
        return Err(AggregationError::EmptyInput);
    }
    let mut i: usize = 0;
    while i < accepted.len()
        invariant
            i <= accepted@.len(),
            vkeys@.len() == values@.len(),
            vkeys@.len() == accepted@.len(),
            forall|j: int| 0 <= j < i ==> #[trigger] accepted@[j],
        decreases accepted@.len() - i,
    {
        if !accepted[i] {
            return Err(AggregationError::LeafVerification { index: i });
        }
        i = i + 1;
    }
    commit_proof_pairs(vkeys, values)
}

} // verus!
