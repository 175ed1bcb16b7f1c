use vstd::prelude::*;

verus! {

/// The largest number of leaves whose parameters fit in a `u32`.
pub const MAX_LEAVES: u32 = 429496729;

/// The parameter of each leaf computation, in leaf order: leaf `i` runs on
/// `10 * (i + 1)`.
pub fn leaf_parameters(num_proofs: u32) -> (params: Vec<u32>)
    requires
        num_proofs <= MAX_LEAVES,
    ensures
        params@.len() == num_proofs,
        forall|i: int| 0 <= i < params@.len() ==> #[trigger] params@[i] == 10 * (i + 1),
{
    let mut params: Vec<u32> = Vec::new();
    let mut i: u32 = 1;
    while i <= num_proofs
        invariant
            1 <= i <= num_proofs + 1,
            num_proofs <= MAX_LEAVES,
            params@.len() == i - 1,
            forall|j: int| 0 <= j < params@.len() ==> #[trigger] params@[j] == 10 * (j + 1),
        decreases num_proofs + 1 - i,
    {
        params.push(i * 10);
        i = i + 1;
    }
    params
}

} // verus!
