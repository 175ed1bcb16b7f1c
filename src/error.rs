use vstd::prelude::*;

verus! {

/// Why an aggregation run stopped. Every error is fatal: no partial
/// aggregate is ever produced.
#[derive(Debug, Clone, Copy, PartialEq, Eq, Structural)]
pub enum AggregationError {
    /// The lists of keys, values and proofs differ in length.
    InputShape,
    /// No leaves were supplied, so no digest exists.
    EmptyInput,
    /// The sub-proof at `index` was rejected against its key and value.
    LeafVerification { index: usize },
    /// The proving backend failed to produce a leaf or outer proof.
    BackendProving,
    /// The artifact cannot be given a well-formed encoding.
    Serialization,
}

} // verus!
