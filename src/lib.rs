//! Aggregation of many zero-knowledge proofs into one binding commitment.
//!
//! The library holds the verified logic: encoding verification keys as
//! bytes, the binding digest over (key, public value) pairs, the commitment
//! builder that refuses to commit unless every sub-proof was accepted, and
//! the packaging of the final artifact for on-chain and off-chain use.
pub mod binding;
pub mod commitment;
pub mod error;
pub mod orchestrate;
pub mod package;
pub mod words;

pub use binding::{commit_proof_pairs, commitment_leaf};
pub use error::AggregationError;
pub use orchestrate::{leaf_parameters, MAX_LEAVES};
pub use package::{
    hex_prefixed, AggregateArtifact, OffChainIndex, OnChainFixture, PackagedArtifact, ProofSystem,
};
pub use commitment::{build_commitment, public_value_digest, verification_requests, VerificationRequest};
pub use words::words_to_bytes_le;
