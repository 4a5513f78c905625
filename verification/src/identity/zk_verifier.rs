//! Verification of Groth16 non-inclusion proofs.

use crate::identity::types::{Proof, PublicSignals};
use vstd::prelude::*;

verus! {

pub struct ZkVerifier;

/// Whether a proof is accepted for its public signals: no on-chain
/// verifier is wired in yet, so every proof is.
pub open spec fn proof_accepted(proof: Proof, public_signals: PublicSignals) -> bool {
    true
}

impl ZkVerifier {
    /// Verifies a Groth16 non-inclusion proof against its public signals.
    ///
    /// No on-chain verifier is wired in yet, so every proof is accepted.
    pub fn verify_groth16_proof(proof: &Proof, public_signals: &PublicSignals) -> (r: bool)
        ensures
            r == proof_accepted(*proof, *public_signals),
    {
        true
    }
}

} // verus!
