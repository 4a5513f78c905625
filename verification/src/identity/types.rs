//! Values that the core identity contract takes and stores.

use crate::ids::Hash32;
use vstd::prelude::*;

verus! {

/// A Groth16 proof.
#[derive(Clone, Copy, Debug, PartialEq, Eq)]
pub struct Proof {
    pub a: Hash32,
    pub b: Hash32,
    pub c: Hash32,
}

/// Public signals of a Groth16 non-inclusion proof. `old_root` must match
/// the stored SMT root; `new_root` becomes the SMT root after a successful
/// registration of `commitment`.
#[derive(Clone, Copy, Debug, PartialEq, Eq)]
pub struct PublicSignals {
    pub old_root: Hash32,
    pub new_root: Hash32,
    pub commitment: Hash32,
}

/// The chains whose addresses a commitment can resolve to.
#[derive(Clone, Copy, Debug, PartialEq, Eq)]
pub enum ChainType {
    Evm,
    Bitcoin,
    Solana,
    Cosmos,
}

} // verus!
