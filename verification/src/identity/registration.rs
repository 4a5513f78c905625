//! Registration of username commitments: each commitment gets one owner,
//! once.

use crate::identity::errors::CoreError;
use crate::identity::smt_root::SmtRoot;
use crate::identity::storage::{self, CoreState, CoreStorage};
use crate::identity::types::{Proof, PublicSignals};
use crate::identity::zk_verifier::{proof_accepted, ZkVerifier};
use crate::ids::{Address, Hash32};
use crate::store::opt_view;
use vstd::prelude::*;

verus! {

pub struct Registration;

/// The state after `caller` registers `commitment` at time `now`.
pub open spec fn registered(
    s: CoreState,
    caller: Seq<u8>,
    commitment: Seq<u8>,
    now: u64,
) -> CoreState {
    CoreState {
        commitments: s.commitments.insert(commitment, caller),
        created_at: s.created_at.insert(commitment, now),
        ..s
    }
}

/// `submit_proof(caller, proof, signals)` at time `now`.
pub open spec fn submit_proof_spec(
    s: CoreState,
    caller: Seq<u8>,
    proof: Proof,
    signals: PublicSignals,
    now: u64,
) -> Result<CoreState, CoreError> {
    if s.commitments.contains_key(signals.commitment@) {
        Err(CoreError::AlreadyRegistered)
    } else if s.smt_root is None {
        Err(CoreError::RootNotSet)
    } else if s.smt_root != Some(signals.old_root@) {
        Err(CoreError::StaleRoot)
    } else if !proof_accepted(proof, signals) {
        Err(CoreError::InvalidProof)
    } else {
        Ok(CoreState {
            smt_root: Some(signals.new_root@),
            ..registered(s, caller, signals.commitment@, now)
        })
    }
}

/// `register(caller, commitment)` at time `now`.
pub open spec fn register_spec(
    s: CoreState,
    caller: Seq<u8>,
    commitment: Seq<u8>,
    now: u64,
) -> Result<CoreState, CoreError> {
    if s.commitments.contains_key(commitment) {
        Err(CoreError::AlreadyRegistered)
    } else {
        Ok(registered(s, caller, commitment, now))
    }
}

impl Registration {
    /// Registers `public_signals.commitment` to `caller` through a proof of
    /// its non-inclusion in the tree whose root is stored; the root then
    /// moves to `public_signals.new_root`. The caller must authorize the
    /// call; `now` is the ledger time.
    pub fn submit_proof(
        env: &mut CoreStorage,
        caller: Address,
        proof: Proof,
        public_signals: PublicSignals,
        now: u64,
    ) -> (r: Result<(), CoreError>)
        ensures
            match r {
                Ok(()) => submit_proof_spec(old(env)@, caller@, proof, public_signals, now)
                    == Ok::<_, CoreError>(final(env)@),
                Err(e) => submit_proof_spec(old(env)@, caller@, proof, public_signals, now)
                    == Err::<CoreState, _>(e) && final(env)@ == old(env)@,
            },
    {
        let commitment = public_signals.commitment;
        if storage::has_commitment(env, &commitment) {
            return Err(CoreError::AlreadyRegistered);
        }
        let current_root = match SmtRoot::get_root(env) {
            Some(root) => root,
            None => {
                return Err(CoreError::RootNotSet);
            },
        };
        if !public_signals.old_root.same(&current_root) {
            return Err(CoreError::StaleRoot);
        }
        if !ZkVerifier::verify_groth16_proof(&proof, &public_signals) {
            return Err(CoreError::InvalidProof);
        }
        storage::set_commitment_owner(env, &commitment, &caller);
        storage::set_created_at(env, &commitment, now);
        SmtRoot::update_root(env, public_signals.new_root);
        Ok(())
    }

    /// Registers `commitment` (the Poseidon hash of a username) to `caller`
    /// at time `now`; refused when it already has an owner. The caller
    /// must authorize the call.
    pub fn register(env: &mut CoreStorage, caller: Address, commitment: Hash32, now: u64) -> (r:
        Result<(), CoreError>)
        ensures
            match r {
                Ok(()) => register_spec(old(env)@, caller@, commitment@, now)
                    == Ok::<_, CoreError>(final(env)@),
                Err(e) => register_spec(old(env)@, caller@, commitment@, now)
                    == Err::<CoreState, _>(e)
                    && final(env)@ == old(env)@,
            },
    {
        if storage::has_commitment(env, &commitment) {
            return Err(CoreError::AlreadyRegistered);
        }
        storage::set_commitment_owner(env, &commitment, &caller);
        storage::set_created_at(env, &commitment, now);
        Ok(())
    }

    /// The owner of `commitment`, if it is registered.
    pub fn get_owner(env: &CoreStorage, commitment: Hash32) -> (r: Option<Address>)
        ensures
            opt_view(r) == (if env@.commitments.contains_key(commitment@) {
                Some(env@.commitments[commitment@])
            } else {
                None
            }),
    {
        storage::get_commitment_owner(env, &commitment)
    }

    /// The ledger time at which `commitment` was registered, if it is.
    pub fn get_created_at(env: &CoreStorage, commitment: Hash32) -> (r: Option<u64>)
        ensures
            r == (if env@.created_at.contains_key(commitment@) {
                Some(env@.created_at[commitment@])
            } else {
                None
            }),
    {
        storage::get_created_at(env, &commitment)
    }
}

/// After `caller` registers `commitment` at time `now`, the commitment's
/// owner reads back as `caller` and its registration time as `now`.
pub proof fn lemma_register_then_read(s: CoreState, caller: Seq<u8>, commitment: Seq<u8>, now: u64)
    requires
        register_spec(s, caller, commitment, now) is Ok,
    ensures
        ({
            let s1 = register_spec(s, caller, commitment, now)->Ok_0;
            &&& s1.commitments.contains_key(commitment)
            &&& s1.commitments[commitment] == caller
            &&& s1.created_at.contains_key(commitment)
            &&& s1.created_at[commitment] == now
        }),
{
}

/// A commitment is registered at most once: once registered, both ways of
/// registering it again are refused with `AlreadyRegistered`.
pub proof fn lemma_register_once(
    s: CoreState,
    caller: Seq<u8>,
    commitment: Seq<u8>,
    now: u64,
    other: Seq<u8>,
    later: u64,
    proof: Proof,
    signals: PublicSignals,
)
    requires
        register_spec(s, caller, commitment, now) is Ok,
        signals.commitment@ == commitment,
    ensures
        register_spec(register_spec(s, caller, commitment, now)->Ok_0, other, commitment, later)
            == Err::<CoreState, _>(CoreError::AlreadyRegistered),
        submit_proof_spec(
            register_spec(s, caller, commitment, now)->Ok_0,
            other,
            proof,
            signals,
            later,
        )
            == Err::<CoreState, _>(CoreError::AlreadyRegistered),
{
}

/// Registration never changes the owner of a commitment that already has
/// one: every owner in the state before stays, under either way of
/// registering.
pub proof fn lemma_registration_keeps_owners(
    s: CoreState,
    caller: Seq<u8>,
    commitment: Seq<u8>,
    now: u64,
    proof: Proof,
    signals: PublicSignals,
    h: Seq<u8>,
)
    requires
        s.commitments.contains_key(h),
    ensures
        register_spec(s, caller, commitment, now) is Ok ==> {
            let s1 = register_spec(s, caller, commitment, now)->Ok_0;
            s1.commitments.contains_key(h) && s1.commitments[h] == s.commitments[h]
        },
        submit_proof_spec(s, caller, proof, signals, now) is Ok ==> {
            let s1 = submit_proof_spec(s, caller, proof, signals, now)->Ok_0;
            s1.commitments.contains_key(h) && s1.commitments[h] == s.commitments[h]
        },
{
}

/// A registration by proof moves the SMT root from the one the proof was
/// made against to the proof's new root.
pub proof fn lemma_submit_proof_moves_root(
    s: CoreState,
    caller: Seq<u8>,
    proof: Proof,
    signals: PublicSignals,
    now: u64,
)
    requires
        submit_proof_spec(s, caller, proof, signals, now) is Ok,
    ensures
        s.smt_root == Some(signals.old_root@),
        submit_proof_spec(s, caller, proof, signals, now)->Ok_0.smt_root == Some(signals.new_root@),
        submit_proof_spec(s, caller, proof, signals, now)->Ok_0.commitments[signals.commitment@]
            == caller,
{
}

/// Registration succeeds exactly when the commitment has no owner, whatever
/// else the state holds (the SMT root included): the commitment then gets
/// `caller` as owner and `now` as registration time, and nothing else
/// changes.
pub proof fn lemma_register_succeeds_when_free(
    s: CoreState,
    caller: Seq<u8>,
    commitment: Seq<u8>,
    now: u64,
)
    ensures
        (register_spec(s, caller, commitment, now) is Ok) == !s.commitments.contains_key(
            commitment,
        ),
        !s.commitments.contains_key(commitment) ==> register_spec(s, caller, commitment, now)
            == Ok::<_, CoreError>(
            CoreState {
                commitments: s.commitments.insert(commitment, caller),
                created_at: s.created_at.insert(commitment, now),
                ..s
            },
        ),
{
}

/// A registration by proof succeeds whenever the commitment has no owner
/// and the proof was made against the stored root.
pub proof fn lemma_submit_proof_succeeds(
    s: CoreState,
    caller: Seq<u8>,
    proof: Proof,
    signals: PublicSignals,
    now: u64,
)
    requires
        !s.commitments.contains_key(signals.commitment@),
        s.smt_root == Some(signals.old_root@),
    ensures
        submit_proof_spec(s, caller, proof, signals, now) is Ok,
{
}

/// Each refusal of a registration by proof names its cause: a commitment
/// that has an owner, no stored root, or a proof made against another root.
pub proof fn lemma_submit_proof_refusals(
    s: CoreState,
    caller: Seq<u8>,
    proof: Proof,
    signals: PublicSignals,
    now: u64,
)
    ensures
        s.commitments.contains_key(signals.commitment@) ==> submit_proof_spec(
            s,
            caller,
            proof,
            signals,
            now,
        ) == Err::<CoreState, _>(CoreError::AlreadyRegistered),
        !s.commitments.contains_key(signals.commitment@) && s.smt_root is None
            ==> submit_proof_spec(s, caller, proof, signals, now) == Err::<CoreState, _>(
            CoreError::RootNotSet,
        ),
        !s.commitments.contains_key(signals.commitment@) && s.smt_root is Some && s.smt_root
            != Some(signals.old_root@) ==> submit_proof_spec(s, caller, proof, signals, now)
            == Err::<CoreState, _>(CoreError::StaleRoot),
{
}

} // verus!
