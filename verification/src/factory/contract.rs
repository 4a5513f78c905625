//! Entry points of the factory contract.
//!
//! A call that needs an authorization returns, on success, the address
//! that must authorize it.

use crate::factory::errors::FactoryError;
use crate::factory::storage::{self, FactoryState, FactoryStorage};
use crate::factory::types::{RecordView, UsernameRecord};
use crate::ids::{Address, Hash32};
use crate::store::opt_view;
use vstd::prelude::*;

verus! {

pub struct FactoryContract;

/// The record that `deploy_username` stores.
pub open spec fn deployed_record(
    hash: Seq<u8>,
    owner: Seq<u8>,
    now: u64,
    core: Seq<u8>,
) -> RecordView {
    RecordView { username_hash: hash, owner, registered_at: now, core_contract: core }
}

/// The reason for which `deploy_username` refuses, if it does.
pub open spec fn deploy_check(s: FactoryState, hash: Seq<u8>) -> Option<FactoryError> {
    if s.auction_contract is None {
        Some(FactoryError::Unauthorized)
    } else if s.usernames.contains_key(hash) {
        Some(FactoryError::AlreadyDeployed)
    } else if s.core_contract is None {
        Some(FactoryError::CoreContractNotConfigured)
    } else {
        None
    }
}

/// `initialize(owner)`: refused once an owner is set; else `owner` becomes
/// owner, admin and operator.
pub open spec fn initialize_spec(s: FactoryState, owner: Seq<u8>) -> Result<
    FactoryState,
    FactoryError,
> {
    if s.owner is Some {
        Err(FactoryError::Unauthorized)
    } else {
        Ok(FactoryState { owner: Some(owner), admin: Some(owner), operator: Some(owner), ..s })
    }
}

/// `configure(auction, core)`: the new state and the operator, who
/// authorizes it.
pub open spec fn configure_spec(s: FactoryState, auction: Seq<u8>, core: Seq<u8>) -> Result<
    (FactoryState, Seq<u8>),
    FactoryError,
> {
    match s.operator {
        None => Err(FactoryError::Unauthorized),
        Some(op) => Ok(
            (FactoryState { auction_contract: Some(auction), core_contract: Some(core), ..s }, op),
        ),
    }
}

/// `set_admin(new_admin)`: the new state and the owner, who authorizes it.
pub open spec fn set_admin_spec(s: FactoryState, new_admin: Seq<u8>) -> Result<
    (FactoryState, Seq<u8>),
    FactoryError,
> {
    match s.owner {
        None => Err(FactoryError::Unauthorized),
        Some(o) => Ok((FactoryState { admin: Some(new_admin), ..s }, o)),
    }
}

/// `set_operator(new_operator)`: the new state and the admin, who
/// authorizes it.
pub open spec fn set_operator_spec(s: FactoryState, new_operator: Seq<u8>) -> Result<
    (FactoryState, Seq<u8>),
    FactoryError,
> {
    match s.admin {
        None => Err(FactoryError::Unauthorized),
        Some(a) => Ok((FactoryState { operator: Some(new_operator), ..s }, a)),
    }
}

/// `deploy_username(hash, owner)` at time `now`: the new state and the
/// auction contract, which authorizes it.
pub open spec fn deploy_username_spec(
    s: FactoryState,
    hash: Seq<u8>,
    owner: Seq<u8>,
    now: u64,
) -> Result<(FactoryState, Seq<u8>), FactoryError> {
    match deploy_check(s, hash) {
        Some(e) => Err(e),
        None => Ok(
            (
                FactoryState {
                    usernames: s.usernames.insert(
                        hash,
                        deployed_record(hash, owner, now, s.core_contract.unwrap()),
                    ),
                    ..s
                },
                s.auction_contract.unwrap(),
            ),
        ),
    }
}

/// `transfer_username(hash, new_owner)`: the new state, the auction
/// contract, which authorizes it, and the former owner.
pub open spec fn transfer_username_spec(
    s: FactoryState,
    hash: Seq<u8>,
    new_owner: Seq<u8>,
) -> Result<(FactoryState, Seq<u8>, Seq<u8>), FactoryError> {
    match s.auction_contract {
        None => Err(FactoryError::Unauthorized),
        Some(auction) => if !s.usernames.contains_key(hash) {
            Err(FactoryError::NotDeployed)
        } else {
            let rec = s.usernames[hash];
            Ok(
                (
                    FactoryState {
                        usernames: s.usernames.insert(hash, RecordView { owner: new_owner, ..rec }),
                        ..s
                    },
                    auction,
                    rec.owner,
                ),
            )
        },
    }
}

impl FactoryContract {
    /// Sets `owner` as owner, admin and operator; refused once an owner is
    /// set. The owner must authorize the call.
    pub fn initialize(env: &mut FactoryStorage, owner: Address) -> (r: Result<
        Address,
        FactoryError,
    >)
        ensures
            match r {
                Ok(signer) => initialize_spec(old(env)@, owner@)
                    == Ok::<_, FactoryError>(final(env)@) && signer@ == owner@,
                Err(e) => initialize_spec(old(env)@, owner@) == Err::<FactoryState, _>(e)
                    && final(env)@ == old(env)@,
            },
    {
        if storage::get_owner(env).is_some() {
            return Err(FactoryError::Unauthorized);
        }
        storage::set_owner(env, &owner);
        storage::set_admin(env, &owner);
        storage::set_operator(env, &owner);
        Ok(owner)
    }

    /// Configures the auction and core contract addresses. The operator
    /// must authorize the call.
    pub fn configure(
        env: &mut FactoryStorage,
        auction_contract: Address,
        core_contract: Address,
    ) -> (r: Result<Address, FactoryError>)
        ensures
            match r {
                Ok(signer) => configure_spec(old(env)@, auction_contract@, core_contract@)
                    == Ok::<_, FactoryError>((final(env)@, signer@)),
                Err(e) => configure_spec(old(env)@, auction_contract@, core_contract@)
                    == Err::<(FactoryState, Seq<u8>), _>(e)
                    && final(env)@ == old(env)@,
            },
    {
        let operator = match storage::get_operator(env) {
            Some(a) => a,
            None => {
                return Err(FactoryError::Unauthorized);
            },
        };
        storage::set_auction_contract(env, &auction_contract);
        storage::set_core_contract(env, &core_contract);
        Ok(operator)
    }

    /// Names a new admin. The owner must authorize the call.
    pub fn set_admin(env: &mut FactoryStorage, new_admin: Address) -> (r: Result<
        Address,
        FactoryError,
    >)
        ensures
            match r {
                Ok(signer) => set_admin_spec(old(env)@, new_admin@)
                    == Ok::<_, FactoryError>((final(env)@, signer@)),
                Err(e) => set_admin_spec(old(env)@, new_admin@)
                    == Err::<(FactoryState, Seq<u8>), _>(e)
                    && final(env)@ == old(env)@,
            },
    {
        let owner = match storage::get_owner(env) {
            Some(a) => a,
            None => {
                return Err(FactoryError::Unauthorized);
            },
        };
        storage::set_admin(env, &new_admin);
        Ok(owner)
    }

    /// Names a new operator. The admin must authorize the call.
    pub fn set_operator(env: &mut FactoryStorage, new_operator: Address) -> (r: Result<
        Address,
        FactoryError,
    >)
        ensures
            match r {
                Ok(signer) => set_operator_spec(old(env)@, new_operator@)
                    == Ok::<_, FactoryError>((final(env)@, signer@)),
                Err(e) => set_operator_spec(old(env)@, new_operator@)
                    == Err::<(FactoryState, Seq<u8>), _>(e)
                    && final(env)@ == old(env)@,
            },
    {
        let admin = match storage::get_admin(env) {
            Some(a) => a,
            None => {
                return Err(FactoryError::Unauthorized);
            },
        };
        storage::set_operator(env, &new_operator);
        Ok(admin)
    }

    /// Returns the current owner address.
    pub fn get_owner(env: &FactoryStorage) -> (r: Option<Address>)
        ensures
            opt_view(r) == env@.owner,
    {
        storage::get_owner(env)
    }

    /// Returns the current admin address.
    pub fn get_admin(env: &FactoryStorage) -> (r: Option<Address>)
        ensures
            opt_view(r) == env@.admin,
    {
        storage::get_admin(env)
    }

    /// Returns the current operator address.
    pub fn get_operator(env: &FactoryStorage) -> (r: Option<Address>)
        ensures
            opt_view(r) == env@.operator,
    {
        storage::get_operator(env)
    }

    /// Records `username_hash` as owned by `owner` from the ledger time
    /// `now`, with the configured core contract. Refused when the username
    /// has a record. The auction contract must authorize the call.
    pub fn deploy_username(
        env: &mut FactoryStorage,
        username_hash: Hash32,
        owner: Address,
        now: u64,
    ) -> (r: Result<Address, FactoryError>)
        ensures
            match r {
                Ok(signer) => deploy_username_spec(old(env)@, username_hash@, owner@, now)
                    == Ok::<_, FactoryError>((final(env)@, signer@)),
                Err(e) => deploy_username_spec(old(env)@, username_hash@, owner@, now)
                    == Err::<(FactoryState, Seq<u8>), _>(e)
                    && final(env)@ == old(env)@,
            },
    {
        let auction_contract = match storage::get_auction_contract(env) {
            Some(a) => a,
            None => {
                return Err(FactoryError::Unauthorized);
            },
        };
        if storage::has_username(env, &username_hash) {
            return Err(FactoryError::AlreadyDeployed);
        }
        let core_contract = match storage::get_core_contract(env) {
            Some(a) => a,
            None => {
                return Err(FactoryError::CoreContractNotConfigured);
            },
        };
        let record = UsernameRecord { username_hash, owner, registered_at: now, core_contract };
        storage::set_username(env, &username_hash, &record);
        Ok(auction_contract)
    }

    /// Hands the record of `username_hash` to `new_owner`. The auction
    /// contract must authorize the call. Returns it and the former owner.
    pub fn transfer_username(
        env: &mut FactoryStorage,
        username_hash: Hash32,
        new_owner: Address,
    ) -> (r: Result<(Address, Address), FactoryError>)
        ensures
            match r {
                Ok((signer, old_owner)) => transfer_username_spec(old(env)@, username_hash@, new_owner@)
                    == Ok::<_, FactoryError>((final(env)@, signer@, old_owner@)),
                Err(e) => transfer_username_spec(old(env)@, username_hash@, new_owner@)
                    == Err::<(FactoryState, Seq<u8>, Seq<u8>), _>(e)
                    && final(env)@ == old(env)@,
            },
    {
        let auction_contract = match storage::get_auction_contract(env) {
            Some(a) => a,
            None => {
                return Err(FactoryError::Unauthorized);
            },
        };
        let mut record = match storage::get_username(env, &username_hash) {
            Some(rec) => rec,
            None => {
                return Err(FactoryError::NotDeployed);
            },
        };
        let old_owner = record.owner.clone();
        record.owner = new_owner;
        storage::set_username(env, &username_hash, &record);
        Ok((auction_contract, old_owner))
    }

    /// The record of `username_hash`.
    pub fn get_username_record(env: &FactoryStorage, username_hash: Hash32) -> (r: Option<
        UsernameRecord,
    >)
        ensures
            opt_view(r) == (if env@.usernames.contains_key(username_hash@) {
                Some(env@.usernames[username_hash@])
            } else {
                None
            }),
    {
        storage::get_username(env, &username_hash)
    }

    /// The owner of `username_hash`.
    pub fn get_username_owner(env: &FactoryStorage, username_hash: Hash32) -> (r: Option<Address>)
        ensures
            opt_view(r) == (if env@.usernames.contains_key(username_hash@) {
                Some(env@.usernames[username_hash@].owner)
            } else {
                None
            }),
    {
        match storage::get_username(env, &username_hash) {
            Some(rec) => Some(rec.owner),
            None => None,
        }
    }

    /// The configured auction contract.
    pub fn auction_contract(env: &FactoryStorage) -> (r: Option<Address>)
        ensures
            opt_view(r) == env@.auction_contract,
    {
        storage::get_auction_contract(env)
    }

    /// The configured core contract.
    pub fn core_contract(env: &FactoryStorage) -> (r: Option<Address>)
        ensures
            opt_view(r) == env@.core_contract,
    {
        storage::get_core_contract(env)
    }
}

/// A username is deployed once: afterwards its record names `owner`, the
/// time `now` and the configured core contract, and deploying it again is
/// refused with `AlreadyDeployed`.
pub proof fn lemma_deploy_once(
    s: FactoryState,
    hash: Seq<u8>,
    owner: Seq<u8>,
    now: u64,
    other: Seq<u8>,
    later: u64,
)
    requires
        deploy_username_spec(s, hash, owner, now) is Ok,
    ensures
        ({
            let s1 = deploy_username_spec(s, hash, owner, now)->Ok_0.0;
            &&& s1.usernames.contains_key(hash)
            &&& s1.usernames[hash].owner == owner
            &&& s1.usernames[hash].registered_at == now
            &&& Some(s1.usernames[hash].core_contract) == s.core_contract
            &&& deploy_username_spec(s1, hash, other, later) == Err::<(FactoryState, Seq<u8>), _>(
                FactoryError::AlreadyDeployed,
            )
        }),
{
}

/// A transfer changes the owner of the username and nothing else of its
/// record; the former owner is reported.
pub proof fn lemma_transfer_changes_only_owner(s: FactoryState, hash: Seq<u8>, new_owner: Seq<u8>)
    requires
        transfer_username_spec(s, hash, new_owner) is Ok,
    ensures
        ({
            let (s1, _signer, old_owner) = transfer_username_spec(s, hash, new_owner)->Ok_0;
            let before = s.usernames[hash];
            let after = s1.usernames[hash];
            &&& old_owner == before.owner
            &&& after.owner == new_owner
            &&& after.username_hash == before.username_hash
            &&& after.registered_at == before.registered_at
            &&& after.core_contract == before.core_contract
            &&& s1.usernames.dom() == s.usernames.dom()
        }),
{
    let s1 = transfer_username_spec(s, hash, new_owner)->Ok_0.0;
    assert(s1.usernames.dom() =~= s.usernames.dom());
}

/// Only the configured auction contract can deploy or transfer usernames:
/// it is the signer of every successful deployment and transfer.
pub proof fn lemma_auction_signs(s: FactoryState, hash: Seq<u8>, owner: Seq<u8>, now: u64)
    ensures
        deploy_username_spec(s, hash, owner, now) is Ok ==> Some(
            deploy_username_spec(s, hash, owner, now)->Ok_0.1,
        ) == s.auction_contract,
        transfer_username_spec(s, hash, owner) is Ok ==> Some(
            transfer_username_spec(s, hash, owner)->Ok_0.1,
        ) == s.auction_contract,
{
}

/// The factory is initialized once; its owner is then admin and operator.
pub proof fn lemma_initialize_once(s: FactoryState, owner: Seq<u8>, other: Seq<u8>)
    requires
        initialize_spec(s, owner) is Ok,
    ensures
        ({
            let s1 = initialize_spec(s, owner)->Ok_0;
            &&& s1.owner == Some(owner)
            &&& s1.admin == Some(owner)
            &&& s1.operator == Some(owner)
            &&& initialize_spec(s1, other) == Err::<FactoryState, _>(FactoryError::Unauthorized)
        }),
{
}

/// A username that has a record is never deployed again, whatever the
/// configuration has become since: every deployment of it is refused, with
/// `AlreadyDeployed` once an auction contract is configured.
pub proof fn lemma_recorded_never_redeployed(
    s: FactoryState,
    hash: Seq<u8>,
    owner: Seq<u8>,
    now: u64,
)
    requires
        s.usernames.contains_key(hash),
    ensures
        deploy_username_spec(s, hash, owner, now) is Err,
        s.auction_contract is Some ==> deploy_username_spec(s, hash, owner, now) == Err::<
            (FactoryState, Seq<u8>),
            _,
        >(FactoryError::AlreadyDeployed),
{
}

/// A username without a record is deployed whenever the auction and core
/// contracts are configured: the record names the owner, the time and the
/// configured core contract, and the auction contract signs.
pub proof fn lemma_deploy_succeeds(
    s: FactoryState,
    hash: Seq<u8>,
    owner: Seq<u8>,
    now: u64,
    auction: Seq<u8>,
    core: Seq<u8>,
)
    requires
        s.auction_contract == Some(auction),
        s.core_contract == Some(core),
        !s.usernames.contains_key(hash),
    ensures
        deploy_username_spec(s, hash, owner, now) == Ok::<_, FactoryError>(
            (
                FactoryState {
                    usernames: s.usernames.insert(
                        hash,
                        RecordView {
                            username_hash: hash,
                            owner,
                            registered_at: now,
                            core_contract: core,
                        },
                    ),
                    ..s
                },
                auction,
            ),
        ),
{
}

/// Any recorded username can be transferred once an auction contract is
/// configured, and the new owner reads back.
pub proof fn lemma_transfer_succeeds(s: FactoryState, hash: Seq<u8>, new_owner: Seq<u8>)
    requires
        s.auction_contract is Some,
        s.usernames.contains_key(hash),
    ensures
        transfer_username_spec(s, hash, new_owner) is Ok,
        transfer_username_spec(s, hash, new_owner)->Ok_0.0 == (FactoryState {
            usernames: s.usernames.insert(hash, RecordView { owner: new_owner, ..s.usernames[hash] }),
            ..s
        }),
        transfer_username_spec(s, hash, new_owner)->Ok_0.1 == s.auction_contract.unwrap(),
        transfer_username_spec(s, hash, new_owner)->Ok_0.2 == s.usernames[hash].owner,
{
}

/// The role calls succeed whenever the role that signs them is set, and
/// each changes only what it names.
pub proof fn lemma_roles_succeed(s: FactoryState, a: Seq<u8>, b: Seq<u8>, signer: Seq<u8>)
    ensures
        s.owner is None ==> initialize_spec(s, a) is Ok,
        s.owner == Some(signer) ==> set_admin_spec(s, a) == Ok::<_, FactoryError>(
            (FactoryState { admin: Some(a), ..s }, signer),
        ),
        s.admin == Some(signer) ==> set_operator_spec(s, a) == Ok::<_, FactoryError>(
            (FactoryState { operator: Some(a), ..s }, signer),
        ),
        s.operator == Some(signer) ==> configure_spec(s, a, b) == Ok::<_, FactoryError>(
            (FactoryState { auction_contract: Some(a), core_contract: Some(b), ..s }, signer),
        ),
{
}

/// Each refusal of a deployment or transfer names its cause: no auction
/// contract, a username already recorded, no core contract, or (for a
/// transfer) a username without a record.
pub proof fn lemma_factory_refusals(s: FactoryState, hash: Seq<u8>, owner: Seq<u8>, now: u64)
    ensures
        s.auction_contract is None ==> deploy_username_spec(s, hash, owner, now) == Err::<
            (FactoryState, Seq<u8>),
            _,
        >(FactoryError::Unauthorized),
        s.auction_contract is Some && !s.usernames.contains_key(hash) && s.core_contract is None
            ==> deploy_username_spec(s, hash, owner, now) == Err::<(FactoryState, Seq<u8>), _>(
            FactoryError::CoreContractNotConfigured,
        ),
        s.auction_contract is None ==> transfer_username_spec(s, hash, owner) == Err::<
            (FactoryState, Seq<u8>, Seq<u8>),
            _,
        >(FactoryError::Unauthorized),
        s.auction_contract is Some && !s.usernames.contains_key(hash) ==> transfer_username_spec(
            s,
            hash,
            owner,
        ) == Err::<(FactoryState, Seq<u8>, Seq<u8>), _>(FactoryError::NotDeployed),
{
}

} // verus!
