//! The storage of the core identity contract and its primitive accessors.

use crate::ids::{copy_opt_address, Address, Hash32};
use crate::store::{opt_view, Store};
use vstd::prelude::*;

verus! {

/// The number of ledgers by which the time to live of a registration is
/// extended: about 30 days at 5 seconds per ledger.
pub const PERSISTENT_BUMP_AMOUNT: u32 = 518_400;

/// The time to live, in ledgers, under which a registration's lifetime is
/// extended: about 7 days.
pub const PERSISTENT_LIFETIME_THRESHOLD: u32 = 120_960;

/// What the core identity contract holds in storage: the roles, the SMT
/// root, the commitment owners and their registration times, and the
/// address manager's entries. Stellar addresses are held as the bytes of
/// their text.
pub struct CoreStorage {
    owner: Option<Address>,
    admin: Option<Address>,
    operator: Option<Address>,
    smt_root: Option<Hash32>,
    commitments: Store<Hash32, Address>,
    created_at: Store<Hash32, u64>,
    manager_owner: Option<Address>,
    master: Option<Vec<u8>>,
    stellar_addresses: Store<Hash32, Vec<u8>>,
    registered: Store<Address, bool>,
}

/// The view of [`CoreStorage`]: addresses and hashes by their bytes.
pub struct CoreState {
    pub owner: Option<Seq<u8>>,
    pub admin: Option<Seq<u8>>,
    pub operator: Option<Seq<u8>>,
    pub smt_root: Option<Seq<u8>>,
    pub commitments: Map<Seq<u8>, Seq<u8>>,
    pub created_at: Map<Seq<u8>, u64>,
    pub manager_owner: Option<Seq<u8>>,
    pub master: Option<Seq<u8>>,
    pub stellar_addresses: Map<Seq<u8>, Seq<u8>>,
    pub registered: Map<Seq<u8>, bool>,
}

impl View for CoreStorage {
    type V = CoreState;

    closed spec fn view(&self) -> CoreState {
        CoreState {
            owner: opt_view(self.owner),
            admin: opt_view(self.admin),
            operator: opt_view(self.operator),
            smt_root: opt_view(self.smt_root),
            commitments: self.commitments@,
            created_at: self.created_at@,
            manager_owner: opt_view(self.manager_owner),
            master: opt_view(self.master),
            stellar_addresses: self.stellar_addresses@,
            registered: self.registered@,
        }
    }
}

/// The state of a fresh contract: nothing stored.
pub open spec fn empty_core_state() -> CoreState {
    CoreState {
        owner: None,
        admin: None,
        operator: None,
        smt_root: None,
        commitments: Map::empty(),
        created_at: Map::empty(),
        manager_owner: None,
        master: None,
        stellar_addresses: Map::empty(),
        registered: Map::empty(),
    }
}

impl CoreStorage {
    /// Storage with nothing in it.
    pub fn new() -> (r: CoreStorage)
        ensures
            r@ == empty_core_state(),
    {
        CoreStorage {
            owner: None,
            admin: None,
            operator: None,
            smt_root: None,
            commitments: Store::new(),
            created_at: Store::new(),
            manager_owner: None,
            master: None,
            stellar_addresses: Store::new(),
            registered: Store::new(),
        }
    }
}

/// Whether the contract has an owner.
pub fn is_initialized(env: &CoreStorage) -> (r: bool)
    ensures
        r == (env@.owner is Some),
{
    env.owner.is_some()
}

/// Stores the contract owner.
pub fn set_owner(env: &mut CoreStorage, owner: &Address)
    ensures
        final(env)@ == (CoreState { owner: Some(owner@), ..old(env)@ }),
{
    env.owner = Some(owner.clone());
}

/// The contract owner.
pub fn get_owner(env: &CoreStorage) -> (r: Option<Address>)
    ensures
        opt_view(r) == env@.owner,
{
    copy_opt_address(&env.owner)
}

/// Stores the admin.
pub fn set_admin(env: &mut CoreStorage, admin: &Address)
    ensures
        final(env)@ == (CoreState { admin: Some(admin@), ..old(env)@ }),
{
    env.admin = Some(admin.clone());
}

/// The admin.
pub fn get_admin(env: &CoreStorage) -> (r: Option<Address>)
    ensures
        opt_view(r) == env@.admin,
{
    copy_opt_address(&env.admin)
}

/// Stores the operator.
pub fn set_operator(env: &mut CoreStorage, operator: &Address)
    ensures
        final(env)@ == (CoreState { operator: Some(operator@), ..old(env)@ }),
{
    env.operator = Some(operator.clone());
}

/// The operator.
pub fn get_operator(env: &CoreStorage) -> (r: Option<Address>)
    ensures
        opt_view(r) == env@.operator,
{
    copy_opt_address(&env.operator)
}

/// Stores the SMT root.
pub fn set_smt_root(env: &mut CoreStorage, root: &Hash32)
    ensures
        final(env)@ == (CoreState { smt_root: Some(root@), ..old(env)@ }),
{
    env.smt_root = Some(*root);
}

/// The stored SMT root.
pub fn get_smt_root(env: &CoreStorage) -> (r: Option<Hash32>)
    ensures
        opt_view(r) == env@.smt_root,
{
    env.smt_root
}

/// Stores the owner of a commitment.
pub fn set_commitment_owner(env: &mut CoreStorage, commitment: &Hash32, owner: &Address)
    ensures
        final(env)@ == (CoreState {
            commitments: old(env)@.commitments.insert(commitment@, owner@),
            ..old(env)@
        }),
{
    env.commitments.set(*commitment, owner.clone());
}

/// The owner of a commitment.
pub fn get_commitment_owner(env: &CoreStorage, commitment: &Hash32) -> (r: Option<Address>)
    ensures
        opt_view(r) == (if env@.commitments.contains_key(commitment@) {
            Some(env@.commitments[commitment@])
        } else {
            None
        }),
{
    env.commitments.get(commitment)
}

/// Whether a commitment has an owner.
pub fn has_commitment(env: &CoreStorage, commitment: &Hash32) -> (r: bool)
    ensures
        r == env@.commitments.contains_key(commitment@),
{
    env.commitments.has(commitment)
}

/// Stores the time at which a commitment was registered.
pub fn set_created_at(env: &mut CoreStorage, commitment: &Hash32, timestamp: u64)
    ensures
        final(env)@ == (CoreState {
            created_at: old(env)@.created_at.insert(commitment@, timestamp),
            ..old(env)@
        }),
{
    env.created_at.set(*commitment, timestamp);
}

/// The time at which a commitment was registered.
pub fn get_created_at(env: &CoreStorage, commitment: &Hash32) -> (r: Option<u64>)
    ensures
        r == (if env@.created_at.contains_key(commitment@) {
            Some(env@.created_at[commitment@])
        } else {
            None
        }),
{
    env.created_at.get(commitment)
}

/// Stores the address manager's owner.
pub fn set_manager_owner(env: &mut CoreStorage, owner: &Address)
    ensures
        final(env)@ == (CoreState { manager_owner: Some(owner@), ..old(env)@ }),
{
    env.manager_owner = Some(owner.clone());
}

/// The address manager's owner.
pub fn get_manager_owner(env: &CoreStorage) -> (r: Option<Address>)
    ensures
        opt_view(r) == env@.manager_owner,
{
    copy_opt_address(&env.manager_owner)
}

/// Stores the master Stellar address.
pub fn set_master(env: &mut CoreStorage, stellar_address: &Vec<u8>)
    ensures
        final(env)@ == (CoreState { master: Some(stellar_address@), ..old(env)@ }),
{
    env.master = Some(stellar_address.clone());
}

/// The master Stellar address.
pub fn get_master(env: &CoreStorage) -> (r: Option<Vec<u8>>)
    ensures
        opt_view(r) == env@.master,
{
    match &env.master {
        Some(s) => Some(s.clone()),
        None => None,
    }
}

/// Stores the Stellar address of a commitment.
pub fn set_stellar_address(env: &mut CoreStorage, commitment: &Hash32, stellar_address: &Vec<u8>)
    ensures
        final(env)@ == (CoreState {
            stellar_addresses: old(env)@.stellar_addresses.insert(commitment@, stellar_address@),
            ..old(env)@
        }),
{
    env.stellar_addresses.set(*commitment, stellar_address.clone());
}

/// The Stellar address of a commitment.
pub fn get_stellar_address(env: &CoreStorage, commitment: &Hash32) -> (r: Option<Vec<u8>>)
    ensures
        opt_view(r) == (if env@.stellar_addresses.contains_key(commitment@) {
            Some(env@.stellar_addresses[commitment@])
        } else {
            None
        }),
{
    env.stellar_addresses.get(commitment)
}

/// Whether a Stellar address is stored for a commitment.
pub fn has_stellar_address(env: &CoreStorage, commitment: &Hash32) -> (r: bool)
    ensures
        r == env@.stellar_addresses.contains_key(commitment@),
{
    env.stellar_addresses.has(commitment)
}

/// Marks an address as registered with the address manager.
pub fn set_registered(env: &mut CoreStorage, address: &Address)
    ensures
        final(env)@ == (CoreState {
            registered: old(env)@.registered.insert(address@, true),
            ..old(env)@
        }),
{
    env.registered.set(address.clone(), true);
}

/// Whether an address has an entry in the address manager's registry.
pub fn has_registered(env: &CoreStorage, address: &Address) -> (r: bool)
    ensures
        r == env@.registered.contains_key(address@),
{
    env.registered.has(address)
}

} // verus!
