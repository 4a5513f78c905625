//! The storage of the factory contract and its accessors.

use crate::factory::types::{ConfigView, DeployConfig, RecordView, UsernameRecord};
use crate::ids::{copy_opt_address, Address, Hash32};
use crate::store::{opt_view, Store};
use vstd::prelude::*;

verus! {

/// The number of ledgers by which a persistent entry's time to live is
/// extended: about 30 days at 5 seconds per ledger.
pub const PERSISTENT_BUMP_AMOUNT: u32 = 518_400;

/// The time to live, in ledgers, under which a persistent entry is
/// extended: about 7 days.
pub const PERSISTENT_LIFETIME_THRESHOLD: u32 = 120_960;

/// What the factory contract holds in storage.
pub struct FactoryStorage {
    owner: Option<Address>,
    admin: Option<Address>,
    operator: Option<Address>,
    auction_contract: Option<Address>,
    core_contract: Option<Address>,
    usernames: Store<Hash32, UsernameRecord>,
    config: Option<DeployConfig>,
}

/// The view of [`FactoryStorage`].
pub struct FactoryState {
    pub owner: Option<Seq<u8>>,
    pub admin: Option<Seq<u8>>,
    pub operator: Option<Seq<u8>>,
    pub auction_contract: Option<Seq<u8>>,
    pub core_contract: Option<Seq<u8>>,
    pub usernames: Map<Seq<u8>, RecordView>,
    pub config: Option<ConfigView>,
}

impl View for FactoryStorage {
    type V = FactoryState;

    closed spec fn view(&self) -> FactoryState {
        FactoryState {
            owner: opt_view(self.owner),
            admin: opt_view(self.admin),
            operator: opt_view(self.operator),
            auction_contract: opt_view(self.auction_contract),
            core_contract: opt_view(self.core_contract),
            usernames: self.usernames@,
            config: opt_view(self.config),
        }
    }
}

impl FactoryStorage {
    /// Storage with nothing in it.
    pub fn new() -> (r: FactoryStorage)
        ensures
            r@ == (FactoryState {
                owner: None,
                admin: None,
                operator: None,
                auction_contract: None,
                core_contract: None,
                usernames: Map::empty(),
                config: None,
            }),
    {
        FactoryStorage {
            owner: None,
            admin: None,
            operator: None,
            auction_contract: None,
            core_contract: None,
            usernames: Store::new(),
            config: None,
        }
    }
}

/// Sets the auction contract address.
pub fn set_auction_contract(env: &mut FactoryStorage, auction_contract: &Address)
    ensures
        final(env)@ == (FactoryState { auction_contract: Some(auction_contract@), ..old(env)@ }),
{
    env.auction_contract = Some(auction_contract.clone());
}

/// Returns the auction contract address.
pub fn get_auction_contract(env: &FactoryStorage) -> (r: Option<Address>)
    ensures
        opt_view(r) == env@.auction_contract,
{
    copy_opt_address(&env.auction_contract)
}

/// Sets the contract owner.
pub fn set_owner(env: &mut FactoryStorage, owner: &Address)
    ensures
        final(env)@ == (FactoryState { owner: Some(owner@), ..old(env)@ }),
{
    env.owner = Some(owner.clone());
}

/// Returns the contract owner.
pub fn get_owner(env: &FactoryStorage) -> (r: Option<Address>)
    ensures
        opt_view(r) == env@.owner,
{
    copy_opt_address(&env.owner)
}

/// Sets the contract admin.
pub fn set_admin(env: &mut FactoryStorage, admin: &Address)
    ensures
        final(env)@ == (FactoryState { admin: Some(admin@), ..old(env)@ }),
{
    env.admin = Some(admin.clone());
}

/// Returns the contract admin.
pub fn get_admin(env: &FactoryStorage) -> (r: Option<Address>)
    ensures
        opt_view(r) == env@.admin,
{
    copy_opt_address(&env.admin)
}

/// Sets the contract operator.
pub fn set_operator(env: &mut FactoryStorage, operator: &Address)
    ensures
        final(env)@ == (FactoryState { operator: Some(operator@), ..old(env)@ }),
{
    env.operator = Some(operator.clone());
}

/// Returns the contract operator.
pub fn get_operator(env: &FactoryStorage) -> (r: Option<Address>)
    ensures
        opt_view(r) == env@.operator,
{
    copy_opt_address(&env.operator)
}

/// Sets the core contract address.
pub fn set_core_contract(env: &mut FactoryStorage, core_contract: &Address)
    ensures
        final(env)@ == (FactoryState { core_contract: Some(core_contract@), ..old(env)@ }),
{
    env.core_contract = Some(core_contract.clone());
}

/// Returns the core contract address.
pub fn get_core_contract(env: &FactoryStorage) -> (r: Option<Address>)
    ensures
        opt_view(r) == env@.core_contract,
{
    copy_opt_address(&env.core_contract)
}

/// Stores a username record.
pub fn set_username(env: &mut FactoryStorage, hash: &Hash32, record: &UsernameRecord)
    ensures
        final(env)@ == (FactoryState {
            usernames: old(env)@.usernames.insert(hash@, record@),
            ..old(env)@
        }),
{
    env.usernames.set(*hash, record.clone());
}

/// Returns a username record.
pub fn get_username(env: &FactoryStorage, hash: &Hash32) -> (r: Option<UsernameRecord>)
    ensures
        opt_view(r) == (if env@.usernames.contains_key(hash@) {
            Some(env@.usernames[hash@])
        } else {
            None
        }),
{
    env.usernames.get(hash)
}

/// Checks if a username hash is registered.
pub fn has_username(env: &FactoryStorage, hash: &Hash32) -> (r: bool)
    ensures
        r == env@.usernames.contains_key(hash@),
{
    env.usernames.has(hash)
}

/// Returns the deployment configuration.
pub fn get_config(env: &FactoryStorage) -> (r: Option<DeployConfig>)
    ensures
        opt_view(r) == env@.config,
{
    match &env.config {
        Some(c) => Some(c.clone()),
        None => None,
    }
}

/// Sets the deployment configuration.
pub fn set_config(env: &mut FactoryStorage, config: &DeployConfig)
    ensures
        final(env)@ == (FactoryState { config: Some(config@), ..old(env)@ }),
{
    env.config = Some(config.clone());
}

} // verus!
