//! Events of the factory contract.

use crate::ids::{Address, Hash32};
use vstd::prelude::*;

verus! {

/// The `USR_DEP` event data: the username, its owner and the time of
/// registration.
#[derive(Debug, PartialEq, Eq)]
pub struct UsernameDeployed {
    pub username_hash: Hash32,
    pub owner: Address,
    pub registered_at: u64,
}

/// The `OWN_TRF` event data: the username, its former and its new owner.
#[derive(Debug, PartialEq, Eq)]
pub struct OwnershipTransferred {
    pub username_hash: Hash32,
    pub old_owner: Address,
    pub new_owner: Address,
}

/// The event that announces a deployed username.
pub fn username_deployed(username_hash: &Hash32, owner: &Address, registered_at: u64) -> (r:
    UsernameDeployed)
    ensures
        r.username_hash == *username_hash,
        r.owner@ == owner@,
        r.registered_at == registered_at,
{
    UsernameDeployed { username_hash: *username_hash, owner: owner.clone(), registered_at }
}

/// The event that announces a change of a username's owner.
pub fn ownership_transferred(
    username_hash: &Hash32,
    old_owner: &Address,
    new_owner: &Address,
) -> (r: OwnershipTransferred)
    ensures
        r.username_hash == *username_hash,
        r.old_owner@ == old_owner@,
        r.new_owner@ == new_owner@,
{
    OwnershipTransferred {
        username_hash: *username_hash,
        old_owner: old_owner.clone(),
        new_owner: new_owner.clone(),
    }
}

} // verus!
