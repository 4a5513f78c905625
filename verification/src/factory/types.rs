//! Records of the factory contract.

use crate::ids::{Address, Hash32};
use crate::store::StoreValue;
use vstd::prelude::*;

verus! {

/// A record representing a deployed username.
#[derive(Debug, PartialEq, Eq)]
pub struct UsernameRecord {
    /// Hash of the username.
    pub username_hash: Hash32,
    /// Address of the username owner.
    pub owner: Address,
    /// Ledger timestamp when the username was registered.
    pub registered_at: u64,
    /// Address of the core resolver contract.
    pub core_contract: Address,
}

/// The view of a [`UsernameRecord`].
pub struct RecordView {
    pub username_hash: Seq<u8>,
    pub owner: Seq<u8>,
    pub registered_at: u64,
    pub core_contract: Seq<u8>,
}

impl View for UsernameRecord {
    type V = RecordView;

    open spec fn view(&self) -> RecordView {
        RecordView {
            username_hash: self.username_hash@,
            owner: self.owner@,
            registered_at: self.registered_at,
            core_contract: self.core_contract@,
        }
    }
}

impl Clone for UsernameRecord {
    fn clone(&self) -> (r: Self)
        ensures
            r@ == self@,
    {
        UsernameRecord {
            username_hash: self.username_hash,
            owner: self.owner.clone(),
            registered_at: self.registered_at,
            core_contract: self.core_contract.clone(),
        }
    }
}

impl StoreValue for UsernameRecord {
    fn copy_value(&self) -> (r: Self) {
        self.clone()
    }
}

/// Deployment configuration for the factory.
#[derive(Debug, PartialEq, Eq)]
pub struct DeployConfig {
    /// WASM hash of the core contract.
    pub core_contract_wasm_hash: Hash32,
    /// Admin address for the deployment.
    pub admin: Address,
}

/// The view of a [`DeployConfig`].
pub struct ConfigView {
    pub core_contract_wasm_hash: Seq<u8>,
    pub admin: Seq<u8>,
}

impl View for DeployConfig {
    type V = ConfigView;

    open spec fn view(&self) -> ConfigView {
        ConfigView { core_contract_wasm_hash: self.core_contract_wasm_hash@, admin: self.admin@ }
    }
}

impl Clone for DeployConfig {
    fn clone(&self) -> (r: Self)
        ensures
            r@ == self@,
    {
        DeployConfig {
            core_contract_wasm_hash: self.core_contract_wasm_hash,
            admin: self.admin.clone(),
        }
    }
}

} // verus!
