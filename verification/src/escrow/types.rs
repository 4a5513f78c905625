//! Vaults and scheduled payments.

use crate::ids::{Address, Hash32};
use crate::store::StoreValue;
use vstd::prelude::*;

verus! {

/// A vault: its owner, the token it holds and its free balance.
#[derive(Debug, PartialEq, Eq)]
pub struct VaultState {
    pub owner: Address,
    pub token: Address,
    pub balance: i128,
}

/// The view of a [`VaultState`].
pub struct VaultView {
    pub owner: Seq<u8>,
    pub token: Seq<u8>,
    pub balance: i128,
}

impl View for VaultState {
    type V = VaultView;

    open spec fn view(&self) -> VaultView {
        VaultView { owner: self.owner@, token: self.token@, balance: self.balance }
    }
}

impl Clone for VaultState {
    fn clone(&self) -> (r: Self)
        ensures
            r@ == self@,
    {
        VaultState { owner: self.owner.clone(), token: self.token.clone(), balance: self.balance }
    }
}

impl StoreValue for VaultState {
    fn copy_value(&self) -> (r: Self) {
        self.clone()
    }
}

/// A payment of `amount` of `token` from vault `from` to `to`, to be
/// released at or after `release_at`.
#[derive(Debug, PartialEq, Eq)]
pub struct ScheduledPayment {
    pub from: Hash32,
    pub to: Hash32,
    pub token: Address,
    pub amount: i128,
    pub release_at: u64,
    pub executed: bool,
}

/// The view of a [`ScheduledPayment`].
pub struct PaymentView {
    pub from: Seq<u8>,
    pub to: Seq<u8>,
    pub token: Seq<u8>,
    pub amount: i128,
    pub release_at: u64,
    pub executed: bool,
}

impl View for ScheduledPayment {
    type V = PaymentView;

    open spec fn view(&self) -> PaymentView {
        PaymentView {
            from: self.from@,
            to: self.to@,
            token: self.token@,
            amount: self.amount,
            release_at: self.release_at,
            executed: self.executed,
        }
    }
}

impl Clone for ScheduledPayment {
    fn clone(&self) -> (r: Self)
        ensures
            r@ == self@,
    {
        ScheduledPayment {
            from: self.from,
            to: self.to,
            token: self.token.clone(),
            amount: self.amount,
            release_at: self.release_at,
            executed: self.executed,
        }
    }
}

impl StoreValue for ScheduledPayment {
    fn copy_value(&self) -> (r: Self) {
        self.clone()
    }
}

} // verus!
