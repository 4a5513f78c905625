//! The storage of the escrow contract and its accessors.

use crate::escrow::errors::EscrowError;
use crate::escrow::types::{PaymentView, ScheduledPayment, VaultState, VaultView};
use crate::ids::Hash32;
use crate::store::{opt_view, Store};
use vstd::prelude::*;

verus! {

/// What the escrow contract holds in storage.
pub struct EscrowStorage {
    vaults: Store<Hash32, VaultState>,
    payments: Store<u32, ScheduledPayment>,
    payment_counter: u32,
    auto_pay_counter: u32,
}

/// The view of [`EscrowStorage`]; an unset counter reads as 0.
pub struct EscrowState {
    pub vaults: Map<Seq<u8>, VaultView>,
    pub payments: Map<u32, PaymentView>,
    pub payment_counter: u32,
    pub auto_pay_counter: u32,
}

impl View for EscrowStorage {
    type V = EscrowState;

    closed spec fn view(&self) -> EscrowState {
        EscrowState {
            vaults: self.vaults@,
            payments: self.payments@,
            payment_counter: self.payment_counter,
            auto_pay_counter: self.auto_pay_counter,
        }
    }
}

impl EscrowStorage {
    /// Storage with nothing in it.
    pub fn new() -> (r: EscrowStorage)
        ensures
            r@ == (EscrowState {
                vaults: Map::empty(),
                payments: Map::empty(),
                payment_counter: 0,
                auto_pay_counter: 0,
            }),
    {
        EscrowStorage {
            vaults: Store::new(),
            payments: Store::new(),
            payment_counter: 0,
            auto_pay_counter: 0,
        }
    }

    /// The value of the payment counter.
    pub fn payment_counter(&self) -> (r: u32)
        ensures
            r == self@.payment_counter,
    {
        self.payment_counter
    }

    /// Sets the payment counter.
    pub fn set_payment_counter(&mut self, value: u32)
        ensures
            final(self)@ == (EscrowState { payment_counter: value, ..old(self)@ }),
    {
        self.payment_counter = value;
    }

    /// The value of the auto-pay counter.
    pub fn auto_pay_counter(&self) -> (r: u32)
        ensures
            r == self@.auto_pay_counter,
    {
        self.auto_pay_counter
    }

    /// Sets the auto-pay counter.
    pub fn set_auto_pay_counter(&mut self, value: u32)
        ensures
            final(self)@ == (EscrowState { auto_pay_counter: value, ..old(self)@ }),
    {
        self.auto_pay_counter = value;
    }
}

/// Reads a vault.
pub fn read_vault(env: &EscrowStorage, from: &Hash32) -> (r: Option<VaultState>)
    ensures
        opt_view(r) == (if env@.vaults.contains_key(from@) {
            Some(env@.vaults[from@])
        } else {
            None
        }),
{
    env.vaults.get(from)
}

/// Writes a vault.
pub fn write_vault(env: &mut EscrowStorage, from: &Hash32, vault: &VaultState)
    ensures
        final(env)@ == (EscrowState {
            vaults: old(env)@.vaults.insert(from@, vault@),
            ..old(env)@
        }),
{
    env.vaults.set(*from, vault.clone());
}

/// Increments the payment counter and returns its previous value; fails
/// when the counter is at `u32::MAX`.
pub fn increment_payment_id(env: &mut EscrowStorage) -> (r: Result<u32, EscrowError>)
    ensures
        match r {
            Ok(id) => {
                &&& id == old(env)@.payment_counter
                &&& id < u32::MAX
                &&& final(env)@ == (EscrowState { payment_counter: (id + 1) as u32, ..old(env)@ })
            },
            Err(e) => {
                &&& e == EscrowError::PaymentCounterOverflow
                &&& old(env)@.payment_counter == u32::MAX
                &&& final(env)@ == old(env)@
            },
        },
{
    let id = env.payment_counter;
    let next = match id.checked_add(1) {
        Some(n) => n,
        None => {
            return Err(EscrowError::PaymentCounterOverflow);
        },
    };
    env.payment_counter = next;
    Ok(id)
}

/// Records a scheduled payment under `id`.
pub fn write_scheduled_payment(env: &mut EscrowStorage, id: u32, payment: &ScheduledPayment)
    ensures
        final(env)@ == (EscrowState {
            payments: old(env)@.payments.insert(id, payment@),
            ..old(env)@
        }),
{
    env.payments.set(id, payment.clone());
}

/// Reads the scheduled payment recorded under `id`.
pub fn read_scheduled_payment(env: &EscrowStorage, id: u32) -> (r: Option<ScheduledPayment>)
    ensures
        opt_view(r) == (if env@.payments.contains_key(id) {
            Some(env@.payments[id])
        } else {
            None
        }),
{
    env.payments.get(&id)
}

/// Increments the auto-pay counter and returns its previous value; fails
/// when the counter is at `u32::MAX`.
pub fn increment_auto_pay_id(env: &mut EscrowStorage) -> (r: Result<u32, EscrowError>)
    ensures
        match r {
            Ok(id) => {
                &&& id == old(env)@.auto_pay_counter
                &&& id < u32::MAX
                &&& final(env)@ == (EscrowState { auto_pay_counter: (id + 1) as u32, ..old(env)@ })
            },
            Err(e) => {
                &&& e == EscrowError::AutoPayCounterOverflow
                &&& old(env)@.auto_pay_counter == u32::MAX
                &&& final(env)@ == old(env)@
            },
        },
{
    let id = env.auto_pay_counter;
    let next = match id.checked_add(1) {
        Some(n) => n,
        None => {
            return Err(EscrowError::AutoPayCounterOverflow);
        },
    };
    env.auto_pay_counter = next;
    Ok(id)
}

} // verus!
