//! Events of the escrow contract.

use crate::ids::Hash32;
use vstd::prelude::*;

verus! {

pub struct EscrowEvents;

/// The `SCHED_PAY` event: its topic carries the payment id, its data the
/// two parties, the amount and the release time.
#[derive(Clone, Copy, Debug, PartialEq, Eq)]
pub struct SchedPayEvent {
    pub payment_id: u32,
    pub from: Hash32,
    pub to: Hash32,
    pub amount: i128,
    pub release_at: u64,
}

impl EscrowEvents {
    /// The event that announces a scheduled payment.
    pub fn sched_pay(
        payment_id: u32,
        from: Hash32,
        to: Hash32,
        amount: i128,
        release_at: u64,
    ) -> (r: SchedPayEvent)
        ensures
            r == (SchedPayEvent { payment_id, from, to, amount, release_at }),
    {
        SchedPayEvent { payment_id, from, to, amount, release_at }
    }
}

} // verus!
