//! Scheduling of payments out of a vault.

use crate::escrow::errors::EscrowError;
use crate::escrow::storage::{
    increment_payment_id, read_vault, write_scheduled_payment, write_vault, EscrowState,
    EscrowStorage,
};
use crate::escrow::types::{PaymentView, ScheduledPayment, VaultView};
use crate::ids::{Address, Hash32};
use vstd::prelude::*;

verus! {

pub struct EscrowContract;

/// The payment that `schedule_payment` records out of vault `v`.
pub open spec fn scheduled(
    from: Seq<u8>,
    to: Seq<u8>,
    v: VaultView,
    amount: i128,
    release_at: u64,
) -> PaymentView {
    PaymentView { from, to, token: v.token, amount, release_at, executed: false }
}

/// The reason for which `schedule_payment` refuses, if it does.
pub open spec fn schedule_check(
    s: EscrowState,
    from: Seq<u8>,
    amount: i128,
    release_at: u64,
    now: u64,
) -> Option<EscrowError> {
    if !s.vaults.contains_key(from) {
        Some(EscrowError::VaultNotFound)
    } else if amount <= 0 {
        Some(EscrowError::InvalidAmount)
    } else if amount > s.vaults[from].balance {
        Some(EscrowError::InsufficientBalance)
    } else if release_at <= now {
        Some(EscrowError::PastReleaseTime)
    } else if s.payment_counter == u32::MAX {
        Some(EscrowError::PaymentCounterOverflow)
    } else {
        None
    }
}

/// `schedule_payment(from, to, amount, release_at)` at time `now`: the new
/// state, the vault owner who authorizes it, and the new payment's id.
pub open spec fn schedule_payment_spec(
    s: EscrowState,
    from: Seq<u8>,
    to: Seq<u8>,
    amount: i128,
    release_at: u64,
    now: u64,
) -> Result<(EscrowState, Seq<u8>, u32), EscrowError> {
    match schedule_check(s, from, amount, release_at, now) {
        Some(e) => Err(e),
        None => {
            let v = s.vaults[from];
            let id = s.payment_counter;
            Ok(
                (
                    EscrowState {
                        vaults: s.vaults.insert(
                            from,
                            VaultView { balance: (v.balance - amount) as i128, ..v },
                        ),
                        payments: s.payments.insert(id, scheduled(from, to, v, amount, release_at)),
                        payment_counter: (id + 1) as u32,
                        ..s
                    },
                    v.owner,
                    id,
                ),
            )
        },
    }
}

impl EscrowContract {
    /// Schedules a payment of `amount` from vault `from` to `to`, released
    /// at `release_at`, which must lie after the ledger time `now`. The
    /// amount leaves the vault's balance at once. Returns the vault owner,
    /// who must authorize the call, and the new payment's id.
    pub fn schedule_payment(
        env: &mut EscrowStorage,
        from: Hash32,
        to: Hash32,
        amount: i128,
        release_at: u64,
        now: u64,
    ) -> (r: Result<(Address, u32), EscrowError>)
        ensures
            match r {
                Ok((signer, id)) => schedule_payment_spec(old(env)@, from@, to@, amount, release_at, now)
                    == Ok::<_, EscrowError>((final(env)@, signer@, id)),
                Err(e) => schedule_payment_spec(old(env)@, from@, to@, amount, release_at, now)
                    == Err::<(EscrowState, Seq<u8>, u32), _>(e) && final(env)@ == old(env)@,
            },
    {
        let mut vault = match read_vault(env, &from) {
            Some(v) => v,
            None => {
                return Err(EscrowError::VaultNotFound);
            },
        };
        if amount <= 0 {
            return Err(EscrowError::InvalidAmount);
        }
        if amount > vault.balance {
            return Err(EscrowError::InsufficientBalance);
        }
        if release_at <= now {
            return Err(EscrowError::PastReleaseTime);
        }
        if env.payment_counter() == u32::MAX {
            return Err(EscrowError::PaymentCounterOverflow);
        }
        vault.balance = vault.balance - amount;
        write_vault(env, &from, &vault);
        let payment_id = match increment_payment_id(env) {
            Ok(id) => id,
            Err(e) => {
                return Err(e);
            },
        };
        let payment = ScheduledPayment {
            from,
            to,
            token: vault.token.clone(),
            amount,
            release_at,
            executed: false,
        };
        write_scheduled_payment(env, payment_id, &payment);
        Ok((vault.owner, payment_id))
    }
}

/// Scheduling reserves the funds: the vault's balance drops by exactly the
/// payment's amount, which is positive and at most the former balance,
/// and the payment is recorded unexecuted, in the vault's token, for a
/// release time after `now`.
pub proof fn lemma_schedule_reserves_funds(
    s: EscrowState,
    from: Seq<u8>,
    to: Seq<u8>,
    amount: i128,
    release_at: u64,
    now: u64,
)
    requires
        schedule_payment_spec(s, from, to, amount, release_at, now) is Ok,
    ensures
        ({
            let (s1, signer, id) = schedule_payment_spec(s, from, to, amount, release_at, now)->Ok_0;
            &&& 0 < amount <= s.vaults[from].balance
            &&& s1.vaults[from].balance + amount == s.vaults[from].balance
            &&& s1.vaults[from].owner == s.vaults[from].owner
            &&& signer == s.vaults[from].owner
            &&& s1.vaults[from].token == s.vaults[from].token
            &&& s1.payments[id].amount == amount
            &&& s1.payments[id].token == s.vaults[from].token
            &&& !s1.payments[id].executed
            &&& s1.payments[id].release_at > now
        }),
{
}

/// Payment ids are unique and incrementing: two payments scheduled one
/// after the other get consecutive ids, and the second leaves the first
/// recorded as it was.
pub proof fn lemma_payment_ids_increment(
    s: EscrowState,
    from1: Seq<u8>,
    to1: Seq<u8>,
    amount1: i128,
    release1: u64,
    now1: u64,
    from2: Seq<u8>,
    to2: Seq<u8>,
    amount2: i128,
    release2: u64,
    now2: u64,
)
    requires
        schedule_payment_spec(s, from1, to1, amount1, release1, now1) is Ok,
        schedule_payment_spec(
            schedule_payment_spec(s, from1, to1, amount1, release1, now1)->Ok_0.0,
            from2,
            to2,
            amount2,
            release2,
            now2,
        ) is Ok,
    ensures
        ({
            let (s1, _a, id1) = schedule_payment_spec(s, from1, to1, amount1, release1, now1)->Ok_0;
            let (s2, _b, id2) = schedule_payment_spec(s1, from2, to2, amount2, release2, now2)->Ok_0;
            &&& id2 == id1 + 1
            &&& s2.payments[id1] == s1.payments[id1]
        }),
{
}

/// The arguments of one `schedule_payment` call.
pub struct ScheduleCall {
    pub from: Seq<u8>,
    pub to: Seq<u8>,
    pub amount: i128,
    pub release_at: u64,
    pub now: u64,
}

/// The state after the `schedule_payment` calls `calls`, made in order; a
/// refused call changes nothing.
pub open spec fn run_schedules(s: EscrowState, calls: Seq<ScheduleCall>) -> EscrowState
    decreases calls.len(),
{
    if calls.len() == 0 {
        s
    } else {
        let s1 = run_schedules(s, calls.drop_last());
        let c = calls.last();
        match schedule_payment_spec(s1, c.from, c.to, c.amount, c.release_at, c.now) {
            Ok((s2, _, _)) => s2,
            Err(_) => s1,
        }
    }
}

/// The sum of the amounts of the payments out of vault `from` recorded
/// under the ids `lo` up to (not including) `hi`.
pub open spec fn reserved(s: EscrowState, from: Seq<u8>, lo: int, hi: int) -> int
    decreases hi - lo,
{
    if hi <= lo {
        0
    } else {
        let id = (hi - 1) as u32;
        reserved(s, from, lo, hi - 1) + if s.payments.contains_key(id) && s.payments[id].from
            == from {
            s.payments[id].amount as int
        } else {
            0
        }
    }
}

/// `reserved` reads only the payments under the ids it sums over.
proof fn lemma_reserved_same_payments(
    a: EscrowState,
    b: EscrowState,
    from: Seq<u8>,
    lo: int,
    hi: int,
)
    requires
        0 <= lo,
        hi <= u32::MAX + 1,
        forall|k: u32|
            lo <= k < hi ==> #[trigger] a.payments.contains_key(k) == b.payments.contains_key(k)
                && (a.payments.contains_key(k) ==> a.payments[k] == b.payments[k]),
    ensures
        reserved(a, from, lo, hi) == reserved(b, from, lo, hi),
    decreases hi - lo,
{
    if hi > lo {
        lemma_reserved_same_payments(a, b, from, lo, hi - 1);
        let k = (hi - 1) as u32;
        assert(a.payments.contains_key(k) == b.payments.contains_key(k));
    }
}

/// Funds are reserved once and never spent twice: over any sequence of
/// `schedule_payment` calls, whichever vaults they draw on and whether they
/// succeed or are refused, a vault whose balance was not negative keeps a
/// balance that is not negative, and its balance plus the amounts of the
/// payments out of it that these calls recorded stays its starting
/// balance. The calls use the ids from the starting counter on.
pub proof fn lemma_reservation_over_calls(s: EscrowState, vault: Seq<u8>, calls: Seq<ScheduleCall>)
    requires
        s.vaults.contains_key(vault),
        s.vaults[vault].balance >= 0,
    ensures
        ({
            let t = run_schedules(s, calls);
            &&& s.payment_counter <= t.payment_counter
            &&& t.vaults.contains_key(vault)
            &&& t.vaults[vault].balance >= 0
            &&& t.vaults[vault].balance + reserved(
                t,
                vault,
                s.payment_counter as int,
                t.payment_counter as int,
            ) == s.vaults[vault].balance
        }),
    decreases calls.len(),
{
    if calls.len() > 0 {
        let prev = calls.drop_last();
        lemma_reservation_over_calls(s, vault, prev);
        let s1 = run_schedules(s, prev);
        let c = calls.last();
        match schedule_payment_spec(s1, c.from, c.to, c.amount, c.release_at, c.now) {
            Ok((s2, _, id)) => {
                assert(id == s1.payment_counter);
                assert(s2.payment_counter == id + 1);
                lemma_reserved_same_payments(
                    s1,
                    s2,
                    vault,
                    s.payment_counter as int,
                    id as int,
                );
                assert(s2.payments.contains_key(id));
                assert(s2.payments[id].amount == c.amount);
                assert(s2.payments[id].from == c.from);
                assert(reserved(s2, vault, s.payment_counter as int, id + 1) == reserved(
                    s2,
                    vault,
                    s.payment_counter as int,
                    id as int,
                ) + if c.from == vault {
                    c.amount as int
                } else {
                    0
                });
            },
            Err(_) => {},
        }
    }
}

/// Scheduling succeeds whenever the vault exists, the amount is positive
/// and at most the vault's balance, the release time lies after `now`
/// (however far) and the payment counter has room; the payment gets the
/// counter's value as id and the vault owner signs.
pub proof fn lemma_schedule_succeeds(
    s: EscrowState,
    from: Seq<u8>,
    to: Seq<u8>,
    amount: i128,
    release_at: u64,
    now: u64,
)
    requires
        s.vaults.contains_key(from),
        0 < amount <= s.vaults[from].balance,
        release_at > now,
        s.payment_counter < u32::MAX,
    ensures
        schedule_payment_spec(s, from, to, amount, release_at, now) is Ok,
        schedule_payment_spec(s, from, to, amount, release_at, now)->Ok_0.1 == s.vaults[from].owner,
        schedule_payment_spec(s, from, to, amount, release_at, now)->Ok_0.2 == s.payment_counter,
        schedule_payment_spec(s, from, to, amount, release_at, now)->Ok_0.0 == (EscrowState {
            vaults: s.vaults.insert(
                from,
                VaultView { balance: (s.vaults[from].balance - amount) as i128, ..s.vaults[from] },
            ),
            payments: s.payments.insert(
                s.payment_counter,
                PaymentView {
                    from,
                    to,
                    token: s.vaults[from].token,
                    amount,
                    release_at,
                    executed: false,
                },
            ),
            payment_counter: (s.payment_counter + 1) as u32,
            ..s
        }),
{
}

/// Each refusal of `schedule_payment` names its cause, checked in this
/// order: a missing vault, an amount that is not positive, an amount above
/// the balance, a release time not after `now`, a full payment counter.
pub proof fn lemma_schedule_refusals(
    s: EscrowState,
    from: Seq<u8>,
    to: Seq<u8>,
    amount: i128,
    release_at: u64,
    now: u64,
)
    ensures
        !s.vaults.contains_key(from) ==> schedule_payment_spec(s, from, to, amount, release_at, now)
            == Err::<(EscrowState, Seq<u8>, u32), _>(EscrowError::VaultNotFound),
        s.vaults.contains_key(from) && amount <= 0 ==> schedule_payment_spec(
            s,
            from,
            to,
            amount,
            release_at,
            now,
        ) == Err::<(EscrowState, Seq<u8>, u32), _>(EscrowError::InvalidAmount),
        s.vaults.contains_key(from) && 0 < amount && amount > s.vaults[from].balance
            ==> schedule_payment_spec(s, from, to, amount, release_at, now) == Err::<
            (EscrowState, Seq<u8>, u32),
            _,
        >(EscrowError::InsufficientBalance),
        s.vaults.contains_key(from) && 0 < amount <= s.vaults[from].balance && release_at <= now
            ==> schedule_payment_spec(s, from, to, amount, release_at, now) == Err::<
            (EscrowState, Seq<u8>, u32),
            _,
        >(EscrowError::PastReleaseTime),
        s.vaults.contains_key(from) && 0 < amount <= s.vaults[from].balance && release_at > now
            && s.payment_counter == u32::MAX ==> schedule_payment_spec(
            s,
            from,
            to,
            amount,
            release_at,
            now,
        ) == Err::<(EscrowState, Seq<u8>, u32), _>(EscrowError::PaymentCounterOverflow),
{
}

} // verus!
