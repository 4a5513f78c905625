use alien_gateway::escrow::contract::EscrowContract;
use alien_gateway::escrow::errors::EscrowError;
use alien_gateway::escrow::events::{EscrowEvents, SchedPayEvent};
use alien_gateway::escrow::storage::{
    increment_auto_pay_id, increment_payment_id, read_scheduled_payment, read_vault, write_vault,
    EscrowStorage,
};
use alien_gateway::escrow::types::{ScheduledPayment, VaultState};
use alien_gateway::ids::{Address, Hash32};

fn addr(tag: u8) -> Address {
    let mut key = b"GB".to_vec();
    key.extend(std::iter::repeat(b'A' + (tag % 26)).take(54));
    Address::from_strkey(key)
}

fn hash(byte: u8) -> Hash32 {
    Hash32::from_array([byte; 32])
}

fn with_vault(balance: i128) -> EscrowStorage {
    let mut env = EscrowStorage::new();
    let vault = VaultState { owner: addr(1), token: addr(2), balance };
    write_vault(&mut env, &hash(1), &vault);
    env
}

#[test]
fn schedule_payment_reserves_and_records() {
    let mut env = with_vault(1000);
    let (signer, id) = EscrowContract::schedule_payment(&mut env, hash(1), hash(2), 300, 500, 100).unwrap();
    assert_eq!(signer, addr(1));
    assert_eq!(id, 0);
    assert_eq!(read_vault(&env, &hash(1)).unwrap().balance, 700);
    assert_eq!(
        read_scheduled_payment(&env, 0),
        Some(ScheduledPayment {
            from: hash(1),
            to: hash(2),
            token: addr(2),
            amount: 300,
            release_at: 500,
            executed: false,
        })
    );
    assert_eq!(env.payment_counter(), 1);
}

#[test]
fn payment_ids_increment() {
    let mut env = with_vault(1000);
    let (_, id0) = EscrowContract::schedule_payment(&mut env, hash(1), hash(2), 100, 500, 100).unwrap();
    let (_, id1) = EscrowContract::schedule_payment(&mut env, hash(1), hash(3), 200, 600, 100).unwrap();
    assert_eq!((id0, id1), (0, 1));
    assert_eq!(read_vault(&env, &hash(1)).unwrap().balance, 700);
    assert_eq!(read_scheduled_payment(&env, 0).unwrap().amount, 100);
    assert_eq!(read_scheduled_payment(&env, 1).unwrap().to, hash(3));
}

#[test]
fn whole_balance_can_be_scheduled() {
    let mut env = with_vault(250);
    EscrowContract::schedule_payment(&mut env, hash(1), hash(2), 250, 101, 100).unwrap();
    assert_eq!(read_vault(&env, &hash(1)).unwrap().balance, 0);
}

#[test]
fn schedule_payment_errors() {
    let mut env = with_vault(1000);
    assert_eq!(
        EscrowContract::schedule_payment(&mut env, hash(9), hash(2), 100, 500, 100),
        Err(EscrowError::VaultNotFound)
    );
    assert_eq!(
        EscrowContract::schedule_payment(&mut env, hash(1), hash(2), 0, 500, 100),
        Err(EscrowError::InvalidAmount)
    );
    assert_eq!(
        EscrowContract::schedule_payment(&mut env, hash(1), hash(2), -5, 500, 100),
        Err(EscrowError::InvalidAmount)
    );
    assert_eq!(
        EscrowContract::schedule_payment(&mut env, hash(1), hash(2), 1001, 500, 100),
        Err(EscrowError::InsufficientBalance)
    );
    assert_eq!(
        EscrowContract::schedule_payment(&mut env, hash(1), hash(2), 100, 100, 100),
        Err(EscrowError::PastReleaseTime)
    );
    env.set_payment_counter(u32::MAX);
    assert_eq!(
        EscrowContract::schedule_payment(&mut env, hash(1), hash(2), 100, 500, 100),
        Err(EscrowError::PaymentCounterOverflow)
    );
    assert_eq!(read_vault(&env, &hash(1)).unwrap().balance, 1000);
    assert_eq!(read_scheduled_payment(&env, u32::MAX), None);
}

#[test]
fn counters_increment_and_stop_at_max() {
    let mut env = EscrowStorage::new();
    assert_eq!(increment_payment_id(&mut env), Ok(0));
    assert_eq!(increment_payment_id(&mut env), Ok(1));
    assert_eq!(env.payment_counter(), 2);
    assert_eq!(increment_auto_pay_id(&mut env), Ok(0));
    assert_eq!(env.auto_pay_counter(), 1);
    env.set_payment_counter(u32::MAX);
    assert_eq!(increment_payment_id(&mut env), Err(EscrowError::PaymentCounterOverflow));
    assert_eq!(env.payment_counter(), u32::MAX);
    env.set_auto_pay_counter(u32::MAX);
    assert_eq!(increment_auto_pay_id(&mut env), Err(EscrowError::AutoPayCounterOverflow));
    assert_eq!(env.auto_pay_counter(), u32::MAX);
    env.set_payment_counter(u32::MAX - 1);
    assert_eq!(increment_payment_id(&mut env), Ok(u32::MAX - 1));
}

#[test]
fn escrow_error_codes() {
    assert_eq!(EscrowError::InsufficientBalance.code(), 1);
    assert_eq!(EscrowError::PastReleaseTime.code(), 2);
    assert_eq!(EscrowError::Unauthorized.code(), 3);
    assert_eq!(EscrowError::InvalidAmount.code(), 4);
    assert_eq!(EscrowError::VaultNotFound.code(), 5);
    assert_eq!(EscrowError::PaymentCounterOverflow.code(), 6);
    assert_eq!(EscrowError::AutoPayCounterOverflow.code(), 7);
}

#[test]
fn sched_pay_event_carries_the_payment() {
    let ev = EscrowEvents::sched_pay(4, hash(1), hash(2), 300, 500);
    assert_eq!(
        ev,
        SchedPayEvent { payment_id: 4, from: hash(1), to: hash(2), amount: 300, release_at: 500 }
    );
}

#[test]
fn reservation_holds_over_many_calls() {
    let mut env = with_vault(1000);
    let other = VaultState { owner: addr(3), token: addr(2), balance: 50 };
    write_vault(&mut env, &hash(5), &other);
    let calls: [(u8, i128, u64); 6] = [(1, 300, 500), (1, 800, 500), (5, 20, 500), (1, 0, 500), (1, 700, 500), (1, 1, 500)];
    let mut ids = Vec::new();
    for (from, amount, release_at) in calls {
        if let Ok((_, id)) = EscrowContract::schedule_payment(&mut env, hash(from), hash(9), amount, release_at, 100) {
            ids.push(id);
        }
    }
    assert_eq!(ids, vec![0, 1, 2]);
    let reserved: i128 = ids
        .iter()
        .map(|id| read_scheduled_payment(&env, *id).unwrap())
        .filter(|p| p.from == hash(1))
        .map(|p| p.amount)
        .sum();
    let balance = read_vault(&env, &hash(1)).unwrap().balance;
    assert_eq!(balance, 0);
    assert_eq!(balance + reserved, 1000);
    assert_eq!(read_vault(&env, &hash(5)).unwrap().balance, 30);
}
