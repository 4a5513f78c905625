use alien_gateway::auction::contract::{AuctionContract, DeployRequest};
use alien_gateway::auction::errors::AuctionError;
use alien_gateway::auction::storage::{
    get_status, set_factory_contract, set_highest_bidder, set_status, AuctionStorage,
};
use alien_gateway::auction::types::AuctionStatus;
use alien_gateway::ids::{Address, Hash32};

fn addr(tag: u8) -> Address {
    let mut key = b"GD".to_vec();
    key.extend(std::iter::repeat(b'A' + (tag % 26)).take(54));
    Address::from_strkey(key)
}

fn closed_auction(bidder: &Address, factory: Option<&Address>, status: AuctionStatus) -> AuctionStorage {
    let mut env = AuctionStorage::new(status);
    if let Some(f) = factory {
        set_factory_contract(&mut env, f);
    }
    set_highest_bidder(&mut env, bidder);
    set_status(&mut env, status);
    env
}

#[test]
fn test_claim_username_success() {
    let factory_id = addr(1);
    let claimer = addr(2);
    let username_hash = Hash32::from_array([0; 32]);
    let mut env = closed_auction(&claimer, Some(&factory_id), AuctionStatus::Closed);
    let req = AuctionContract::claim_username(&mut env, username_hash, claimer.clone()).unwrap();
    assert_eq!(req, DeployRequest { factory: factory_id, username_hash, owner: claimer });
    assert_eq!(get_status(&env), AuctionStatus::Claimed);
}

#[test]
fn test_not_winner() {
    let factory_id = addr(1);
    let winner = addr(2);
    let not_winner = addr(3);
    let username_hash = Hash32::from_array([0; 32]);
    let mut env = closed_auction(&winner, Some(&factory_id), AuctionStatus::Closed);
    let r = AuctionContract::claim_username(&mut env, username_hash, not_winner);
    assert_eq!(r, Err(AuctionError::NotWinner));
    assert_eq!(AuctionError::NotWinner.code(), 1001);
    assert_eq!(get_status(&env), AuctionStatus::Closed);
}

#[test]
fn test_already_claimed() {
    let factory_id = addr(1);
    let claimer = addr(2);
    let username_hash = Hash32::from_array([0; 32]);
    let mut env = closed_auction(&claimer, Some(&factory_id), AuctionStatus::Claimed);
    let r = AuctionContract::claim_username(&mut env, username_hash, claimer);
    assert_eq!(r, Err(AuctionError::AlreadyClaimed));
    assert_eq!(AuctionError::AlreadyClaimed.code(), 1002);
}

#[test]
fn test_not_closed() {
    let factory_id = addr(1);
    let claimer = addr(2);
    let username_hash = Hash32::from_array([0; 32]);
    let mut env = closed_auction(&claimer, Some(&factory_id), AuctionStatus::Open);
    let r = AuctionContract::claim_username(&mut env, username_hash, claimer);
    assert_eq!(r, Err(AuctionError::NotClosed));
    assert_eq!(AuctionError::NotClosed.code(), 1003);
}

#[test]
fn test_no_factory_contract() {
    let claimer = addr(2);
    let username_hash = Hash32::from_array([0; 32]);
    let mut env = closed_auction(&claimer, None, AuctionStatus::Closed);
    let r = AuctionContract::claim_username(&mut env, username_hash, claimer);
    assert_eq!(r, Err(AuctionError::NoFactoryContract));
    assert_eq!(AuctionError::NoFactoryContract.code(), 1004);
    assert_eq!(get_status(&env), AuctionStatus::Closed);
}

#[test]
fn claim_twice_is_refused() {
    let claimer = addr(2);
    let username_hash = Hash32::from_array([5; 32]);
    let mut env = closed_auction(&claimer, Some(&addr(1)), AuctionStatus::Closed);
    AuctionContract::claim_username(&mut env, username_hash, claimer.clone()).unwrap();
    assert_eq!(
        AuctionContract::claim_username(&mut env, username_hash, claimer),
        Err(AuctionError::AlreadyClaimed)
    );
}

#[test]
fn claim_without_bidder_is_refused() {
    let mut env = AuctionStorage::new(AuctionStatus::Closed);
    set_factory_contract(&mut env, &addr(1));
    assert_eq!(
        AuctionContract::claim_username(&mut env, Hash32::from_array([1; 32]), addr(2)),
        Err(AuctionError::NotWinner)
    );
}
