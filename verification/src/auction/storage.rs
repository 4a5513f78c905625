//! The storage of the auction contract and its accessors.

use crate::auction::types::AuctionStatus;
use crate::ids::{copy_opt_address, Address};
use crate::store::opt_view;
use vstd::prelude::*;

verus! {

/// What the claim step reads and writes: the auction's status, its highest
/// bidder and the factory contract.
pub struct AuctionStorage {
    status: AuctionStatus,
    highest_bidder: Option<Address>,
    factory_contract: Option<Address>,
}

/// The view of [`AuctionStorage`].
pub struct AuctionState {
    pub status: AuctionStatus,
    pub highest_bidder: Option<Seq<u8>>,
    pub factory_contract: Option<Seq<u8>>,
}

impl View for AuctionStorage {
    type V = AuctionState;

    closed spec fn view(&self) -> AuctionState {
        AuctionState {
            status: self.status,
            highest_bidder: opt_view(self.highest_bidder),
            factory_contract: opt_view(self.factory_contract),
        }
    }
}

impl AuctionStorage {
    /// An auction in `status`, with no bidder and no factory.
    pub fn new(status: AuctionStatus) -> (r: AuctionStorage)
        ensures
            r@ == (AuctionState { status, highest_bidder: None, factory_contract: None }),
    {
        AuctionStorage { status, highest_bidder: None, factory_contract: None }
    }
}

/// The auction's status.
pub fn get_status(env: &AuctionStorage) -> (r: AuctionStatus)
    ensures
        r == env@.status,
{
    env.status
}

/// Sets the auction's status.
pub fn set_status(env: &mut AuctionStorage, status: AuctionStatus)
    ensures
        final(env)@ == (AuctionState { status, ..old(env)@ }),
{
    env.status = status;
}

/// The highest bidder, if any.
pub fn get_highest_bidder(env: &AuctionStorage) -> (r: Option<Address>)
    ensures
        opt_view(r) == env@.highest_bidder,
{
    copy_opt_address(&env.highest_bidder)
}

/// Sets the highest bidder.
pub fn set_highest_bidder(env: &mut AuctionStorage, bidder: &Address)
    ensures
        final(env)@ == (AuctionState { highest_bidder: Some(bidder@), ..old(env)@ }),
{
    env.highest_bidder = Some(bidder.clone());
}

/// The factory contract, if configured.
pub fn get_factory_contract(env: &AuctionStorage) -> (r: Option<Address>)
    ensures
        opt_view(r) == env@.factory_contract,
{
    copy_opt_address(&env.factory_contract)
}

/// Sets the factory contract.
pub fn set_factory_contract(env: &mut AuctionStorage, factory: &Address)
    ensures
        final(env)@ == (AuctionState { factory_contract: Some(factory@), ..old(env)@ }),
{
    env.factory_contract = Some(factory.clone());
}

} // verus!
