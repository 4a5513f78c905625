//! Errors of the auction contract.

use vstd::prelude::*;

verus! {

/// Errors with which the auction contract rejects a claim.
#[derive(Clone, Copy, Debug, PartialEq, Eq)]
pub enum AuctionError {
    /// The claimer is not the highest bidder.
    NotWinner,
    /// The username has already been claimed.
    AlreadyClaimed,
    /// The auction is not closed.
    NotClosed,
    /// No factory contract is configured.
    NoFactoryContract,
}

impl AuctionError {
    /// The contract error code.
    pub fn code(&self) -> (r: u32)
        ensures
            r == match *self {
                AuctionError::NotWinner => 1001u32,
                AuctionError::AlreadyClaimed => 1002u32,
                AuctionError::NotClosed => 1003u32,
                AuctionError::NoFactoryContract => 1004u32,
            },
    {
        match self {
            AuctionError::NotWinner => 1001,
            AuctionError::AlreadyClaimed => 1002,
            AuctionError::NotClosed => 1003,
            AuctionError::NoFactoryContract => 1004,
        }
    }
}

} // verus!
