//! The state of an auction.

use vstd::prelude::*;

verus! {

/// Where an auction stands.
#[derive(Clone, Copy, Debug, PartialEq, Eq, Structural)]
pub enum AuctionStatus {
    Open,
    Closed,
    Claimed,
}

} // verus!
