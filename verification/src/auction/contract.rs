//! The claim of an auctioned username.

use crate::auction::errors::AuctionError;
use crate::auction::storage::{self, AuctionState, AuctionStorage};
use crate::auction::types::AuctionStatus;
use crate::ids::{Address, Hash32};
use vstd::prelude::*;

verus! {

pub struct AuctionContract;

/// The call that a successful claim makes: the factory contract is to
/// record `username_hash` for `owner`.
#[derive(Debug, PartialEq, Eq)]
pub struct DeployRequest {
    pub factory: Address,
    pub username_hash: Hash32,
    pub owner: Address,
}

/// The view of a [`DeployRequest`].
pub struct DeployRequestView {
    pub factory: Seq<u8>,
    pub username_hash: Seq<u8>,
    pub owner: Seq<u8>,
}

impl View for DeployRequest {
    type V = DeployRequestView;

    open spec fn view(&self) -> DeployRequestView {
        DeployRequestView {
            factory: self.factory@,
            username_hash: self.username_hash@,
            owner: self.owner@,
        }
    }
}

/// The reason for which a claim by `claimer` is refused, if it is.
pub open spec fn claim_check(s: AuctionState, claimer: Seq<u8>) -> Option<AuctionError> {
    if s.status == AuctionStatus::Claimed {
        Some(AuctionError::AlreadyClaimed)
    } else if s.status != AuctionStatus::Closed {
        Some(AuctionError::NotClosed)
    } else if s.highest_bidder != Some(claimer) {
        Some(AuctionError::NotWinner)
    } else if s.factory_contract is None {
        Some(AuctionError::NoFactoryContract)
    } else {
        None
    }
}

/// `claim_username(hash, claimer)`: the new state and the factory call.
pub open spec fn claim_username_spec(s: AuctionState, hash: Seq<u8>, claimer: Seq<u8>) -> Result<
    (AuctionState, DeployRequestView),
    AuctionError,
> {
    match claim_check(s, claimer) {
        Some(e) => Err(e),
        None => Ok(
            (
                AuctionState { status: AuctionStatus::Claimed, ..s },
                DeployRequestView {
                    factory: s.factory_contract.unwrap(),
                    username_hash: hash,
                    owner: claimer,
                },
            ),
        ),
    }
}

impl AuctionContract {
    /// The highest bidder of a closed auction claims `username_hash`: the
    /// auction becomes claimed, and the factory contract is to record the
    /// username for `claimer`. The claimer must authorize the call.
    pub fn claim_username(env: &mut AuctionStorage, username_hash: Hash32, claimer: Address) -> (r:
        Result<DeployRequest, AuctionError>)
        ensures
            match r {
                Ok(req) => claim_username_spec(old(env)@, username_hash@, claimer@)
                    == Ok::<_, AuctionError>((final(env)@, req@)),
                Err(e) => claim_username_spec(old(env)@, username_hash@, claimer@)
                    == Err::<(AuctionState, DeployRequestView), _>(e) && final(env)@ == old(env)@,
            },
    {
        let status = storage::get_status(env);
        if status == AuctionStatus::Claimed {
            return Err(AuctionError::AlreadyClaimed);
        }
        if status != AuctionStatus::Closed {
            return Err(AuctionError::NotClosed);
        }
        let is_winner = match storage::get_highest_bidder(env) {
            Some(h) => h.same(&claimer),
            None => false,
        };
        if !is_winner {
            return Err(AuctionError::NotWinner);
        }
        let factory = match storage::get_factory_contract(env) {
            Some(f) => f,
            None => {
                return Err(AuctionError::NoFactoryContract);
            },
        };
        storage::set_status(env, AuctionStatus::Claimed);
        Ok(DeployRequest { factory, username_hash, owner: claimer })
    }
}

/// A username is claimed at most once, and only by the highest bidder of
/// a closed auction: after a successful claim every further claim is
/// refused with `AlreadyClaimed`.
pub proof fn lemma_claim_once(s: AuctionState, hash: Seq<u8>, claimer: Seq<u8>, other: Seq<u8>)
    requires
        claim_username_spec(s, hash, claimer) is Ok,
    ensures
        s.status == AuctionStatus::Closed,
        s.highest_bidder == Some(claimer),
        claim_username_spec(claim_username_spec(s, hash, claimer)->Ok_0.0, hash, other) == Err::<
            (AuctionState, DeployRequestView),
            _,
        >(AuctionError::AlreadyClaimed),
{
}

/// The highest bidder of a closed auction with a configured factory can
/// always claim: the auction becomes claimed and the factory is asked to
/// record the username for the claimer.
pub proof fn lemma_winner_can_claim(
    s: AuctionState,
    hash: Seq<u8>,
    claimer: Seq<u8>,
    factory: Seq<u8>,
)
    requires
        s.status == AuctionStatus::Closed,
        s.highest_bidder == Some(claimer),
        s.factory_contract == Some(factory),
    ensures
        claim_username_spec(s, hash, claimer) is Ok,
        claim_username_spec(s, hash, claimer)->Ok_0.0 == (AuctionState {
            status: AuctionStatus::Claimed,
            ..s
        }),
        claim_username_spec(s, hash, claimer)->Ok_0.1 == (DeployRequestView {
            factory,
            username_hash: hash,
            owner: claimer,
        }),
{
}

/// Each refusal of a claim names its cause: a claimed auction, an auction
/// that is not closed, a claimer that is not the highest bidder, or a
/// missing factory.
pub proof fn lemma_claim_refusals(s: AuctionState, hash: Seq<u8>, claimer: Seq<u8>)
    ensures
        s.status == AuctionStatus::Claimed ==> claim_username_spec(s, hash, claimer) == Err::<
            (AuctionState, DeployRequestView),
            _,
        >(AuctionError::AlreadyClaimed),
        s.status == AuctionStatus::Open ==> claim_username_spec(s, hash, claimer) == Err::<
            (AuctionState, DeployRequestView),
            _,
        >(AuctionError::NotClosed),
        s.status == AuctionStatus::Closed && s.highest_bidder != Some(claimer)
            ==> claim_username_spec(s, hash, claimer) == Err::<
            (AuctionState, DeployRequestView),
            _,
        >(AuctionError::NotWinner),
        s.status == AuctionStatus::Closed && s.highest_bidder == Some(claimer)
            && s.factory_contract is None ==> claim_username_spec(s, hash, claimer) == Err::<
            (AuctionState, DeployRequestView),
            _,
        >(AuctionError::NoFactoryContract),
{
}

} // verus!
