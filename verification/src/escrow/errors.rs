//! Errors of the escrow contract.

use vstd::prelude::*;

verus! {

/// Errors with which the escrow contract rejects a call.
#[derive(Clone, Copy, Debug, PartialEq, Eq, PartialOrd, Ord)]
pub enum EscrowError {
    InsufficientBalance,
    PastReleaseTime,
    Unauthorized,
    InvalidAmount,
    VaultNotFound,
    /// The payment counter cannot grow past `u32::MAX`.
    PaymentCounterOverflow,
    /// The auto-pay counter cannot grow past `u32::MAX`.
    AutoPayCounterOverflow,
}

impl EscrowError {
    /// The contract error code.
    pub fn code(&self) -> (r: u32)
        ensures
            r == match *self {
                EscrowError::InsufficientBalance => 1u32,
                EscrowError::PastReleaseTime => 2u32,
                EscrowError::Unauthorized => 3u32,
                EscrowError::InvalidAmount => 4u32,
                EscrowError::VaultNotFound => 5u32,
                EscrowError::PaymentCounterOverflow => 6u32,
                EscrowError::AutoPayCounterOverflow => 7u32,
            },
    {
        match self {
            EscrowError::InsufficientBalance => 1,
            EscrowError::PastReleaseTime => 2,
            EscrowError::Unauthorized => 3,
            EscrowError::InvalidAmount => 4,
            EscrowError::VaultNotFound => 5,
            EscrowError::PaymentCounterOverflow => 6,
            EscrowError::AutoPayCounterOverflow => 7,
        }
    }
}

} // verus!
