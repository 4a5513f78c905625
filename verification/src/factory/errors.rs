//! Errors of the factory contract.

use vstd::prelude::*;

verus! {

/// Errors with which the factory contract rejects a call.
#[derive(Clone, Copy, Debug, PartialEq, Eq)]
pub enum FactoryError {
    /// Caller is not the configured auction contract, or the role that
    /// the call needs is not set.
    Unauthorized,
    /// Username hash is already registered.
    AlreadyDeployed,
    /// Core contract address has not been configured.
    CoreContractNotConfigured,
    /// The username to transfer has no record; the contract aborts with
    /// the message "Username not deployed" rather than an error code.
    NotDeployed,
}

impl FactoryError {
    /// The contract error code, for the errors that have one.
    pub fn code(&self) -> (r: Option<u32>)
        ensures
            r == match *self {
                FactoryError::Unauthorized => Some(1u32),
                FactoryError::AlreadyDeployed => Some(2u32),
                FactoryError::CoreContractNotConfigured => Some(3u32),
                FactoryError::NotDeployed => None::<u32>,
            },
    {
        match self {
            FactoryError::Unauthorized => Some(1),
            FactoryError::AlreadyDeployed => Some(2),
            FactoryError::CoreContractNotConfigured => Some(3),
            FactoryError::NotDeployed => None,
        }
    }
}

} // verus!
