//! Errors of the core identity contract.

use vstd::prelude::*;

verus! {

/// Errors of chain address management.
#[derive(Clone, Copy, Debug, PartialEq, Eq)]
pub enum ChainAddressError {
    /// Caller is not the owner of the username commitment.
    Unauthorized,
    /// The username commitment is not registered.
    NotRegistered,
    /// The address format is invalid for the given chain type.
    InvalidAddress,
}

impl ChainAddressError {
    /// The contract error code.
    pub fn code(&self) -> (r: u32)
        ensures
            r == match *self {
                ChainAddressError::Unauthorized => 1u32,
                ChainAddressError::NotRegistered => 2u32,
                ChainAddressError::InvalidAddress => 3u32,
            },
    {
        match self {
            ChainAddressError::Unauthorized => 1,
            ChainAddressError::NotRegistered => 2,
            ChainAddressError::InvalidAddress => 3,
        }
    }
}

/// Errors with which the contract's role, root and registration entry
/// points reject a call.
#[derive(Clone, Copy, Debug, PartialEq, Eq)]
pub enum CoreError {
    /// The contract already has an owner.
    AlreadyInitialized,
    /// A role that the call needs is not set.
    NotFound,
    /// No SMT root has been stored yet.
    RootNotSet,
    /// The new SMT root equals the stored one.
    RootUnchanged,
    /// The commitment already has an owner.
    AlreadyRegistered,
    /// The proof was made against another root than the stored one.
    StaleRoot,
    /// The proof did not verify.
    InvalidProof,
}

impl CoreError {
    /// The contract error code.
    pub fn code(&self) -> (r: u32)
        ensures
            r == match *self {
                CoreError::AlreadyInitialized => 1u32,
                CoreError::NotFound => 2u32,
                CoreError::RootNotSet => 3u32,
                CoreError::RootUnchanged => 4u32,
                CoreError::AlreadyRegistered => 5u32,
                CoreError::StaleRoot => 6u32,
                CoreError::InvalidProof => 7u32,
            },
    {
        match self {
            CoreError::AlreadyInitialized => 1,
            CoreError::NotFound => 2,
            CoreError::RootNotSet => 3,
            CoreError::RootUnchanged => 4,
            CoreError::AlreadyRegistered => 5,
            CoreError::StaleRoot => 6,
            CoreError::InvalidProof => 7,
        }
    }

    /// The message with which the contract aborts, for the refusals that
    /// abort with a message rather than an error code.
    pub fn message(&self) -> (r: Option<&'static str>)
        ensures
            match *self {
                CoreError::AlreadyRegistered => r matches Some(m) && m@
                    == "Commitment already registered"@,
                _ => r is None,
            },
    {
        match self {
            CoreError::AlreadyRegistered => Some("Commitment already registered"),
            _ => None,
        }
    }
}

/// Reasons for which the address manager refuses a call.
#[derive(Clone, Copy, Debug, PartialEq, Eq)]
pub enum AddressManagerError {
    /// `init` was called a second time.
    AlreadyInitialized,
    /// No owner has been set by `init`.
    NotInitialized,
    /// The caller is not the owner.
    NotOwner,
    /// The caller has not been registered.
    AddressNotRegistered,
    /// A Stellar address is already stored for the commitment.
    AddressAlreadyExists,
    /// The address is already registered.
    AddressAlreadyRegistered,
}

impl AddressManagerError {
    /// The message with which the contract aborts.
    pub fn message(&self) -> (r: &'static str)
        ensures
            r@ == match *self {
                AddressManagerError::AlreadyInitialized => "Already initialized"@,
                AddressManagerError::NotInitialized => "Not initialized"@,
                AddressManagerError::NotOwner => "Not owner"@,
                AddressManagerError::AddressNotRegistered => "Address not registered"@,
                AddressManagerError::AddressAlreadyExists => "Address already exists"@,
                AddressManagerError::AddressAlreadyRegistered => "Address already registered"@,
            },
    {
        match self {
            AddressManagerError::AlreadyInitialized => "Already initialized",
            AddressManagerError::NotInitialized => "Not initialized",
            AddressManagerError::NotOwner => "Not owner",
            AddressManagerError::AddressNotRegistered => "Address not registered",
            AddressManagerError::AddressAlreadyExists => "Address already exists",
            AddressManagerError::AddressAlreadyRegistered => "Address already registered",
        }
    }
}

} // verus!
