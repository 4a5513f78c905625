//! Verified state machines of the Alien Gateway contracts: username
//! registration and the Stellar address book, the escrow vaults, the username
//! factory and the auction claim step.

pub mod ids;
pub mod store;
pub mod identity;
pub mod escrow;
pub mod factory;
pub mod auction;
