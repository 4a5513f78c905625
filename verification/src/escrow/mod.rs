//! The escrow contract: vaults from which payments are scheduled for a
//! later release.

pub mod contract;
pub mod errors;
pub mod events;
pub mod storage;
pub mod types;
