//! The factory contract: it records the usernames that the auction
//! contract hands out and who owns them.

pub mod contract;
pub mod errors;
pub mod events;
pub mod storage;
pub mod types;
