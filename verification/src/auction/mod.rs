//! The auction contract's claim step: the winner of a closed auction
//! claims the username, which the factory then records.

pub mod contract;
pub mod errors;
pub mod storage;
pub mod types;
