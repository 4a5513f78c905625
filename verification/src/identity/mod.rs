//! The core identity contract: contract roles, the SMT root, username
//! commitment registration and the Stellar address book.

pub mod address_manager;
pub mod admin;
pub mod contract;
pub mod errors;
pub mod registration;
pub mod smt_root;
pub mod storage;
pub mod types;
pub mod zk_verifier;
