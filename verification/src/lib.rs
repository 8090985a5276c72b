//! A verified model of the Clarity VM's account and contract storage layer.

pub mod balance;
pub mod types;
pub mod hashing;
pub mod headers;
pub mod structures;
pub mod rollback;
pub mod keys;
pub mod errors;
pub mod clarity_db;
pub mod c32;
pub mod special;
pub mod cli;
pub mod tenure;
