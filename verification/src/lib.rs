//! Verified core of a service that builds, decrypts and audits Solana
//! confidential-balance (token-2022) transactions.
pub mod error;
pub mod codec;
pub mod keys;
pub mod wire;
pub mod audit;
pub mod token;
pub mod deposit;
pub mod balance;
pub mod proofs;
pub mod transfer;
pub mod space;
pub mod laws;
