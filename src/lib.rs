//! Confidential token balances: ciphertext types, per-operation account
//! projections and the assembly of the zero-knowledge proof data that
//! balance-changing instructions carry.

pub mod account;
pub mod ciphertext;
pub mod fee;
pub mod mint;
pub mod program_error_args;
pub mod proof_data;
pub mod prover;
pub mod transfer_with_fee;
