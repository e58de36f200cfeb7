//! The verified decision logic of an NFT marketplace and an NFT staking
//! program: what an instruction checks, computes and changes, and which token
//! and system transfers it asks for.

pub mod address;
pub mod marketplace;
mod runtime;
pub mod staking;
