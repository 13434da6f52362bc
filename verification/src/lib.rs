//! Core of a dark-pool relayer: secret-shared wallets, match settlement
//! algebra, the wire codec for the settlement contract, and the fee payment
//! task, with machine-checked contracts.

pub mod calldata;
pub mod contract_types;
pub mod conversion;
pub mod fees;
pub mod fixed_point;
pub mod hash;
pub mod match_types;
pub mod merkle;
pub mod note;
pub mod pay_offline_fee;
pub mod primitives;
pub mod scalar;
pub mod shares;
pub mod statement_conversion;
pub mod statements;
pub mod uint256;
pub mod wallet;
pub mod wallet_share;
