//! Verified decision logic of two Solana programs: a constant-product
//! automated market maker (deposit, withdraw, swap) and the configuration
//! step of an MPL Core staking program.
//!
//! The on-chain side effects (token transfers, mints and burns performed
//! through the SPL token program) are described here as plain
//! `TokenInstruction` values; the caller performs them in order.

pub mod amm;
pub mod staking;
