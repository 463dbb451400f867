//! The constant-product pool: its errors, the token instructions that its
//! handlers emit, a model of the token balances those instructions move,
//! and the deposit, withdraw and swap handlers.

pub mod curve;
pub mod deposit;
pub mod error;
pub mod laws;
pub mod swap;
pub mod token;
pub mod withdraw;
