//! The configuration step of the staking program.

pub mod config;
pub mod error;
pub mod initialize;
