use vstd::prelude::*;

verus! {

/// The staking configuration of one collection.
#[derive(Debug, Clone, Copy, PartialEq, Eq, Structural)]
pub struct Config {
    /// Rewards in basis points per staked day.
    pub rewards_bps: u16,
    /// The least number of days an asset stays staked.
    pub min_freeze_period_in_days: u16,
    /// Bump of the rewards mint PDA `["rewards_mint", config]`.
    pub rewards_bump: u8,
    /// Bump of the config PDA `["config", collection]`.
    pub bump: u8,
}

} // verus!
