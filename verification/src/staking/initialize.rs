use vstd::prelude::*;

use crate::staking::config::Config;
use crate::staking::error::ErrorCode;

verus! {

/// The bumps found for the PDAs that `initialize` creates.
#[derive(Debug, Clone, Copy, PartialEq, Eq, Structural)]
pub struct InitializeBumps {
    pub config: u8,
    pub rewards_mint: u8,
}

/// What the initialize handler writes: the new config account.
#[derive(Debug, Clone, Copy, PartialEq, Eq, Structural)]
pub struct Initialize {
    pub config: Config,
}

impl Initialize {
    /// Writes the collection's staking configuration: the rewards rate, the
    /// least freeze period, and the bumps of the config and rewards mint PDAs.
    pub fn init(&mut self, rewards_bps: u16, min_freeze_period_in_days: u16, bumps: InitializeBumps) -> (r:
        Result<(), ErrorCode>)
        ensures
            r is Ok,
            final(self).config == (Config {
                rewards_bps,
                min_freeze_period_in_days,
                rewards_bump: bumps.rewards_mint,
                bump: bumps.config,
            }),
    {
        self.config = Config {
            rewards_bps,
            min_freeze_period_in_days,
            rewards_bump: bumps.rewards_mint,
            bump: bumps.config,
        };
        Ok(())
    }
}

/// The `initialize` instruction: initializes the staking config with the
/// given rewards rate and freeze period (see [`Initialize::init`]).
pub fn initialize(accounts: &mut Initialize, bumps: InitializeBumps, rewards_bps: u16, freeze_period: u16) -> (r:
    Result<(), ErrorCode>)
    ensures
        r is Ok,
        final(accounts).config == (Config {
            rewards_bps,
            min_freeze_period_in_days: freeze_period,
            rewards_bump: bumps.rewards_mint,
            bump: bumps.config,
        }),
{
    accounts.init(rewards_bps, freeze_period, bumps)
}

} // verus!
