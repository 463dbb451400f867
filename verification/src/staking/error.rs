use vstd::prelude::*;

verus! {

/// Errors of the staking program.
#[derive(Debug, Clone, Copy, PartialEq, Eq, Structural)]
pub enum ErrorCode {
    /// Invalid asset owner.
    InvalidOwner,
    /// Invalid update authority.
    InvalidUpdateAuthority,
    /// Already staked.
    AlreadyStaked,
    /// Asset not staked.
    AssetNotStaked,
    /// Invalid time stamp.
    InvalidTimestamp,
    /// Invalid rewards bps.
    InvalidRewardsBps,
    /// Freeze period not elapsed.
    FreezePeriodNotElapsed,
}

} // verus!
