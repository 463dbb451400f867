use vstd::prelude::*;

use crate::amm::error::AmmErrorCode;
use crate::amm::token::TokenInstruction;

verus! {

/// The token amounts that the constant-product curve computes for a number
/// of LP tokens: `x` of mint X and `y` of mint Y.
#[derive(Debug, Clone, Copy, PartialEq, Eq, Structural)]
pub struct XYAmounts {
    pub x: u64,
    pub y: u64,
}

/// What the constant-product curve computes for a swap: the amount the user
/// pays in, and the amount of the other token paid out to the user.
#[derive(Debug, Clone, Copy, PartialEq, Eq, Structural)]
pub struct SwapAmounts {
    pub deposit: u64,
    pub withdraw: u64,
}

/// A handler's result, with the instruction vector taken by its view.
pub open spec fn outcome_view(r: Result<Vec<TokenInstruction>, AmmErrorCode>) -> Result<
    Seq<TokenInstruction>,
    AmmErrorCode,
> {
    match r {
        Ok(v) => Ok(v@),
        Err(e) => Err(e),
    }
}

/// The two checks every pool handler makes first: the pool must be
/// unlocked, then the amount must not be zero.
pub open spec fn precheck(locked: bool, amount: u64) -> Option<AmmErrorCode> {
    if locked {
        Some(AmmErrorCode::PoolLocked)
    } else if amount == 0 {
        Some(AmmErrorCode::Invalideamount)
    } else {
        None
    }
}

/// The two checks every pool handler makes first (see [`precheck`]).
pub fn check_open_and_nonzero(locked: bool, amount: u64) -> (r: Result<(), AmmErrorCode>)
    ensures
        r matches Err(e) ==> precheck(locked, amount) == Some(e),
        r is Ok <==> precheck(locked, amount) is None,
{
    if locked {
        return Err(AmmErrorCode::PoolLocked);
    }
    if amount == 0 {
        return Err(AmmErrorCode::Invalideamount);
    }
    Ok(())
}

} // verus!
