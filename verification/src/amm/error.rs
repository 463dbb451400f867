use vstd::prelude::*;

verus! {

/// Errors returned by the pool handlers.
#[derive(Debug, Clone, Copy, PartialEq, Eq, Structural)]
pub enum AmmErrorCode {
    /// Custom error message.
    CustomError,
    /// The pool is locked: no deposit, withdrawal or swap is accepted.
    PoolLocked,
    /// The requested amount is zero.
    Invalideamount,
    /// The amounts the curve asks for are outside the caller's limits.
    SlippageExceeded,
}

} // verus!
