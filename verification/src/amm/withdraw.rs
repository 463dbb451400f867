use vstd::prelude::*;

use crate::amm::curve::{check_open_and_nonzero, outcome_view, precheck, XYAmounts};
use crate::amm::error::AmmErrorCode;
use crate::amm::token::{Authority, PoolAccount, TokenInstruction};

verus! {

/// What the withdraw handler reads of its accounts: whether the pool is
/// locked, the two vault balances and the LP mint's supply.
#[derive(Debug, Clone, Copy, PartialEq, Eq, Structural)]
pub struct Withdraw {
    pub locked: bool,
    pub vault_x_amount: u64,
    pub vault_y_amount: u64,
    pub lp_supply: u64,
}

/// The instructions of a withdrawal that burns `lp` LP tokens and then pays
/// `x` and `y` out of the vaults to the user, in the order they are made.
pub open spec fn withdraw_instructions(lp: u64, x: u64, y: u64) -> Seq<TokenInstruction> {
    seq![
        TokenInstruction::Burn { from: PoolAccount::UserLp, authority: Authority::User, amount: lp },
        TokenInstruction::Transfer {
            from: PoolAccount::VaultX,
            to: PoolAccount::UserX,
            authority: Authority::Config,
            amount: x,
        },
        TokenInstruction::Transfer {
            from: PoolAccount::VaultY,
            to: PoolAccount::UserY,
            authority: Authority::Config,
            amount: y,
        },
    ]
}

impl Withdraw {
    /// Whether a withdrawal of `amount` LP tokens asks the curve how much of
    /// each token it returns.
    pub open spec fn needs_curve(self, amount: u64) -> bool {
        precheck(self.locked, amount) is None
    }

    /// What a withdrawal of `amount` LP tokens does: the refusal, or the
    /// token instructions to make. `curve` is what the constant-product curve
    /// computes for `amount` on the current balances; it is read only when
    /// `needs_curve` holds.
    pub open spec fn withdraw_outcome(
        self,
        amount: u64,
        min_x: u64,
        min_y: u64,
        curve: Option<XYAmounts>,
    ) -> Result<Seq<TokenInstruction>, AmmErrorCode> {
        if precheck(self.locked, amount) is Some {
            Err(precheck(self.locked, amount).unwrap())
        } else {
            let a = curve.unwrap();
            if a.x >= min_x && a.y >= min_y {
                Ok(withdraw_instructions(amount, a.x, a.y))
            } else {
                Err(AmmErrorCode::SlippageExceeded)
            }
        }
    }

    /// Whether the withdraw handler consults the curve for `amount`
    /// (see [`Withdraw::needs_curve`]).
    pub fn needs_curve_amounts(&self, amount: u64) -> (r: bool)
        ensures
            r == self.needs_curve(amount),
    {
        check_open_and_nonzero(self.locked, amount).is_ok()
    }

    /// Burns `amount` LP tokens and pays out the tokens they stand for,
    /// receiving at least `min_x` of X and `min_y` of Y.
    ///
    /// A locked pool refuses with `PoolLocked`, a zero amount with
    /// `Invalideamount`. The curve's amounts are paid out if neither is below
    /// its minimum, and the withdrawal is refused with `SlippageExceeded` if
    /// one is. On success the instructions burn the LP tokens first, then pay
    /// X, then Y, out of the vaults, signed by the config PDA.
    pub fn withdraw(&self, amount: u64, min_x: u64, min_y: u64, curve: Option<XYAmounts>) -> (r:
        Result<Vec<TokenInstruction>, AmmErrorCode>)
        requires
            self.needs_curve(amount) ==> curve is Some,
        ensures
            outcome_view(r) == self.withdraw_outcome(amount, min_x, min_y, curve),
    {
        check_open_and_nonzero(self.locked, amount)?;
        let amounts = curve.unwrap();
        let (x, y) = (amounts.x, amounts.y);
        if !(x >= min_x && y >= min_y) {
            return Err(AmmErrorCode::SlippageExceeded);
        }
        let mut ixs: Vec<TokenInstruction> = Vec::new();
        ixs.push(self.burn_lp_tokens(amount));
        ixs.push(self.withdraw_tokens(PoolAccount::VaultX, PoolAccount::UserX, Authority::Config, x));
        ixs.push(self.withdraw_tokens(PoolAccount::VaultY, PoolAccount::UserY, Authority::Config, y));
        proof {
            assert(ixs@ =~= withdraw_instructions(amount, x, y));
        }
        Ok(ixs)
    }

    /// The transfer of `amount` tokens from `from` to `to`, signed by
    /// `authority`, with which a withdrawal pays out of a vault.
    pub fn withdraw_tokens(&self, from: PoolAccount, to: PoolAccount, authority: Authority, amount: u64) -> (ix:
        TokenInstruction)
        ensures
            ix == (TokenInstruction::Transfer { from, to, authority, amount }),
    {
        TokenInstruction::Transfer { from, to, authority, amount }
    }

    /// The burn of `amount` LP tokens from the user's LP account, signed by
    /// the user.
    pub fn burn_lp_tokens(&self, amount: u64) -> (ix: TokenInstruction)
        ensures
            ix == (TokenInstruction::Burn { from: PoolAccount::UserLp, authority: Authority::User, amount }),
    {
        TokenInstruction::Burn { from: PoolAccount::UserLp, authority: Authority::User, amount }
    }
}

} // verus!
