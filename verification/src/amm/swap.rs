use vstd::prelude::*;

use crate::amm::curve::{check_open_and_nonzero, outcome_view, precheck, SwapAmounts};
use crate::amm::error::AmmErrorCode;
use crate::amm::token::{Authority, PoolAccount, TokenInstruction};

verus! {

/// What the swap handler reads of its accounts: whether the pool is locked,
/// the two vault balances, the LP mint's supply and the pool's fee in basis
/// points (the last four are what the curve is built from).
#[derive(Debug, Clone, Copy, PartialEq, Eq, Structural)]
pub struct Swap {
    pub locked: bool,
    pub vault_x_amount: u64,
    pub vault_y_amount: u64,
    pub lp_supply: u64,
    pub fee: u16,
}

/// The vault of mint X when `is_x`, else that of mint Y.
pub open spec fn vault_of(is_x: bool) -> PoolAccount {
    if is_x { PoolAccount::VaultX } else { PoolAccount::VaultY }
}

/// The user's account of mint X when `is_x`, else that of mint Y.
pub open spec fn user_of(is_x: bool) -> PoolAccount {
    if is_x { PoolAccount::UserX } else { PoolAccount::UserY }
}

/// The instructions of a swap that pays `deposit` of X (when `is_x`, else
/// of Y) into its vault and `withdraw` of the other token out to the user.
pub open spec fn swap_instructions(is_x: bool, deposit: u64, withdraw: u64) -> Seq<TokenInstruction> {
    seq![
        TokenInstruction::Transfer {
            from: user_of(is_x),
            to: vault_of(is_x),
            authority: Authority::User,
            amount: deposit,
        },
        TokenInstruction::Transfer {
            from: vault_of(!is_x),
            to: user_of(!is_x),
            authority: Authority::Config,
            amount: withdraw,
        },
    ]
}

impl Swap {
    /// Whether a swap of `amount` asks the curve what it pays out.
    pub open spec fn needs_curve(self, amount: u64) -> bool {
        precheck(self.locked, amount) is None
    }

    /// What a swap of `amount` does: the refusal, or the token instructions
    /// to make. `curve` is what the constant-product curve computes for the
    /// swap, or `None` where the curve refuses it (the payout is below the
    /// caller's minimum, among other reasons); it is read only when
    /// `needs_curve` holds.
    pub open spec fn swap_outcome(self, is_x: bool, amount: u64, curve: Option<SwapAmounts>) -> Result<
        Seq<TokenInstruction>,
        AmmErrorCode,
    > {
        if precheck(self.locked, amount) is Some {
            Err(precheck(self.locked, amount).unwrap())
        } else {
            match curve {
                Some(s) => Ok(swap_instructions(is_x, s.deposit, s.withdraw)),
                None => Err(AmmErrorCode::SlippageExceeded),
            }
        }
    }

    /// Whether the swap handler consults the curve for `amount`
    /// (see [`Swap::needs_curve`]).
    pub fn needs_curve_amounts(&self, amount: u64) -> (r: bool)
        ensures
            r == self.needs_curve(amount),
    {
        check_open_and_nonzero(self.locked, amount).is_ok()
    }

    /// Swaps `amount` of X for Y when `is_x`, else of Y for X.
    ///
    /// A locked pool refuses with `PoolLocked`, a zero amount with
    /// `Invalideamount`, and a swap that the curve refuses with
    /// `SlippageExceeded`. On success the user pays the curve's deposit into
    /// the vault of the token it gives, then receives the curve's payout from
    /// the vault of the other token, signed by the config PDA.
    pub fn swap(&self, is_x: bool, amount: u64, curve: Option<SwapAmounts>) -> (r: Result<
        Vec<TokenInstruction>,
        AmmErrorCode,
    >)
        ensures
            outcome_view(r) == self.swap_outcome(is_x, amount, curve),
    {
        check_open_and_nonzero(self.locked, amount)?;
        let swap_result = match curve {
            Some(s) => s,
            None => { return Err(AmmErrorCode::SlippageExceeded); },
        };
        let mut ixs: Vec<TokenInstruction> = Vec::new();
        ixs.push(self.deposit_tokens(is_x, swap_result.deposit));
        ixs.push(self.withdraw_tokens(is_x, swap_result.withdraw));
        proof {
            assert(ixs@ =~= swap_instructions(is_x, swap_result.deposit, swap_result.withdraw));
        }
        Ok(ixs)
    }

    /// The transfer of `amount` of the token the user gives (X when `is_x`)
    /// from the user's account into its vault, signed by the user.
    pub fn deposit_tokens(&self, is_x: bool, amount: u64) -> (ix: TokenInstruction)
        ensures
            ix == (TokenInstruction::Transfer {
                from: user_of(is_x),
                to: vault_of(is_x),
                authority: Authority::User,
                amount,
            }),
    {
        let (vault, user_ata) = self.get_accounts(is_x);
        TokenInstruction::Transfer { from: user_ata, to: vault, authority: Authority::User, amount }
    }

    /// The transfer of `amount` of the token the user receives (Y when
    /// `is_x`) out of its vault into the user's account, signed by the
    /// config PDA.
    pub fn withdraw_tokens(&self, is_x: bool, amount: u64) -> (ix: TokenInstruction)
        ensures
            ix == (TokenInstruction::Transfer {
                from: vault_of(!is_x),
                to: user_of(!is_x),
                authority: Authority::Config,
                amount,
            }),
    {
        let (vault, user_ata) = self.get_accounts(!is_x);
        TokenInstruction::Transfer { from: vault, to: user_ata, authority: Authority::Config, amount }
    }

    /// The vault and the user's account of mint X when `is_x`, else of mint Y.
    pub fn get_accounts(&self, is_x: bool) -> (r: (PoolAccount, PoolAccount))
        ensures
            r == (vault_of(is_x), user_of(is_x)),
    {
        if is_x {
            (PoolAccount::VaultX, PoolAccount::UserX)
        } else {
            (PoolAccount::VaultY, PoolAccount::UserY)
        }
    }
}

} // verus!
