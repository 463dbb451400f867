use vstd::prelude::*;

use crate::amm::curve::{check_open_and_nonzero, outcome_view, precheck, XYAmounts};
use crate::amm::error::AmmErrorCode;
use crate::amm::token::{Authority, PoolAccount, TokenInstruction};

verus! {

/// What the deposit handler reads of its accounts: whether the pool is
/// locked, the two vault balances and the LP mint's supply.
#[derive(Debug, Clone, Copy, PartialEq, Eq, Structural)]
pub struct Deposit {
    pub locked: bool,
    pub vault_x_amount: u64,
    pub vault_y_amount: u64,
    pub lp_supply: u64,
}

/// The instructions of a deposit that pays `x` and `y` into the vaults and
/// mints `lp` LP tokens to the user, in the order they are made.
pub open spec fn deposit_instructions(x: u64, y: u64, lp: u64) -> Seq<TokenInstruction> {
    seq![
        TokenInstruction::Transfer {
            from: PoolAccount::UserX,
            to: PoolAccount::VaultX,
            authority: Authority::User,
            amount: x,
        },
        TokenInstruction::Transfer {
            from: PoolAccount::UserY,
            to: PoolAccount::VaultY,
            authority: Authority::User,
            amount: y,
        },
        TokenInstruction::MintTo { to: PoolAccount::UserLp, amount: lp },
    ]
}

impl Deposit {
    /// A pool with no LP tokens and two empty vaults: the first depositor
    /// sets the price by paying exactly its maxima.
    pub open spec fn empty_pool(self) -> bool {
        self.lp_supply == 0 && self.vault_x_amount == 0 && self.vault_y_amount == 0
    }

    /// Whether a deposit of `amount` LP tokens asks the curve how much of
    /// each token it costs.
    pub open spec fn needs_curve(self, amount: u64) -> bool {
        precheck(self.locked, amount) is None && !self.empty_pool()
    }

    /// What a deposit of `amount` LP tokens does: the refusal, or the token
    /// instructions to make. `curve` is what the constant-product curve
    /// computes for `amount` on the current balances; it is read only when
    /// `needs_curve` holds.
    pub open spec fn deposit_outcome(
        self,
        amount: u64,
        max_x: u64,
        max_y: u64,
        curve: Option<XYAmounts>,
    ) -> Result<Seq<TokenInstruction>, AmmErrorCode> {
        if precheck(self.locked, amount) is Some {
            Err(precheck(self.locked, amount).unwrap())
        } else if self.empty_pool() {
            Ok(deposit_instructions(max_x, max_y, amount))
        } else {
            let a = curve.unwrap();
            if a.x <= max_x && a.y <= max_y {
                Ok(deposit_instructions(a.x, a.y, amount))
            } else {
                Err(AmmErrorCode::SlippageExceeded)
            }
        }
    }

    /// Whether the pool is empty (see [`Deposit::empty_pool`]).
    pub fn is_empty_pool(&self) -> (r: bool)
        ensures
            r == self.empty_pool(),
    {
        self.lp_supply == 0 && self.vault_x_amount == 0 && self.vault_y_amount == 0
    }

    /// Whether the deposit handler consults the curve for `amount`
    /// (see [`Deposit::needs_curve`]).
    pub fn needs_curve_amounts(&self, amount: u64) -> (r: bool)
        ensures
            r == self.needs_curve(amount),
    {
        check_open_and_nonzero(self.locked, amount).is_ok() && !self.is_empty_pool()
    }

    /// Deposits tokens into the pool in exchange for `amount` LP tokens,
    /// paying at most `max_x` of X and `max_y` of Y.
    ///
    /// A locked pool refuses with `PoolLocked`, a zero amount with
    /// `Invalideamount`. An empty pool takes exactly `max_x` and `max_y`.
    /// Otherwise the curve's amounts are taken if neither exceeds its
    /// maximum, and the deposit is refused with `SlippageExceeded` if one does.
    /// On success the instructions pay X, then Y, into the vaults and then
    /// mint the LP tokens to the user.
    pub fn deposit(&self, amount: u64, max_x: u64, max_y: u64, curve: Option<XYAmounts>) -> (r:
        Result<Vec<TokenInstruction>, AmmErrorCode>)
        requires
            self.needs_curve(amount) ==> curve is Some,
        ensures
            outcome_view(r) == self.deposit_outcome(amount, max_x, max_y, curve),
    {
        check_open_and_nonzero(self.locked, amount)?;
        let (x, y) = if self.is_empty_pool() {
            (max_x, max_y)
        } else {
            let amounts = curve.unwrap();
            if !(amounts.x <= max_x && amounts.y <= max_y) {
                return Err(AmmErrorCode::SlippageExceeded);
            }
            (amounts.x, amounts.y)
        };
        let mut ixs: Vec<TokenInstruction> = Vec::new();
        ixs.push(self.deposit_tokens(PoolAccount::UserX, PoolAccount::VaultX, Authority::User, x));
        ixs.push(self.deposit_tokens(PoolAccount::UserY, PoolAccount::VaultY, Authority::User, y));
        ixs.push(self.mint_lp_tokens(amount));
        proof {
            assert(ixs@ =~= deposit_instructions(x, y, amount));
        }
        Ok(ixs)
    }

    /// The transfer of `amount` tokens from `from` to `to`, signed by
    /// `authority`, with which a deposit pays into a vault.
    pub fn deposit_tokens(&self, from: PoolAccount, to: PoolAccount, authority: Authority, amount: u64) -> (ix:
        TokenInstruction)
        ensures
            ix == (TokenInstruction::Transfer { from, to, authority, amount }),
    {
        TokenInstruction::Transfer { from, to, authority, amount }
    }

    /// The mint of `amount` LP tokens to the user, signed by the config PDA.
    pub fn mint_lp_tokens(&self, amount: u64) -> (ix: TokenInstruction)
        ensures
            ix == (TokenInstruction::MintTo { to: PoolAccount::UserLp, amount }),
    {
        TokenInstruction::MintTo { to: PoolAccount::UserLp, amount }
    }
}

} // verus!
