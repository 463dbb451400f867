//! Laws of the pool handlers, stated over what their contracts say and over
//! the token balances that their instructions move.

use vstd::prelude::*;

use crate::amm::curve::{precheck, SwapAmounts, XYAmounts};
use crate::amm::deposit::Deposit;
use crate::amm::error::AmmErrorCode;
use crate::amm::swap::Swap;
use crate::amm::token::{owner_of, Authority, Ledger, PoolAccount, TokenInstruction};
use crate::amm::withdraw::Withdraw;

verus! {

/// Every instruction is one the token program accepts from these signers:
/// a transfer or burn is signed by the owner of the account it takes from,
/// and LP tokens are only minted into or burned from the user's LP account.
pub open spec fn signed_by_owners(ixs: Seq<TokenInstruction>) -> bool {
    forall|i: int|
        0 <= i < ixs.len() ==> match #[trigger] ixs[i] {
            TokenInstruction::Transfer { from, to, authority, amount } => authority == owner_of(from)
                && Ledger::same_mint(from, to),
            TokenInstruction::MintTo { to, amount } => to == PoolAccount::UserLp,
            TokenInstruction::Burn { from, authority, amount } => from == PoolAccount::UserLp
                && authority == owner_of(from),
        }
}

/// A locked pool refuses every deposit, withdrawal and swap with
/// `PoolLocked`, whatever the amounts and whatever the curve computes.
pub proof fn locked_pool_refuses(
    d: Deposit,
    w: Withdraw,
    s: Swap,
    amount: u64,
    limit_x: u64,
    limit_y: u64,
    is_x: bool,
    xy: Option<XYAmounts>,
    sw: Option<SwapAmounts>,
)
    requires
        d.locked,
        w.locked,
        s.locked,
    ensures
        d.deposit_outcome(amount, limit_x, limit_y, xy) == Err::<Seq<TokenInstruction>, _>(
            AmmErrorCode::PoolLocked,
        ),
        w.withdraw_outcome(amount, limit_x, limit_y, xy) == Err::<Seq<TokenInstruction>, _>(
            AmmErrorCode::PoolLocked,
        ),
        s.swap_outcome(is_x, amount, sw) == Err::<Seq<TokenInstruction>, _>(AmmErrorCode::PoolLocked),
{
}

/// An open pool refuses a zero amount with `Invalideamount` in every
/// handler, whatever the limits and whatever the curve computes.
pub proof fn zero_amount_refused(
    d: Deposit,
    w: Withdraw,
    s: Swap,
    limit_x: u64,
    limit_y: u64,
    is_x: bool,
    xy: Option<XYAmounts>,
    sw: Option<SwapAmounts>,
)
    requires
        !d.locked,
        !w.locked,
        !s.locked,
    ensures
        d.deposit_outcome(0, limit_x, limit_y, xy) == Err::<Seq<TokenInstruction>, _>(
            AmmErrorCode::Invalideamount,
        ),
        w.withdraw_outcome(0, limit_x, limit_y, xy) == Err::<Seq<TokenInstruction>, _>(
            AmmErrorCode::Invalideamount,
        ),
        s.swap_outcome(is_x, 0, sw) == Err::<Seq<TokenInstruction>, _>(AmmErrorCode::Invalideamount),
{
}

/// A deposit that goes through mints exactly `amount` LP tokens to the user,
/// takes at most `max_x` of X and `max_y` of Y from the user, and moves the
/// tokens it takes into the vaults without creating or losing any. Every
/// instruction it makes is signed by the owner of the account it debits.
pub proof fn deposit_conserves_and_respects_maxima(
    d: Deposit,
    amount: u64,
    max_x: u64,
    max_y: u64,
    curve: Option<XYAmounts>,
    before: Ledger,
)
    requires
        d.deposit_outcome(amount, max_x, max_y, curve) is Ok,
        before.run(d.deposit_outcome(amount, max_x, max_y, curve).unwrap()) is Some,
    ensures
        signed_by_owners(d.deposit_outcome(amount, max_x, max_y, curve).unwrap()),
        ({
            let after = before.run(d.deposit_outcome(amount, max_x, max_y, curve).unwrap()).unwrap();
            &&& after.user_x + after.vault_x == before.user_x + before.vault_x
            &&& after.user_y + after.vault_y == before.user_y + before.vault_y
            &&& 0 <= before.user_x - after.user_x <= max_x
            &&& 0 <= before.user_y - after.user_y <= max_y
            &&& after.user_lp == before.user_lp + amount
            &&& after.lp_supply == before.lp_supply + amount
        }),
{
    reveal_with_fuel(Ledger::run, 4);
    let ixs = d.deposit_outcome(amount, max_x, max_y, curve).unwrap();
    let l1 = before.step(ixs[0]).unwrap();
    let l2 = l1.step(ixs[1]).unwrap();
    assert(ixs.drop_first()[0] == ixs[1]);
    assert(ixs.drop_first().drop_first()[0] == ixs[2]);
    assert(ixs.drop_first().drop_first().drop_first().len() == 0);
    assert(l2.step(ixs[2]) is Some);
}

/// A withdrawal that goes through burns exactly `amount` LP tokens of the
/// user, pays the user at least `min_x` of X and `min_y` of Y, and moves the
/// tokens it pays out of the vaults without creating or losing any. Every
/// instruction it makes is signed by the owner of the account it debits.
pub proof fn withdraw_conserves_and_respects_minima(
    w: Withdraw,
    amount: u64,
    min_x: u64,
    min_y: u64,
    curve: Option<XYAmounts>,
    before: Ledger,
)
    requires
        w.withdraw_outcome(amount, min_x, min_y, curve) is Ok,
        before.run(w.withdraw_outcome(amount, min_x, min_y, curve).unwrap()) is Some,
    ensures
        signed_by_owners(w.withdraw_outcome(amount, min_x, min_y, curve).unwrap()),
        ({
            let after = before.run(w.withdraw_outcome(amount, min_x, min_y, curve).unwrap()).unwrap();
            &&& after.user_x + after.vault_x == before.user_x + before.vault_x
            &&& after.user_y + after.vault_y == before.user_y + before.vault_y
            &&& after.user_x - before.user_x >= min_x
            &&& after.user_y - before.user_y >= min_y
            &&& after.user_lp == before.user_lp - amount
            &&& after.lp_supply == before.lp_supply - amount
        }),
{
    reveal_with_fuel(Ledger::run, 4);
    let ixs = w.withdraw_outcome(amount, min_x, min_y, curve).unwrap();
    let l1 = before.step(ixs[0]).unwrap();
    let l2 = l1.step(ixs[1]).unwrap();
    assert(ixs.drop_first()[0] == ixs[1]);
    assert(ixs.drop_first().drop_first()[0] == ixs[2]);
    assert(ixs.drop_first().drop_first().drop_first().len() == 0);
    assert(l2.step(ixs[2]) is Some);
}

/// A swap that goes through takes exactly the curve's deposit of the token
/// the user gives and pays exactly the curve's payout of the other token,
/// without creating or losing tokens and without touching LP tokens. Every
/// instruction it makes is signed by the owner of the account it debits.
pub proof fn swap_conserves_and_pays_curve_amounts(
    s: Swap,
    is_x: bool,
    amount: u64,
    amounts: SwapAmounts,
    before: Ledger,
)
    requires
        s.swap_outcome(is_x, amount, Some(amounts)) is Ok,
        before.run(s.swap_outcome(is_x, amount, Some(amounts)).unwrap()) is Some,
    ensures
        signed_by_owners(s.swap_outcome(is_x, amount, Some(amounts)).unwrap()),
        ({
            let after = before.run(s.swap_outcome(is_x, amount, Some(amounts)).unwrap()).unwrap();
            &&& after.user_x + after.vault_x == before.user_x + before.vault_x
            &&& after.user_y + after.vault_y == before.user_y + before.vault_y
            &&& is_x ==> before.user_x - after.user_x == amounts.deposit
                && after.user_y - before.user_y == amounts.withdraw
            &&& !is_x ==> before.user_y - after.user_y == amounts.deposit
                && after.user_x - before.user_x == amounts.withdraw
            &&& after.user_lp == before.user_lp
            &&& after.lp_supply == before.lp_supply
        }),
{
    reveal_with_fuel(Ledger::run, 3);
    let ixs = s.swap_outcome(is_x, amount, Some(amounts)).unwrap();
    let l1 = before.step(ixs[0]).unwrap();
    assert(ixs.drop_first()[0] == ixs[1]);
    assert(ixs.drop_first().drop_first().len() == 0);
    assert(l1.step(ixs[1]) is Some);
}

/// When the pool is open, the amount is nonzero and the pool is not empty, a
/// deposit is refused exactly when one of the curve's amounts exceeds its
/// maximum, and otherwise goes through; a locked pool is refused with
/// `PoolLocked` and a zero amount with `Invalideamount`. No other refusal
/// exists. An empty open pool accepts every nonzero amount.
pub proof fn deposit_refuses_only_for_lock_zero_or_slippage(
    d: Deposit,
    amount: u64,
    max_x: u64,
    max_y: u64,
    a: XYAmounts,
)
    ensures
        ({
            let out = d.deposit_outcome(amount, max_x, max_y, Some(a));
            &&& (out is Ok) <==> (!d.locked && amount != 0 && (d.lp_supply == 0 && d.vault_x_amount == 0
                && d.vault_y_amount == 0 || a.x <= max_x && a.y <= max_y))
            &&& (out == Err::<Seq<TokenInstruction>, _>(AmmErrorCode::PoolLocked)) <==> d.locked
            &&& (out == Err::<Seq<TokenInstruction>, _>(AmmErrorCode::Invalideamount)) <==> (!d.locked
                && amount == 0)
            &&& (out == Err::<Seq<TokenInstruction>, _>(AmmErrorCode::SlippageExceeded)) <==> (!d.locked
                && amount != 0 && !(d.lp_supply == 0 && d.vault_x_amount == 0 && d.vault_y_amount == 0)
                && !(a.x <= max_x && a.y <= max_y))
        }),
{
}

/// A deposit into a non-empty pool that goes through takes exactly the
/// curve's `x` of X and `y` of Y from the user into the vaults, and then
/// mints exactly `amount` LP tokens to the user.
pub proof fn deposit_pays_exactly_the_curve_amounts(
    d: Deposit,
    amount: u64,
    max_x: u64,
    max_y: u64,
    a: XYAmounts,
    before: Ledger,
)
    requires
        !(d.lp_supply == 0 && d.vault_x_amount == 0 && d.vault_y_amount == 0),
        d.deposit_outcome(amount, max_x, max_y, Some(a)) is Ok,
    ensures
        d.deposit_outcome(amount, max_x, max_y, Some(a)).unwrap() == seq![
            TokenInstruction::Transfer {
                from: PoolAccount::UserX,
                to: PoolAccount::VaultX,
                authority: Authority::User,
                amount: a.x,
            },
            TokenInstruction::Transfer {
                from: PoolAccount::UserY,
                to: PoolAccount::VaultY,
                authority: Authority::User,
                amount: a.y,
            },
            TokenInstruction::MintTo { to: PoolAccount::UserLp, amount },
        ],
        before.run(d.deposit_outcome(amount, max_x, max_y, Some(a)).unwrap()) is Some ==> ({
            let after = before.run(d.deposit_outcome(amount, max_x, max_y, Some(a)).unwrap()).unwrap();
            &&& before.user_x - after.user_x == a.x
            &&& before.user_y - after.user_y == a.y
            &&& after.vault_x - before.vault_x == a.x
            &&& after.vault_y - before.vault_y == a.y
            &&& after.user_lp - before.user_lp == amount
        }),
{
    reveal_with_fuel(Ledger::run, 4);
    let ixs = d.deposit_outcome(amount, max_x, max_y, Some(a)).unwrap();
    assert(ixs.drop_first()[0] == ixs[1]);
    assert(ixs.drop_first().drop_first()[0] == ixs[2]);
    assert(ixs.drop_first().drop_first().drop_first().len() == 0);
}

/// The first deposit into an empty pool that goes through takes exactly
/// `max_x` of X and `max_y` of Y from the user, and mints exactly `amount`
/// LP tokens to the user; the curve is not consulted.
pub proof fn first_deposit_pays_exactly_the_maxima(
    d: Deposit,
    amount: u64,
    max_x: u64,
    max_y: u64,
    curve: Option<XYAmounts>,
    before: Ledger,
)
    requires
        d.lp_supply == 0 && d.vault_x_amount == 0 && d.vault_y_amount == 0,
        d.deposit_outcome(amount, max_x, max_y, curve) is Ok,
    ensures
        d.deposit_outcome(amount, max_x, max_y, curve).unwrap() == seq![
            TokenInstruction::Transfer {
                from: PoolAccount::UserX,
                to: PoolAccount::VaultX,
                authority: Authority::User,
                amount: max_x,
            },
            TokenInstruction::Transfer {
                from: PoolAccount::UserY,
                to: PoolAccount::VaultY,
                authority: Authority::User,
                amount: max_y,
            },
            TokenInstruction::MintTo { to: PoolAccount::UserLp, amount },
        ],
        before.run(d.deposit_outcome(amount, max_x, max_y, curve).unwrap()) is Some ==> ({
            let after = before.run(d.deposit_outcome(amount, max_x, max_y, curve).unwrap()).unwrap();
            &&& before.user_x - after.user_x == max_x
            &&& before.user_y - after.user_y == max_y
            &&& after.user_lp - before.user_lp == amount
        }),
{
    reveal_with_fuel(Ledger::run, 4);
    let ixs = d.deposit_outcome(amount, max_x, max_y, curve).unwrap();
    assert(ixs.drop_first()[0] == ixs[1]);
    assert(ixs.drop_first().drop_first()[0] == ixs[2]);
    assert(ixs.drop_first().drop_first().drop_first().len() == 0);
}

/// When the pool is open and the amount nonzero, a withdrawal is refused
/// exactly when one of the curve's amounts is below its minimum, and
/// otherwise goes through; a locked pool is refused with `PoolLocked` and a
/// zero amount with `Invalideamount`. No other refusal exists.
pub proof fn withdraw_refuses_only_for_lock_zero_or_slippage(
    w: Withdraw,
    amount: u64,
    min_x: u64,
    min_y: u64,
    a: XYAmounts,
)
    ensures
        ({
            let out = w.withdraw_outcome(amount, min_x, min_y, Some(a));
            &&& (out is Ok) <==> (!w.locked && amount != 0 && a.x >= min_x && a.y >= min_y)
            &&& (out == Err::<Seq<TokenInstruction>, _>(AmmErrorCode::PoolLocked)) <==> w.locked
            &&& (out == Err::<Seq<TokenInstruction>, _>(AmmErrorCode::Invalideamount)) <==> (!w.locked
                && amount == 0)
            &&& (out == Err::<Seq<TokenInstruction>, _>(AmmErrorCode::SlippageExceeded)) <==> (!w.locked
                && amount != 0 && !(a.x >= min_x && a.y >= min_y))
        }),
{
}

/// A withdrawal that goes through burns exactly `amount` LP tokens of the
/// user and then pays the user exactly the curve's `x` of X and `y` of Y out
/// of the vaults.
pub proof fn withdraw_pays_exactly_the_curve_amounts(
    w: Withdraw,
    amount: u64,
    min_x: u64,
    min_y: u64,
    a: XYAmounts,
    before: Ledger,
)
    requires
        w.withdraw_outcome(amount, min_x, min_y, Some(a)) is Ok,
    ensures
        w.withdraw_outcome(amount, min_x, min_y, Some(a)).unwrap() == seq![
            TokenInstruction::Burn { from: PoolAccount::UserLp, authority: Authority::User, amount },
            TokenInstruction::Transfer {
                from: PoolAccount::VaultX,
                to: PoolAccount::UserX,
                authority: Authority::Config,
                amount: a.x,
            },
            TokenInstruction::Transfer {
                from: PoolAccount::VaultY,
                to: PoolAccount::UserY,
                authority: Authority::Config,
                amount: a.y,
            },
        ],
        before.run(w.withdraw_outcome(amount, min_x, min_y, Some(a)).unwrap()) is Some ==> ({
            let after = before.run(w.withdraw_outcome(amount, min_x, min_y, Some(a)).unwrap()).unwrap();
            &&& after.user_x - before.user_x == a.x
            &&& after.user_y - before.user_y == a.y
            &&& before.vault_x - after.vault_x == a.x
            &&& before.vault_y - after.vault_y == a.y
            &&& before.user_lp - after.user_lp == amount
        }),
{
    reveal_with_fuel(Ledger::run, 4);
    let ixs = w.withdraw_outcome(amount, min_x, min_y, Some(a)).unwrap();
    assert(ixs.drop_first()[0] == ixs[1]);
    assert(ixs.drop_first().drop_first()[0] == ixs[2]);
    assert(ixs.drop_first().drop_first().drop_first().len() == 0);
}

/// When the pool is open and the amount nonzero, a swap goes through exactly
/// when the curve computes its amounts, and then consists of the transfer of
/// the curve's deposit from the user into the vault of the token given,
/// followed by the transfer of the curve's payout from the other vault to
/// the user. A locked pool is refused with `PoolLocked`, a zero amount with
/// `Invalideamount`, and a swap the curve refuses with `SlippageExceeded`;
/// no other refusal exists.
pub proof fn swap_refuses_only_for_lock_zero_or_curve(
    s: Swap,
    is_x: bool,
    amount: u64,
    curve: Option<SwapAmounts>,
)
    ensures
        ({
            let out = s.swap_outcome(is_x, amount, curve);
            &&& (out is Ok) <==> (!s.locked && amount != 0 && curve is Some)
            &&& (out == Err::<Seq<TokenInstruction>, _>(AmmErrorCode::PoolLocked)) <==> s.locked
            &&& (out == Err::<Seq<TokenInstruction>, _>(AmmErrorCode::Invalideamount)) <==> (!s.locked
                && amount == 0)
            &&& (out == Err::<Seq<TokenInstruction>, _>(AmmErrorCode::SlippageExceeded)) <==> (!s.locked
                && amount != 0 && curve is None)
            &&& (out is Ok && is_x) ==> out.unwrap() == seq![
                TokenInstruction::Transfer {
                    from: PoolAccount::UserX,
                    to: PoolAccount::VaultX,
                    authority: Authority::User,
                    amount: curve.unwrap().deposit,
                },
                TokenInstruction::Transfer {
                    from: PoolAccount::VaultY,
                    to: PoolAccount::UserY,
                    authority: Authority::Config,
                    amount: curve.unwrap().withdraw,
                },
            ]
            &&& (out is Ok && !is_x) ==> out.unwrap() == seq![
                TokenInstruction::Transfer {
                    from: PoolAccount::UserY,
                    to: PoolAccount::VaultY,
                    authority: Authority::User,
                    amount: curve.unwrap().deposit,
                },
                TokenInstruction::Transfer {
                    from: PoolAccount::VaultX,
                    to: PoolAccount::UserX,
                    authority: Authority::Config,
                    amount: curve.unwrap().withdraw,
                },
            ]
        }),
{
}

/// The first checks refuse a locked pool with `PoolLocked`, then a zero
/// amount with `Invalideamount`, and pass everything else. A pool is empty
/// exactly when it has no LP supply and both vaults are empty. The curve is
/// consulted exactly when these checks pass, and for a deposit only when the
/// pool is not empty.
pub proof fn checks_and_curve_consultation(d: Deposit, w: Withdraw, s: Swap, locked: bool, amount: u64)
    ensures
        precheck(locked, amount) == (if locked {
            Some(AmmErrorCode::PoolLocked)
        } else if amount == 0 {
            Some(AmmErrorCode::Invalideamount)
        } else {
            None::<AmmErrorCode>
        }),
        d.empty_pool() <==> (d.lp_supply == 0 && d.vault_x_amount == 0 && d.vault_y_amount == 0),
        d.needs_curve(amount) <==> (!d.locked && amount != 0 && !(d.lp_supply == 0 && d.vault_x_amount
            == 0 && d.vault_y_amount == 0)),
        w.needs_curve(amount) <==> (!w.locked && amount != 0),
        s.needs_curve(amount) <==> (!s.locked && amount != 0),
{
}

} // verus!
