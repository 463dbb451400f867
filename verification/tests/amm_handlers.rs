use turbine_programs::amm::curve::{check_open_and_nonzero, SwapAmounts, XYAmounts};
use turbine_programs::amm::deposit::Deposit;
use turbine_programs::amm::error::AmmErrorCode;
use turbine_programs::amm::swap::Swap;
use turbine_programs::amm::token::{Authority, PoolAccount, TokenInstruction};
use turbine_programs::amm::withdraw::Withdraw;

fn transfer(from: PoolAccount, to: PoolAccount, authority: Authority, amount: u64) -> TokenInstruction {
    TokenInstruction::Transfer { from, to, authority, amount }
}

fn open_deposit() -> Deposit {
    Deposit { locked: false, vault_x_amount: 1_000, vault_y_amount: 4_000, lp_supply: 2_000 }
}

fn open_withdraw() -> Withdraw {
    Withdraw { locked: false, vault_x_amount: 1_000, vault_y_amount: 4_000, lp_supply: 2_000 }
}

fn open_swap() -> Swap {
    Swap { locked: false, vault_x_amount: 1_000, vault_y_amount: 4_000, lp_supply: 2_000, fee: 30 }
}

#[test]
fn precheck_order() {
    assert_eq!(check_open_and_nonzero(true, 0), Err(AmmErrorCode::PoolLocked));
    assert_eq!(check_open_and_nonzero(true, 5), Err(AmmErrorCode::PoolLocked));
    assert_eq!(check_open_and_nonzero(false, 0), Err(AmmErrorCode::Invalideamount));
    assert_eq!(check_open_and_nonzero(false, 5), Ok(()));
}

#[test]
fn deposit_into_locked_pool_is_refused() {
    let d = Deposit { locked: true, ..open_deposit() };
    assert_eq!(d.deposit(10, 100, 100, Some(XYAmounts { x: 5, y: 20 })), Err(AmmErrorCode::PoolLocked));
    assert!(!d.needs_curve_amounts(10));
}

#[test]
fn deposit_of_zero_is_refused() {
    let d = open_deposit();
    assert_eq!(d.deposit(0, 100, 100, None), Err(AmmErrorCode::Invalideamount));
    assert!(!d.needs_curve_amounts(0));
}

#[test]
fn first_deposit_pays_the_maxima() {
    let d = Deposit { locked: false, vault_x_amount: 0, vault_y_amount: 0, lp_supply: 0 };
    assert!(d.is_empty_pool());
    assert!(!d.needs_curve_amounts(500));
    let ixs = d.deposit(500, 70, 90, None).unwrap();
    assert_eq!(
        ixs,
        vec![
            transfer(PoolAccount::UserX, PoolAccount::VaultX, Authority::User, 70),
            transfer(PoolAccount::UserY, PoolAccount::VaultY, Authority::User, 90),
            TokenInstruction::MintTo { to: PoolAccount::UserLp, amount: 500 },
        ]
    );
}

#[test]
fn pool_with_only_lp_supply_is_not_empty() {
    let d = Deposit { locked: false, vault_x_amount: 0, vault_y_amount: 0, lp_supply: 1 };
    assert!(!d.is_empty_pool());
    assert!(d.needs_curve_amounts(3));
}

#[test]
fn deposit_pays_the_curve_amounts() {
    let d = open_deposit();
    assert!(d.needs_curve_amounts(200));
    let ixs = d.deposit(200, 100, 400, Some(XYAmounts { x: 100, y: 400 })).unwrap();
    assert_eq!(
        ixs,
        vec![
            transfer(PoolAccount::UserX, PoolAccount::VaultX, Authority::User, 100),
            transfer(PoolAccount::UserY, PoolAccount::VaultY, Authority::User, 400),
            TokenInstruction::MintTo { to: PoolAccount::UserLp, amount: 200 },
        ]
    );
}

#[test]
fn deposit_over_a_maximum_is_refused() {
    let d = open_deposit();
    let curve = Some(XYAmounts { x: 100, y: 400 });
    assert_eq!(d.deposit(200, 99, 400, curve), Err(AmmErrorCode::SlippageExceeded));
    assert_eq!(d.deposit(200, 100, 399, curve), Err(AmmErrorCode::SlippageExceeded));
}

#[test]
fn deposit_building_blocks() {
    let d = open_deposit();
    assert_eq!(
        d.deposit_tokens(PoolAccount::UserY, PoolAccount::VaultY, Authority::User, 12),
        transfer(PoolAccount::UserY, PoolAccount::VaultY, Authority::User, 12)
    );
    assert_eq!(d.mint_lp_tokens(7), TokenInstruction::MintTo { to: PoolAccount::UserLp, amount: 7 });
}

#[test]
fn withdraw_from_locked_pool_is_refused() {
    let w = Withdraw { locked: true, ..open_withdraw() };
    assert_eq!(w.withdraw(10, 0, 0, None), Err(AmmErrorCode::PoolLocked));
    assert!(!w.needs_curve_amounts(10));
}

#[test]
fn withdraw_of_zero_is_refused() {
    let w = open_withdraw();
    assert_eq!(w.withdraw(0, 0, 0, None), Err(AmmErrorCode::Invalideamount));
}

#[test]
fn withdraw_burns_then_pays_out() {
    let w = open_withdraw();
    assert!(w.needs_curve_amounts(200));
    let ixs = w.withdraw(200, 100, 400, Some(XYAmounts { x: 100, y: 400 })).unwrap();
    assert_eq!(
        ixs,
        vec![
            TokenInstruction::Burn { from: PoolAccount::UserLp, authority: Authority::User, amount: 200 },
            transfer(PoolAccount::VaultX, PoolAccount::UserX, Authority::Config, 100),
            transfer(PoolAccount::VaultY, PoolAccount::UserY, Authority::Config, 400),
        ]
    );
}

#[test]
fn withdraw_under_a_minimum_is_refused() {
    let w = open_withdraw();
    let curve = Some(XYAmounts { x: 100, y: 400 });
    assert_eq!(w.withdraw(200, 101, 400, curve), Err(AmmErrorCode::SlippageExceeded));
    assert_eq!(w.withdraw(200, 100, 401, curve), Err(AmmErrorCode::SlippageExceeded));
}

#[test]
fn withdraw_building_blocks() {
    let w = open_withdraw();
    assert_eq!(
        w.burn_lp_tokens(9),
        TokenInstruction::Burn { from: PoolAccount::UserLp, authority: Authority::User, amount: 9 }
    );
    assert_eq!(
        w.withdraw_tokens(PoolAccount::VaultX, PoolAccount::UserX, Authority::Config, 3),
        transfer(PoolAccount::VaultX, PoolAccount::UserX, Authority::Config, 3)
    );
}

#[test]
fn swap_on_locked_pool_is_refused() {
    let s = Swap { locked: true, ..open_swap() };
    assert_eq!(s.swap(true, 10, Some(SwapAmounts { deposit: 10, withdraw: 30 })), Err(AmmErrorCode::PoolLocked));
    assert!(!s.needs_curve_amounts(10));
}

#[test]
fn swap_of_zero_is_refused() {
    let s = open_swap();
    assert_eq!(s.swap(false, 0, None), Err(AmmErrorCode::Invalideamount));
}

#[test]
fn swap_refused_by_curve_is_slippage() {
    let s = open_swap();
    assert!(s.needs_curve_amounts(10));
    assert_eq!(s.swap(true, 10, None), Err(AmmErrorCode::SlippageExceeded));
}

#[test]
fn swap_x_for_y() {
    let s = open_swap();
    let ixs = s.swap(true, 10, Some(SwapAmounts { deposit: 10, withdraw: 39 })).unwrap();
    assert_eq!(
        ixs,
        vec![
            transfer(PoolAccount::UserX, PoolAccount::VaultX, Authority::User, 10),
            transfer(PoolAccount::VaultY, PoolAccount::UserY, Authority::Config, 39),
        ]
    );
}

#[test]
fn swap_y_for_x() {
    let s = open_swap();
    let ixs = s.swap(false, 40, Some(SwapAmounts { deposit: 40, withdraw: 9 })).unwrap();
    assert_eq!(
        ixs,
        vec![
            transfer(PoolAccount::UserY, PoolAccount::VaultY, Authority::User, 40),
            transfer(PoolAccount::VaultX, PoolAccount::UserX, Authority::Config, 9),
        ]
    );
}

#[test]
fn swap_account_selection() {
    let s = open_swap();
    assert_eq!(s.get_accounts(true), (PoolAccount::VaultX, PoolAccount::UserX));
    assert_eq!(s.get_accounts(false), (PoolAccount::VaultY, PoolAccount::UserY));
    assert_eq!(s.deposit_tokens(false, 4), transfer(PoolAccount::UserY, PoolAccount::VaultY, Authority::User, 4));
    assert_eq!(s.withdraw_tokens(false, 4), transfer(PoolAccount::VaultX, PoolAccount::UserX, Authority::Config, 4));
}

#[test]
fn every_emitted_debit_is_signed_by_its_owner() {
    let mut all = Vec::new();
    all.extend(open_deposit().deposit(5, 10, 10, Some(XYAmounts { x: 1, y: 2 })).unwrap());
    all.extend(open_withdraw().withdraw(5, 0, 0, Some(XYAmounts { x: 1, y: 2 })).unwrap());
    all.extend(open_swap().swap(true, 5, Some(SwapAmounts { deposit: 5, withdraw: 3 })).unwrap());
    all.extend(open_swap().swap(false, 5, Some(SwapAmounts { deposit: 5, withdraw: 3 })).unwrap());
    for ix in all {
        match ix {
            TokenInstruction::Transfer { from, authority, .. } => {
                let owner = match from {
                    PoolAccount::VaultX | PoolAccount::VaultY => Authority::Config,
                    _ => Authority::User,
                };
                assert_eq!(authority, owner);
            }
            TokenInstruction::MintTo { to, .. } => assert_eq!(to, PoolAccount::UserLp),
            TokenInstruction::Burn { from, authority, .. } => {
                assert_eq!(from, PoolAccount::UserLp);
                assert_eq!(authority, Authority::User);
            }
        }
    }
}
