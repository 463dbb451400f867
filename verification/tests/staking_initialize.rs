use turbine_programs::staking::config::Config;
use turbine_programs::staking::error::ErrorCode;
use turbine_programs::staking::initialize::{initialize, Initialize, InitializeBumps};

fn blank() -> Initialize {
    Initialize { config: Config { rewards_bps: 0, min_freeze_period_in_days: 0, rewards_bump: 0, bump: 0 } }
}

#[test]
fn init_writes_the_config() {
    let mut accounts = blank();
    let r: Result<(), ErrorCode> = accounts.init(250, 7, InitializeBumps { config: 254, rewards_mint: 253 });
    assert_eq!(r, Ok(()));
    assert_eq!(
        accounts.config,
        Config { rewards_bps: 250, min_freeze_period_in_days: 7, rewards_bump: 253, bump: 254 }
    );
}

#[test]
fn initialize_instruction_forwards_to_init() {
    let mut accounts = blank();
    assert_eq!(initialize(&mut accounts, InitializeBumps { config: 1, rewards_mint: 2 }, 1000, 30), Ok(()));
    assert_eq!(
        accounts.config,
        Config { rewards_bps: 1000, min_freeze_period_in_days: 30, rewards_bump: 2, bump: 1 }
    );
}

#[test]
fn init_overwrites_an_earlier_config() {
    let mut accounts = blank();
    accounts.init(1, 1, InitializeBumps { config: 9, rewards_mint: 8 }).unwrap();
    accounts.init(u16::MAX, u16::MAX, InitializeBumps { config: 255, rewards_mint: 0 }).unwrap();
    assert_eq!(
        accounts.config,
        Config { rewards_bps: u16::MAX, min_freeze_period_in_days: u16::MAX, rewards_bump: 0, bump: 255 }
    );
}
