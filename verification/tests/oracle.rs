use hashmelody::accounts::Mint;
use hashmelody::address::Address;
use hashmelody::error::{ErrorKind, TokenError};
use hashmelody::instructions::get_token_price;
use hashmelody::instructions::get_token_price::GetTokenPrice;
use hashmelody::instructions::update_oracle;
use hashmelody::instructions::update_oracle::UpdateOracle;
use hashmelody::state::oracle::{PriceParameters, ViewReport, ViewershipOracle, DEFAULT_K, DEFAULT_M};
use hashmelody::state::platform_config::PlatformConfig;

fn key(b: u8) -> Address {
    Address::new([b; 32])
}

fn config() -> PlatformConfig {
    PlatformConfig::new(key(1), key(2), key(3), 254)
}

#[test]
fn new_oracle_has_no_views_and_default_factors() {
    let oracle = ViewershipOracle::new(key(9), 1_700_000_000, 255);
    assert_eq!(oracle.mint, key(9));
    assert_eq!(oracle.view_count, 0);
    assert_eq!(oracle.last_updated, 1_700_000_000);
    assert_eq!(oracle.price_params, PriceParameters { k: 1, m: 100 });
    assert_eq!(oracle.bump, 255);
    assert_eq!(DEFAULT_K, 1);
    assert_eq!(DEFAULT_M, 100);
    assert_eq!(ViewershipOracle::INIT_SPACE, 73);
}

#[test]
fn oracle_prices_by_its_own_count_and_factors() {
    let mut oracle = ViewershipOracle::new(key(9), 0, 255);
    assert_eq!(oracle.calculate_price(0), Ok(1_000_000));
    oracle.view_count = 1_000_000_000_000;
    assert_eq!(oracle.calculate_price(0), Ok(10_000_000));
    assert_eq!(oracle.calculate_price(10_000_000_000_000_000), Ok(10_000_010));
    oracle.price_params = PriceParameters { k: 0, m: u64::MAX };
    assert_eq!(oracle.calculate_price(0), Err(TokenError::SupplyOverflow));
}

#[test]
fn update_by_the_authority_is_written() {
    let mut oracle = ViewershipOracle::new(key(9), 10, 255);
    assert_eq!(oracle.update_view_count(&config(), &key(2), 500, 20), Ok(()));
    assert_eq!(oracle.view_count, 500);
    assert_eq!(oracle.last_updated, 20);
    assert_eq!(oracle.mint, key(9));
    assert_eq!(oracle.price_params, PriceParameters { k: 1, m: 100 });
    // the same count again is no regress
    assert_eq!(oracle.update_view_count(&config(), &key(2), 500, 30), Ok(()));
    assert_eq!(oracle.view_count, 500);
    assert_eq!(oracle.last_updated, 30);
}

#[test]
fn update_with_a_smaller_count_is_refused_and_changes_nothing() {
    let mut oracle = ViewershipOracle::new(key(9), 10, 255);
    assert_eq!(oracle.update_view_count(&config(), &key(2), 500, 20), Ok(()));
    let before = oracle;
    let r = oracle.update_view_count(&config(), &key(2), 499, 40);
    assert_eq!(r, Err(TokenError::InvalidViewCount));
    assert_eq!(r.unwrap_err().kind(), ErrorKind::Validation);
    assert_eq!(oracle, before);
}

#[test]
fn update_by_a_stranger_is_refused_and_changes_nothing() {
    let mut oracle = ViewershipOracle::new(key(9), 10, 255);
    let before = oracle;
    // not even the admin or the treasury may report
    for who in [key(1), key(3), key(7)] {
        let r = oracle.update_view_count(&config(), &who, 500, 20);
        assert_eq!(r, Err(TokenError::UnauthorizedOracleUpdate));
        assert_eq!(r.unwrap_err().kind(), ErrorKind::Authorization);
        assert_eq!(oracle, before);
    }
}

#[test]
fn stranger_with_a_smaller_count_is_unauthorized_first() {
    let mut oracle = ViewershipOracle::new(key(9), 10, 255);
    oracle.view_count = 100;
    assert_eq!(
        oracle.update_view_count(&config(), &key(7), 1, 20),
        Err(TokenError::UnauthorizedOracleUpdate)
    );
    assert_eq!(oracle.view_count, 100);
}

#[test]
fn view_count_never_decreases_over_a_run_of_reports() {
    let mut oracle = ViewershipOracle::new(key(9), 0, 255);
    let counts: [u64; 8] = [5, 3, 5, 100, 99, 0, u64::MAX, 7];
    let callers: [u8; 8] = [2, 2, 7, 2, 2, 2, 2, 2];
    let mut last = oracle.view_count;
    for i in 0..counts.len() {
        let report = ViewReport {
            config: config(),
            caller: key(callers[i]),
            new_view_count: counts[i],
            now: i as i64,
        };
        let r = oracle.apply(&report);
        assert_eq!(r.is_ok(), callers[i] == 2 && counts[i] >= last);
        assert!(oracle.view_count >= last);
        last = oracle.view_count;
    }
    assert_eq!(oracle.view_count, u64::MAX);
    assert_eq!(oracle.last_updated, 6);
}

fn update_accounts(view_count: u64, supply: u64, signer: u8) -> UpdateOracle {
    let mut oracle = ViewershipOracle::new(key(9), 10, 255);
    oracle.view_count = view_count;
    UpdateOracle {
        oracle,
        mint: Mint { key: key(9), supply },
        platform_config: config(),
        authority: key(signer),
    }
}

#[test]
fn update_instruction_returns_the_new_price() {
    let mut ctx = update_accounts(0, 0, 2);
    assert_eq!(update_oracle::handler(&mut ctx, 1_000_000_000_000, 77), Ok(10_000_000));
    assert_eq!(ctx.oracle.view_count, 1_000_000_000_000);
    assert_eq!(ctx.oracle.last_updated, 77);
    assert_eq!(ctx.mint, Mint { key: key(9), supply: 0 });
    assert_eq!(ctx.platform_config, config());
}

#[test]
fn update_instruction_refuses_strangers_and_regress() {
    let mut ctx = update_accounts(50, 0, 3);
    let before = ctx;
    assert_eq!(
        update_oracle::handler(&mut ctx, 60, 77),
        Err(TokenError::UnauthorizedOracleUpdate)
    );
    assert_eq!(ctx, before);
    let mut ctx = update_accounts(50, 0, 2);
    let before = ctx;
    assert_eq!(update_oracle::handler(&mut ctx, 49, 77), Err(TokenError::InvalidViewCount));
    assert_eq!(ctx, before);
}

#[test]
fn update_instruction_refuses_a_count_whose_price_overflows() {
    let mut ctx = update_accounts(50, 0, 2);
    ctx.oracle.price_params = PriceParameters { k: 0, m: u64::MAX };
    let before = ctx;
    assert_eq!(update_oracle::handler(&mut ctx, 101, 77), Err(TokenError::SupplyOverflow));
    assert_eq!(ctx, before);
    assert_eq!(update_oracle::handler(&mut ctx, 100, 78), Ok(u64::MAX));
    assert_eq!(ctx.oracle.view_count, 100);
}

#[test]
fn price_query_uses_the_circulating_supply() {
    let mut oracle = ViewershipOracle::new(key(9), 10, 255);
    oracle.view_count = 1_000_000_000_000;
    let ctx = GetTokenPrice { mint: Mint { key: key(9), supply: 10_000_000_000_000_000 }, oracle };
    assert_eq!(get_token_price::handler(&ctx), Ok(10_000_010));
    let ctx = GetTokenPrice { mint: Mint { key: key(9), supply: 0 }, oracle };
    assert_eq!(get_token_price::handler(&ctx), Ok(10_000_000));
}
