use hashmelody::accounts::{Mint, Wallet};
use hashmelody::address::Address;
use hashmelody::error::{ErrorKind, TokenError};
use hashmelody::instructions::purchase_token;
use hashmelody::instructions::purchase_token::{
    split_cost, Outcome, PurchaseAction, PurchaseQuote, PurchaseStage, PurchaseToken,
};
use hashmelody::state::mint_authority::{Issuance, MintAuthority};
use hashmelody::state::oracle::{PriceParameters, ViewershipOracle};
use hashmelody::state::platform_config::PlatformConfig;
use hashmelody::state::token_vault::TokenVault;

fn key(b: u8) -> Address {
    Address::new([b; 32])
}

const BUYER: u8 = 10;
const TREASURY: u8 = 1;
const COLLECTOR: u8 = 20;
const TOKEN: u8 = 9;
const BUYER_TOKENS: u8 = 11;

fn accounts(lamports: u64, supply: u64, views: u64) -> PurchaseToken {
    let mut vault = TokenVault::new(key(TOKEN), 250);
    vault.setup(key(21), key(COLLECTOR)).unwrap();
    let mut oracle = ViewershipOracle::new(key(TOKEN), 0, 251);
    oracle.view_count = views;
    PurchaseToken {
        buyer: Wallet { key: key(BUYER), lamports },
        platform_config: PlatformConfig::new(key(TREASURY), key(2), key(3), 254),
        mint_authority: MintAuthority::new(252),
        mint: Mint { key: key(TOKEN), supply },
        buyer_token_account: key(BUYER_TOKENS),
        token_vault: vault,
        oracle,
    }
}

#[test]
fn fee_is_two_and_a_half_percent_rounded_down() {
    assert_eq!(split_cost(1_000_000), Ok((25_000, 975_000)));
    assert_eq!(split_cost(0), Ok((0, 0)));
    assert_eq!(split_cost(39), Ok((0, 39)));
    assert_eq!(split_cost(40), Ok((1, 39)));
    assert_eq!(split_cost(79), Ok((1, 78)));
    assert_eq!(split_cost(1000), Ok((25, 975)));
    assert_eq!(split_cost(1001), Ok((25, 976)));
}

#[test]
fn fee_split_at_the_edge() {
    let last = u64::MAX / 25;
    assert_eq!(last, 737_869_762_948_382_064);
    assert_eq!(split_cost(last), Ok((18_446_744_073_709_551, last - 18_446_744_073_709_551)));
    assert_eq!(split_cost(last + 1), Err(TokenError::SupplyOverflow));
    assert_eq!(split_cost(u64::MAX), Err(TokenError::SupplyOverflow));
}

#[test]
fn fee_and_vault_share_add_up() {
    let mut t: u64 = 0;
    while t < 5000 {
        let (fee, rest) = split_cost(t).unwrap();
        assert_eq!(fee as u128, (t as u128) * 25 / 1000);
        assert_eq!(fee + rest, t);
        t += 1;
    }
    for t in [123_456_789_012u64, 737_869_762_948_382_063, 999_999_999_999_999] {
        let (fee, rest) = split_cost(t).unwrap();
        assert_eq!(fee as u128, (t as u128) * 25 / 1000);
        assert_eq!(fee + rest, t);
    }
}

#[test]
fn purchase_needs_the_total_cost() {
    // 1,000,000 units at the floor price cost 10^12 base units
    let ctx = accounts(999_999_999_999, 0, 0);
    let r = purchase_token::handler(ctx, 1_000_000);
    assert_eq!(r, Err(TokenError::InsufficientFunds));
    assert_eq!(r.unwrap_err().kind(), ErrorKind::InsufficientFunds);
    let ctx = accounts(1_000_000_000_000, 0, 0);
    assert!(purchase_token::handler(ctx, 1_000_000).is_ok());
}

#[test]
fn purchase_of_one_unit_end_to_end() {
    // default factors, no supply, no views: one unit costs 1,000,000
    let ctx = accounts(3_000_000, 0, 0);
    let mut purchase = purchase_token::handler(ctx, 1).unwrap();
    assert_eq!(
        purchase.quote(),
        PurchaseQuote {
            amount_tokens: 1,
            price_per_token: 1_000_000,
            total_cost: 1_000_000,
            platform_fee: 25_000,
            vault_amount: 975_000,
            new_supply: 1,
            new_total_collected: 975_000,
            liquidity_ready: false,
        }
    );
    assert_eq!(
        purchase.next_action(),
        PurchaseAction::Transfer { from: key(BUYER), to: key(TREASURY), lamports: 25_000 }
    );
    purchase.advance(Outcome::Succeeded);
    assert_eq!(purchase.stage(), PurchaseStage::PayVault);
    assert_eq!(purchase.accounts(), ctx);
    assert_eq!(
        purchase.next_action(),
        PurchaseAction::Transfer { from: key(BUYER), to: key(COLLECTOR), lamports: 975_000 }
    );
    purchase.advance(Outcome::Succeeded);
    assert_eq!(purchase.stage(), PurchaseStage::IssueTokens);
    assert_eq!(purchase.accounts(), ctx);
    assert_eq!(
        purchase.next_action(),
        PurchaseAction::Issue(Issuance {
            mint: key(TOKEN),
            destination: key(BUYER_TOKENS),
            amount: 1,
            authority_bump: 252,
        })
    );
    purchase.advance(Outcome::Succeeded);
    assert_eq!(purchase.stage(), PurchaseStage::Settled);
    assert_eq!(purchase.next_action(), PurchaseAction::Nothing);
    let after = purchase.accounts();
    assert_eq!(after.token_vault.total_collected, 975_000);
    assert_eq!(after.mint.supply, 1);
    assert_eq!(after.buyer.lamports, 2_000_000);
    // nothing else has changed
    let mut expected = ctx;
    expected.token_vault.total_collected = 975_000;
    expected.mint.supply = 1;
    expected.buyer.lamports = 2_000_000;
    assert_eq!(after, expected);
}

#[test]
fn purchase_of_a_million_units_end_to_end() {
    // default factors, no supply, no views: each unit costs the floor price,
    // and the total cost is the price times the units bought
    let ctx = accounts(2_000_000_000_000, 0, 0);
    let mut purchase = purchase_token::handler(ctx, 1_000_000).unwrap();
    let quote = purchase.quote();
    assert_eq!(quote.price_per_token, 1_000_000);
    assert_eq!(quote.total_cost, 1_000_000_000_000);
    assert_eq!(quote.platform_fee, 25_000_000_000);
    assert_eq!(quote.vault_amount, 975_000_000_000);
    assert_eq!(quote.new_total_collected, 975_000_000_000);
    assert_eq!(quote.new_supply, 1_000_000);
    assert!(quote.liquidity_ready);
    purchase.advance(Outcome::Succeeded);
    purchase.advance(Outcome::Succeeded);
    assert_eq!(
        purchase.next_action(),
        PurchaseAction::Issue(Issuance {
            mint: key(TOKEN),
            destination: key(BUYER_TOKENS),
            amount: 1_000_000,
            authority_bump: 252,
        })
    );
    purchase.advance(Outcome::Succeeded);
    assert_eq!(purchase.accounts().token_vault.total_collected, 975_000_000_000);
    assert_eq!(purchase.accounts().mint.supply, 1_000_000);
    assert_eq!(purchase.accounts().buyer.lamports, 1_000_000_000_000);
}

#[test]
fn purchase_of_nothing_is_invalid() {
    let ctx = accounts(u64::MAX, 0, 0);
    let r = purchase_token::handler(ctx, 0);
    assert_eq!(r, Err(TokenError::InvalidAmount));
    assert_eq!(r.unwrap_err().kind(), ErrorKind::Validation);
    assert_eq!(purchase_token::quote(&ctx, 0), Err(TokenError::InvalidAmount));
}

#[test]
fn supply_overflow_is_refused_before_any_transfer() {
    let ctx = accounts(u64::MAX, u64::MAX - 5, 0);
    let r = purchase_token::handler(ctx, 6);
    assert_eq!(r, Err(TokenError::SupplyOverflow));
    assert_eq!(r.unwrap_err().kind(), ErrorKind::ArithmeticOverflow);
    let r = purchase_token::handler(accounts(u64::MAX, u64::MAX, 0), 1);
    assert_eq!(r, Err(TokenError::SupplyOverflow));
    let r = purchase_token::handler(accounts(u64::MAX, 1, 0), u64::MAX);
    assert_eq!(r, Err(TokenError::SupplyOverflow));
}

#[test]
fn supply_may_reach_the_last_number() {
    // at this supply one unit costs the quadratic term alone
    let ctx = accounts(u64::MAX, u64::MAX - 5, 0);
    let purchase = purchase_token::handler(ctx, 5).unwrap();
    assert_eq!(purchase.quote().new_supply, u64::MAX);
    assert_eq!(purchase.quote().price_per_token, 34_028_236);
    assert_eq!(purchase.quote().total_cost, 170_141_180);
}

#[test]
fn total_cost_overflow_is_refused() {
    // price 1,000,000 times 2^45 units leaves 64 bits
    let ctx = accounts(u64::MAX, 0, 0);
    assert_eq!(
        purchase_token::handler(ctx, 35_184_372_088_832),
        Err(TokenError::SupplyOverflow)
    );
}

#[test]
fn fee_overflow_is_refused() {
    // the total cost fits, 25 times the total cost does not
    let ctx = accounts(u64::MAX, 0, 0);
    let amount: u64 = 1_000_000_000_000;
    assert_eq!(purchase_token::handler(ctx, amount), Err(TokenError::SupplyOverflow));
    // the largest amount whose fee can be computed
    let amount: u64 = 737_869_762_948;
    let purchase = purchase_token::handler(ctx, amount).unwrap();
    assert_eq!(purchase.quote().total_cost, 737_869_762_948_000_000);
    assert_eq!(purchase.quote().platform_fee, 18_446_744_073_700_000);
    assert_eq!(purchase_token::handler(ctx, amount + 1), Err(TokenError::SupplyOverflow));
}

#[test]
fn price_overflow_is_refused() {
    let mut ctx = accounts(u64::MAX, 0, 101);
    ctx.oracle.price_params = PriceParameters { k: 0, m: u64::MAX };
    assert_eq!(purchase_token::handler(ctx, 1), Err(TokenError::SupplyOverflow));
}

#[test]
fn collected_total_overflow_is_refused() {
    let mut ctx = accounts(u64::MAX, 0, 0);
    ctx.token_vault.total_collected = u64::MAX - 974_999;
    assert_eq!(purchase_token::handler(ctx, 1), Err(TokenError::SupplyOverflow));
    ctx.token_vault.total_collected = u64::MAX - 975_000;
    let purchase = purchase_token::handler(ctx, 1).unwrap();
    assert_eq!(purchase.quote().new_total_collected, u64::MAX);
}

#[test]
fn insufficient_funds_come_before_the_collected_overflow() {
    let mut ctx = accounts(999_999, 0, 0);
    ctx.token_vault.total_collected = u64::MAX;
    assert_eq!(purchase_token::handler(ctx, 1), Err(TokenError::InsufficientFunds));
}

#[test]
fn price_is_taken_at_the_supply_before_the_purchase() {
    // at this supply the quadratic term is 2,000,000 with k = 2
    let supply: u64 = 3_162_277_660_168_379_332;
    let mut ctx = accounts(u64::MAX, supply, 0);
    ctx.oracle.price_params = PriceParameters { k: 2, m: 0 };
    let purchase = purchase_token::handler(ctx, 3).unwrap();
    assert_eq!(purchase.quote().price_per_token, 2_000_000);
    assert_eq!(purchase.quote().total_cost, 6_000_000);
    assert_eq!(purchase.quote().platform_fee, 150_000);
    assert_eq!(purchase.quote().vault_amount, 5_850_000);
    assert_eq!(purchase.quote().new_supply, supply + 3);
}

#[test]
fn failed_issuance_leaves_the_vault_as_it_was() {
    let mut ctx = accounts(3_000_000, 0, 0);
    ctx.token_vault.total_collected = 4_000;
    let mut purchase = purchase_token::handler(ctx, 1).unwrap();
    purchase.advance(Outcome::Succeeded);
    purchase.advance(Outcome::Succeeded);
    assert_eq!(purchase.stage(), PurchaseStage::IssueTokens);
    purchase.advance(Outcome::Failed);
    assert_eq!(purchase.stage(), PurchaseStage::Aborted);
    assert_eq!(purchase.accounts().token_vault.total_collected, 4_000);
    assert_eq!(purchase.accounts(), ctx);
    assert_eq!(purchase.next_action(), PurchaseAction::Nothing);
}

#[test]
fn failed_transfer_aborts_the_purchase() {
    let ctx = accounts(3_000_000, 0, 0);
    let mut purchase = purchase_token::handler(ctx, 1).unwrap();
    purchase.advance(Outcome::Failed);
    assert_eq!(purchase.stage(), PurchaseStage::Aborted);
    assert_eq!(purchase.accounts(), ctx);
    let mut purchase = purchase_token::handler(ctx, 1).unwrap();
    purchase.advance(Outcome::Succeeded);
    purchase.advance(Outcome::Failed);
    assert_eq!(purchase.stage(), PurchaseStage::Aborted);
    assert_eq!(purchase.accounts(), ctx);
}

#[test]
fn finished_purchase_stays_as_it_is() {
    let ctx = accounts(3_000_000, 0, 0);
    let mut purchase = purchase_token::handler(ctx, 1).unwrap();
    purchase.advance(Outcome::Failed);
    let aborted = purchase;
    purchase.advance(Outcome::Succeeded);
    purchase.advance(Outcome::Succeeded);
    purchase.advance(Outcome::Succeeded);
    assert_eq!(purchase, aborted);
    let mut purchase = purchase_token::handler(ctx, 1).unwrap();
    purchase.advance(Outcome::Succeeded);
    purchase.advance(Outcome::Succeeded);
    purchase.advance(Outcome::Succeeded);
    let settled = purchase;
    purchase.advance(Outcome::Failed);
    purchase.advance(Outcome::Succeeded);
    assert_eq!(purchase, settled);
    assert_eq!(purchase.accounts().token_vault.total_collected, 975_000);
}

#[test]
fn purchase_is_all_or_nothing_for_every_run_of_reports() {
    let ctx = accounts(3_000_000, 0, 0);
    // every run of four reports
    for bits in 0..16u32 {
        let mut purchase = purchase_token::handler(ctx, 1).unwrap();
        for step in 0..4 {
            let outcome = if bits & (1 << step) != 0 { Outcome::Succeeded } else { Outcome::Failed };
            purchase.advance(outcome);
        }
        if bits & 7 == 7 {
            assert_eq!(purchase.stage(), PurchaseStage::Settled);
            assert_eq!(purchase.accounts().token_vault.total_collected, 975_000);
            assert_eq!(purchase.accounts().mint.supply, 1);
        } else {
            assert_eq!(purchase.stage(), PurchaseStage::Aborted);
            assert_eq!(purchase.accounts(), ctx);
        }
    }
}

#[test]
fn liquidity_signal_is_raised_at_the_threshold() {
    let mut ctx = accounts(3_000_000, 0, 0);
    ctx.token_vault.liquidity_threshold = 975_001;
    assert!(!purchase_token::handler(ctx, 1).unwrap().quote().liquidity_ready);
    ctx.token_vault.liquidity_threshold = 975_000;
    assert!(purchase_token::handler(ctx, 1).unwrap().quote().liquidity_ready);
    // the signal does not ask for a pool to exist
    assert_eq!(ctx.token_vault.raydium_pool, None);
}

#[test]
fn quote_changes_nothing() {
    let ctx = accounts(3_000_000, 0, 0);
    let copy = ctx;
    let q = purchase_token::quote(&ctx, 2).unwrap();
    assert_eq!(q.total_cost, 2_000_000);
    assert_eq!(ctx, copy);
}
