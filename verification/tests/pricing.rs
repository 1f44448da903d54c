use hashmelody::curve::{
    calculate_price, quadratic_term_of, FLOOR_PRICE, PARTS_PER_UNIT, QUADRATIC_DIVISOR,
};
use hashmelody::error::TokenError;
use hashmelody::sqrt::{sqrt_scaled, sqrt_u64};
use hashmelody::wide::U256;

#[test]
fn sqrt_of_small_numbers_is_rounded_down() {
    assert_eq!(sqrt_u64(0), 0);
    assert_eq!(sqrt_u64(1), 1);
    assert_eq!(sqrt_u64(2), 1);
    assert_eq!(sqrt_u64(3), 1);
    assert_eq!(sqrt_u64(4), 2);
    assert_eq!(sqrt_u64(8), 2);
    assert_eq!(sqrt_u64(9), 3);
    assert_eq!(sqrt_u64(1_000_000), 1000);
    assert_eq!(sqrt_u64(999_999), 999);
}

#[test]
fn sqrt_of_the_largest_number() {
    assert_eq!(sqrt_u64(u64::MAX), 4_294_967_295);
    assert_eq!(sqrt_u64(4_294_967_295 * 4_294_967_295), 4_294_967_295);
    assert_eq!(sqrt_u64(4_294_967_295 * 4_294_967_295 - 1), 4_294_967_294);
}

#[test]
fn scaled_sqrt_keeps_the_fraction_of_the_root() {
    // 3 * sqrt(2) = 4.24...
    assert_eq!(sqrt_scaled(3, 2), 4);
    // 10^9 * sqrt(2) = 1414213562.37...
    assert_eq!(sqrt_scaled(1_000_000_000, 2), 1_414_213_562);
    assert_eq!(sqrt_scaled(7, 49), 49);
    assert_eq!(sqrt_scaled(0, 12345), 0);
    assert_eq!(sqrt_scaled(12345, 0), 0);
    assert_eq!(sqrt_scaled(1, 17), 4);
}

#[test]
fn scaled_sqrt_of_the_largest_numbers() {
    assert_eq!(sqrt_scaled(u64::MAX, u64::MAX), 79_228_162_514_264_337_587_101_499_392);
}

#[test]
fn price_floor_at_launch() {
    assert_eq!(calculate_price(0, 0, 1, 100), Ok(1_000_000));
    assert_eq!(FLOOR_PRICE, 1_000_000);
}

#[test]
fn price_stays_at_the_floor_while_the_terms_are_small() {
    // 100 * sqrt(2) / 10 = 14.1...
    assert_eq!(calculate_price(2, 0, 1, 100), Ok(1_000_000));
    assert_eq!(calculate_price(1_000_000, 1_000_000_000, 1, 100), Ok(1_000_000));
}

#[test]
fn view_term_alone() {
    // sqrt(10^12) = 10^6, times 100, by 10
    assert_eq!(calculate_price(1_000_000_000_000, 0, 1, 100), Ok(10_000_000));
    // 10^9 * sqrt(2) / 10 = 141421356.2...
    assert_eq!(calculate_price(2, 0, 1, 1_000_000_000), Ok(141_421_356));
    // 10^7 * sqrt(5) / 10 = 2236067.97...
    assert_eq!(calculate_price(5, 0, 0, 10_000_000), Ok(2_236_067));
}

#[test]
fn quadratic_term_alone() {
    // k = 1.0, supply = 1000 scaled units: 1000^2 * 10^5
    assert_eq!(
        calculate_price(0, 1_000_000_000_000_000, 1_000_000_000_000, 0),
        Ok(100_000_000_000)
    );
    assert_eq!(
        quadratic_term_of(1_000_000_000_000, 1_000_000_000_000_000),
        (100_000_000_000, 0)
    );
    assert_eq!(quadratic_term_of(1, 0), (0, 0));
    assert_eq!(quadratic_term_of(0, u64::MAX), (0, 0));
}

#[test]
fn quadratic_term_with_what_is_left_over() {
    assert_eq!(
        quadratic_term_of(2, 3_162_277_660_168_379_332),
        (2_000_000, 13_995_678_889_532_448)
    );
    assert_eq!(
        quadratic_term_of(777, 987_654_321_987_654_321),
        (75_793_324, 3_418_673_983_420_548_239_616_807_498_857)
    );
    assert_eq!(
        quadratic_term_of(u64::MAX, u64::MAX),
        (627_710_173_538_668_076_281_494_232, 2_444_851_025_767_571_854_389_858_533_375)
    );
    assert_eq!(quadratic_term_of(7_378_697_629_483_820_646, 5_000_000_000_000_000), (u64::MAX as u128, 0));
}

#[test]
fn products_of_256_bits() {
    let p = U256::mul_wide(u128::MAX, u128::MAX);
    assert_eq!((p.hi, p.lo), (u128::MAX - 1, 1));
    let p = U256::mul_wide(1 << 64, 1 << 64);
    assert_eq!((p.hi, p.lo), (1, 0));
    let p = U256::mul_wide(0x1234_5678_9abc_def0_1122_3344_5566_7788, 0xffee_ddcc_bbaa_9988_7766_5544_3322_1100);
    assert_eq!(
        (p.hi, p.lo),
        (
            0x1233_1e90_43f5_602f_4050_3ce4_23d9_e41f,
            0xd43e_21c3_6751_c70a_3e96_3337_c600_0800
        )
    );
    let p = U256::mul_wide(0, u128::MAX);
    assert_eq!((p.hi, p.lo), (0, 0));
    let small = U256 { hi: 1, lo: 5 };
    let large = U256 { hi: 2, lo: 3 };
    assert!(small.lt(&large) && small.le(&large) && !large.lt(&small) && !large.le(&small));
    assert!(small.le(&small) && !small.lt(&small));
    let d = large.checked_sub(&small).unwrap();
    assert_eq!((d.hi, d.lo), (0, u128::MAX - 1));
    assert!(small.checked_sub(&large).is_none());
    let d = large.checked_sub(&large).unwrap();
    assert_eq!((d.hi, d.lo), (0, 0));
}

#[test]
fn the_sum_is_rounded_once() {
    assert_eq!(PARTS_PER_UNIT, 10 * QUADRATIC_DIVISOR);
    // the terms are 0.5 and 2000000.50002: together 2000001.00002
    assert_eq!(calculate_price(40_000_020_001, 1_000_000_000_000, 5_000_000, 100), Ok(2_000_001));
    // 0.5 and 1000000.5 make 1000001 exactly
    let views: u64 = 4_000_004_000_001;
    assert_eq!(calculate_price(views, 1_000_000_000_000, 5_000_000, 5), Ok(1_000_001));
    // a little less on either side does not reach it
    assert_eq!(calculate_price(views, 1_000_000_000_000, 4_999_999, 5), Ok(1_000_000));
    assert_eq!(calculate_price(views - 1, 1_000_000_000_000, 5_000_000, 5), Ok(1_000_000));
    assert_eq!(calculate_price(views + 1, 1_000_000_000_000, 5_000_000, 5), Ok(1_000_001));
    // 0.5 and 5000000 stay at 5000000
    assert_eq!(calculate_price(25, 1_000_000_000_000, 5_000_000, 10_000_000), Ok(5_000_000));
}

#[test]
fn a_sum_beyond_64_bits_by_a_fraction_is_refused() {
    let k: u64 = 7_378_697_629_483_820_646;
    let supply: u64 = 5_000_000_000_000_000;
    // the quadratic term is u64::MAX exactly
    assert_eq!(calculate_price(0, supply, k, 0), Ok(u64::MAX));
    assert_eq!(calculate_price(0, supply, k, 5), Ok(u64::MAX));
    assert_eq!(calculate_price(1, supply, k, 0), Ok(u64::MAX));
    // and the view term adds 0.5, or 0.1
    assert_eq!(calculate_price(1, supply, k, 5), Err(TokenError::SupplyOverflow));
    assert_eq!(calculate_price(1, supply, k, 1), Err(TokenError::SupplyOverflow));
}

#[test]
fn quadratic_term_is_rounded_down_at_the_divisor() {
    assert_eq!(QUADRATIC_DIVISOR, 10_000_000_000_000_000_000_000_000_000_000);
    // the least supply whose square reaches 10^37
    let supply: u64 = 3_162_277_660_168_379_332;
    assert_eq!(calculate_price(0, supply, 2, 0), Ok(2_000_000));
    assert_eq!(calculate_price(0, supply - 1, 2, 0), Ok(1_999_999));
}

#[test]
fn both_terms_are_added() {
    assert_eq!(calculate_price(1_000_000_000_000, 10_000_000_000_000_000, 1, 100), Ok(10_000_010));
    assert_eq!(calculate_price(123_456_789, 987_654_321_987_654_321, 777, 31337), Ok(110_612_213));
    assert_eq!(calculate_price(u64::MAX, u64::MAX, 1, 100), Ok(42_983_701_196));
}

#[test]
fn price_at_the_edge_of_64_bits() {
    // u64::MAX * sqrt(100) / 10 is u64::MAX itself
    assert_eq!(calculate_price(100, 0, 0, u64::MAX), Ok(u64::MAX));
    assert_eq!(calculate_price(99, 0, 0, u64::MAX), Ok(18_354_278_608_861_996_861));
    assert_eq!(calculate_price(101, 0, 0, u64::MAX), Err(TokenError::SupplyOverflow));
}

#[test]
fn quadratic_term_at_the_edge_of_64_bits() {
    assert_eq!(
        calculate_price(0, 3_162_277_660_168_379, u64::MAX, 0),
        Ok(18_446_744_073_709_547_741)
    );
    assert_eq!(
        calculate_price(0, 3_162_277_660_168_380, u64::MAX, 0),
        Err(TokenError::SupplyOverflow)
    );
}

#[test]
fn price_overflows_for_the_largest_inputs() {
    assert_eq!(
        calculate_price(u64::MAX, u64::MAX, u64::MAX, u64::MAX),
        Err(TokenError::SupplyOverflow)
    );
}

#[test]
fn price_never_falls_on_a_grid() {
    let views: [u64; 6] = [0, 1, 2, 1_000_000, 1_000_000_000_000, u64::MAX];
    let supplies: [u64; 6] = [0, 1, 1_000_000_000_000, 3_162_277_660_168_379_332, 10_000_000_000_000_000_000, u64::MAX];
    for k in [1u64, 1_000_000] {
        for m in [100u64, 1_000_000_000] {
            for vi in 0..views.len() {
                for si in 0..supplies.len() {
                    let here = calculate_price(views[vi], supplies[si], k, m).unwrap();
                    assert!(here >= FLOOR_PRICE);
                    if vi + 1 < views.len() {
                        assert!(calculate_price(views[vi + 1], supplies[si], k, m).unwrap() >= here);
                    }
                    if si + 1 < supplies.len() {
                        assert!(calculate_price(views[vi], supplies[si + 1], k, m).unwrap() >= here);
                    }
                }
            }
        }
    }
}
