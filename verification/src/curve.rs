//! The bonding curve: what one token costs, given how many tokens circulate
//! and how often the token's content was viewed.
//!
//! The price is a quadratic term in the supply plus a term in the square
//! root of the view count, and never less than a floor. The two terms are
//! added exactly and their sum is rounded down once, to a whole base unit.
//! A sum beyond 64 bits is refused, however little it is beyond.
//!
//! Everything is computed in whole numbers. Both terms are counted in parts
//! of a base unit, `PARTS_PER_UNIT` to the unit. The quadratic term is then a
//! whole number of parts, and the view term is the square root of one.

use crate::error::TokenError;
use crate::sqrt::{
    floor_sqrt,
    lemma_floor_sqrt,
    lemma_floor_sqrt_is_monotonic,
    lemma_floor_sqrt_reaches,
    lemma_scaled_root,
    sqrt_scaled,
};
use crate::wide::U256;
use vstd::arithmetic::div_mod::{
    lemma_div_denominator,
    lemma_div_is_ordered,
    lemma_fundamental_div_mod,
    lemma_fundamental_div_mod_converse,
    lemma_hoist_over_denominator,
};
use vstd::prelude::*;

verus! {

/// The supply enters the curve divided by this.
pub const SUPPLY_SCALE: u128 = 1_000_000_000_000;

/// The growth factor `k` is counted in units of one over this.
pub const K_SCALE: u128 = 1_000_000_000_000;

/// The view factor `m` is counted in units of one over this.
pub const M_SCALE: u64 = 1_000_000;

/// The sum of the two terms is multiplied by this to give base units.
pub const BASE_UNIT_SCALE: u64 = 100_000;

/// No token is sold for less than this many base units.
pub const FLOOR_PRICE: u64 = 1_000_000;

/// What `k * supply * supply` is divided by to give the quadratic term in
/// base units: the three scales of that term, less the scale of the base
/// unit.
pub const QUADRATIC_DIVISOR: u128 = 10_000_000_000_000_000_000_000_000_000_000;

/// What `m * sqrt(view_count)` is divided by to give the view term in base
/// units: the scale of `m`, less the scale of the base unit.
pub const VIEWS_DIVISOR: u64 = 10;

/// The parts into which a base unit is divided, so that both terms can be
/// counted without fractions: the product of the two divisors.
pub const PARTS_PER_UNIT: u128 = 100_000_000_000_000_000_000_000_000_000_000;

/// The divisors are what the scales amount to.
pub proof fn lemma_divisors()
    ensures
        QUADRATIC_DIVISOR * BASE_UNIT_SCALE == K_SCALE * SUPPLY_SCALE * SUPPLY_SCALE,
        VIEWS_DIVISOR * BASE_UNIT_SCALE == M_SCALE,
        PARTS_PER_UNIT == VIEWS_DIVISOR * QUADRATIC_DIVISOR,
{
    assert(QUADRATIC_DIVISOR * BASE_UNIT_SCALE == K_SCALE * SUPPLY_SCALE * SUPPLY_SCALE)
        by (nonlinear_arith)
        requires
            QUADRATIC_DIVISOR == 10_000_000_000_000_000_000_000_000_000_000,
            BASE_UNIT_SCALE == 100_000,
            K_SCALE == 1_000_000_000_000,
            SUPPLY_SCALE == 1_000_000_000_000,
    ;
}

/// The quadratic term, `k * supply^2 / QUADRATIC_DIVISOR` base units, in
/// parts of a base unit.
pub open spec fn quadratic_parts(k: nat, supply: nat) -> nat {
    10 * k * supply * supply
}

/// The square of the view term in parts of a base unit. The view term is
/// `m * sqrt(view_count) / VIEWS_DIVISOR` base units, which is
/// `QUADRATIC_DIVISOR * m * sqrt(view_count)` parts.
pub open spec fn views_parts_squared(m: nat, view_count: nat) -> nat {
    (QUADRATIC_DIVISOR as nat) * (QUADRATIC_DIVISOR as nat) * m * m * view_count
}

/// The sum of the two terms in base units, rounded down.
pub open spec fn raw_price(view_count: nat, supply: nat, k: nat, m: nat) -> nat {
    (quadratic_parts(k, supply) + floor_sqrt(views_parts_squared(m, view_count))) / (
    PARTS_PER_UNIT as nat)
}

/// Whether the sum of the two terms, not rounded, is more than `bound` base
/// units.
pub open spec fn raw_price_exceeds(view_count: nat, supply: nat, k: nat, m: nat, bound: nat) -> bool {
    let limit = (PARTS_PER_UNIT as nat) * bound;
    let quadratic = quadratic_parts(k, supply);
    quadratic > limit || views_parts_squared(m, view_count) > (limit - quadratic) * (limit
        - quadratic)
}

/// Whether the sum of the two terms is beyond 64 bits.
pub open spec fn price_overflows(view_count: nat, supply: nat, k: nat, m: nat) -> bool {
    raw_price_exceeds(view_count, supply, k, m, u64::MAX as nat)
}

/// The price of one token in base units: the sum of the two terms rounded
/// down, and the floor price where that is less.
pub open spec fn price_formula(view_count: nat, supply: nat, k: nat, m: nat) -> nat {
    let raw = raw_price(view_count, supply, k, m);
    if raw < FLOOR_PRICE {
        FLOOR_PRICE as nat
    } else {
        raw
    }
}

/// What asking for the price gives: the price, or the refusal of a sum that
/// is beyond 64 bits.
pub open spec fn price_outcome(view_count: nat, supply: nat, k: nat, m: nat) -> Result<
    u64,
    TokenError,
> {
    if price_overflows(view_count, supply, k, m) {
        Err(TokenError::SupplyOverflow)
    } else {
        Ok(price_formula(view_count, supply, k, m) as u64)
    }
}

/// A sum that is not more than `bound` rounds down to at most `bound`, and
/// one that is more than `bound` rounds down to at least `bound`.
pub proof fn lemma_raw_price_bound(view_count: nat, supply: nat, k: nat, m: nat, bound: nat)
    ensures
        !raw_price_exceeds(view_count, supply, k, m, bound) ==> raw_price(
            view_count,
            supply,
            k,
            m,
        ) <= bound,
        raw_price_exceeds(view_count, supply, k, m, bound) ==> raw_price(
            view_count,
            supply,
            k,
            m,
        ) >= bound,
{
    let p = PARTS_PER_UNIT as nat;
    let limit = p * bound;
    let quadratic = quadratic_parts(k, supply);
    let squared = views_parts_squared(m, view_count);
    let root = floor_sqrt(squared);
    let total = quadratic + root;
    lemma_fundamental_div_mod(total as int, p as int);
    if quadratic <= limit {
        let gap = (limit - quadratic) as nat;
        lemma_floor_sqrt_reaches(squared, gap);
        lemma_floor_sqrt_reaches(squared, gap + 1);
        assert((gap + 1) * (gap + 1) > gap * gap) by (nonlinear_arith);
    }
    if raw_price_exceeds(view_count, supply, k, m, bound) {
        // total >= limit
        assert(total >= p * bound);
        lemma_div_is_ordered((p * bound) as int, total as int, p as int);
        lemma_fundamental_div_mod_converse((p * bound) as int, p as int, bound as int, 0);
    } else {
        assert(total <= p * bound);
        lemma_div_is_ordered(total as int, (p * bound) as int, p as int);
        lemma_fundamental_div_mod_converse((p * bound) as int, p as int, bound as int, 0);
    }
}

/// A price that is not refused fits in 64 bits.
pub proof fn lemma_price_fits(view_count: nat, supply: nat, k: nat, m: nat)
    requires
        !price_overflows(view_count, supply, k, m),
    ensures
        price_formula(view_count, supply, k, m) <= u64::MAX,
{
    lemma_raw_price_bound(view_count, supply, k, m, u64::MAX as nat);
}

/// The price never falls when the supply or the view count grows, and a
/// price that is refused as beyond 64 bits stays refused.
pub proof fn lemma_price_is_monotonic(
    view_count: nat,
    supply: nat,
    more_views: nat,
    more_supply: nat,
    k: nat,
    m: nat,
)
    requires
        view_count <= more_views,
        supply <= more_supply,
    ensures
        price_formula(view_count, supply, k, m) <= price_formula(more_views, more_supply, k, m),
        price_overflows(view_count, supply, k, m) ==> price_overflows(
            more_views,
            more_supply,
            k,
            m,
        ),
{
    let d = QUADRATIC_DIVISOR as nat;
    let q1 = quadratic_parts(k, supply);
    let q2 = quadratic_parts(k, more_supply);
    let n1 = views_parts_squared(m, view_count);
    let n2 = views_parts_squared(m, more_views);
    assert(q1 <= q2) by (nonlinear_arith)
        requires
            q1 == 10 * k * supply * supply,
            q2 == 10 * k * more_supply * more_supply,
            supply <= more_supply,
    ;
    assert(n1 <= n2) by (nonlinear_arith)
        requires
            n1 == d * d * m * m * view_count,
            n2 == d * d * m * m * more_views,
            view_count <= more_views,
    ;
    lemma_floor_sqrt_is_monotonic(n1, n2);
    lemma_div_is_ordered(
        (q1 + floor_sqrt(n1)) as int,
        (q2 + floor_sqrt(n2)) as int,
        PARTS_PER_UNIT as int,
    );
    let limit = (PARTS_PER_UNIT as nat) * (u64::MAX as nat);
    if q1 <= limit && q2 <= limit {
        let g1 = (limit - q1) as nat;
        let g2 = (limit - q2) as nat;
        assert(g2 * g2 <= g1 * g1) by (nonlinear_arith)
            requires
                g2 <= g1,
        ;
    }
}

/// The price is never below the floor.
pub proof fn lemma_price_is_at_least_floor(view_count: nat, supply: nat, k: nat, m: nat)
    ensures
        price_formula(view_count, supply, k, m) >= FLOOR_PRICE,
{
}

/// Divides `k * supply * supply` by `QUADRATIC_DIVISOR`: the whole base
/// units of the quadratic term, and what is left over.
///
/// The product may take 192 bits. The square of the supply is therefore
/// divided first, and `k` times what that division leaves is divided in two
/// steps, by 10^16 and then by 10^15, so that no product leaves 128 bits.
/// What is left over is the product less the divisor times the quotient,
/// computed in 256 bits.
pub fn quadratic_term_of(k: u64, supply: u64) -> (r: (u128, u128))
    ensures
        k * supply * supply == r.0 * QUADRATIC_DIVISOR + r.1,
        r.1 < QUADRATIC_DIVISOR,
        r.0 <= 0x1_0000_0000_0000_0000 * 0x4000_0000,
{
    let high_unit: u128 = 10_000_000_000_000_000;
    let low_unit: u128 = 1_000_000_000_000_000;
    assert(supply * supply < 0x1_0000_0000_0000_0000 * 0x1_0000_0000_0000_0000)
        by (nonlinear_arith)
        requires
            supply < 0x1_0000_0000_0000_0000,
    ;
    let squared: u128 = (supply as u128) * (supply as u128);
    let whole: u128 = squared / QUADRATIC_DIVISOR;
    let rest: u128 = squared % QUADRATIC_DIVISOR;
    let rest_high: u128 = rest / high_unit;
    let rest_low: u128 = rest % high_unit;
    assert(k * whole <= 0x1_0000_0000_0000_0000 * 0x2000_0000) by (nonlinear_arith)
        requires
            k < 0x1_0000_0000_0000_0000,
            whole <= 0x2000_0000,
    ;
    assert(k * rest_high <= 0x1_0000_0000_0000_0000 * 1_000_000_000_000_000)
        by (nonlinear_arith)
        requires
            k < 0x1_0000_0000_0000_0000,
            rest_high <= 1_000_000_000_000_000,
    ;
    assert(k * rest_low <= 0x1_0000_0000_0000_0000 * 10_000_000_000_000_000)
        by (nonlinear_arith)
        requires
            k < 0x1_0000_0000_0000_0000,
            rest_low <= 10_000_000_000_000_000,
    ;
    let carried: u128 = (k as u128) * rest_high + ((k as u128) * rest_low) / high_unit;
    let quotient: u128 = (k as u128) * whole + carried / low_unit;
    proof {
        let d = QUADRATIC_DIVISOR as int;
        let t = high_unit as int;
        let u = low_unit as int;
        lemma_fundamental_div_mod(squared as int, d);
        lemma_fundamental_div_mod(rest as int, t);
        // k * rest = (k * rest_high) * t + k * rest_low
        assert(k * rest == k * rest_low + (k * rest_high) * t) by (nonlinear_arith)
            requires
                rest == t * rest_high + rest_low,
        ;
        lemma_hoist_over_denominator(k * rest_low, k * rest_high, t as nat);
        assert(carried == (k * rest) / t);
        assert(k * rest >= 0) by (nonlinear_arith)
            requires
                rest >= 0,
                k >= 0,
        ;
        lemma_div_denominator(k * rest, t, u);
        assert(t * u == d);
        assert(carried / low_unit == (k * rest) / d);
        // k * squared = (k * whole) * d + k * rest
        assert(k * squared == k * rest + (k * whole) * d) by (nonlinear_arith)
            requires
                squared == d * whole + rest,
        ;
        lemma_hoist_over_denominator(k * rest, k * whole, d as nat);
        assert(quotient == (k * squared) / d);
        assert(k * supply * supply == k * squared) by (nonlinear_arith)
            requires
                squared == supply * supply,
        ;
        lemma_fundamental_div_mod(k * squared, d);
    }
    let product = U256::mul_wide(k as u128, squared);
    let multiple = U256::mul_wide(quotient, QUADRATIC_DIVISOR);
    match product.checked_sub(&multiple) {
        Some(left) => (quotient, left.lo),
        None => (quotient, 0),
    }
}

/// Whether the part of `m * sqrt(view_count)` behind the point, multiplied
/// by `QUADRATIC_DIVISOR`, is at least `t`, or more than `t` where `strict`
/// is set. The whole of `m * sqrt(view_count)` is `x`, and `e` is what
/// `m * m * view_count` has beyond the square of `x`.
///
/// The question is whether `t * t + 2 * D * x * t` is at most, or less than,
/// `D * D * e`. With `u = D * e - 2 * x * t` that is whether `t * t` is at
/// most, or less than, `D * u`, which is decided in 256 bits.
fn fraction_reaches(x: u128, e: u128, t: u128, strict: bool) -> (r: bool)
    requires
        x < 0x1_0000_0000_0000_0000_0000_0000,
        t < QUADRATIC_DIVISOR,
    ensures
        r == if strict {
            t * t + 2 * QUADRATIC_DIVISOR * x * t < QUADRATIC_DIVISOR * QUADRATIC_DIVISOR * e
        } else {
            t * t + 2 * QUADRATIC_DIVISOR * x * t <= QUADRATIC_DIVISOR * QUADRATIC_DIVISOR * e
        },
{
    let ghost d = QUADRATIC_DIVISOR as int;
    let left = U256::mul_wide(QUADRATIC_DIVISOR, e);
    let right = U256::mul_wide(2 * x, t);
    proof {
        assert(d * d * e - 2 * d * x * t == d * (d * e - (2 * x) * t)) by (nonlinear_arith);
        assert(t * t < d * d) by (nonlinear_arith)
            requires
                0 <= t < d,
        ;
    }
    match left.checked_sub(&right) {
        None => {
            assert(d * (d * e - (2 * x) * t) < 0) by (nonlinear_arith)
                requires
                    d * e - (2 * x) * t < 0,
                    d > 0,
            ;
            assert(t * t >= 0) by (nonlinear_arith);
            false
        },
        Some(u) => {
            if u.hi > 0 || u.lo >= QUADRATIC_DIVISOR {
                assert(d * (d * e - (2 * x) * t) >= d * d) by (nonlinear_arith)
                    requires
                        d * e - (2 * x) * t >= d,
                        d > 0,
                ;
                true
            } else {
                let scaled = U256::mul_wide(QUADRATIC_DIVISOR, u.lo);
                let square = U256::mul_wide(t, t);
                if strict {
                    square.lt(&scaled)
                } else {
                    square.le(&scaled)
                }
            }
        },
    }
}

/// The price of one token, for a view count, a circulating supply and the
/// two factors of the curve. It is refused exactly where the sum of the two
/// terms is beyond 64 bits.
///
/// Whole base units come from the quadratic term and from a tenth of the
/// whole of `m * sqrt(view_count)`. What the two terms have beyond those
/// units is counted in parts: a whole number of parts, and the part of the
/// root behind the point, which is less than `QUADRATIC_DIVISOR` parts. One
/// more unit is carried where these reach `PARTS_PER_UNIT` together, and a
/// sum that rounds down to the last number of 64 bits is beyond it where
/// anything is left.
pub fn calculate_price(view_count: u64, supply: u64, k: u64, m: u64) -> (r: Result<
    u64,
    TokenError,
>)
    ensures
        r == price_outcome(view_count as nat, supply as nat, k as nat, m as nat),
        r is Ok ==> price_formula(view_count as nat, supply as nat, k as nat, m as nat)
            <= u64::MAX,
        r matches Ok(price) ==> price >= FLOOR_PRICE,
{
    let ghost d = QUADRATIC_DIVISOR as int;
    let (whole, rest) = quadratic_term_of(k, supply);
    // m * sqrt(view_count): its whole, and what is beyond the whole's square
    let x: u128 = sqrt_scaled(m, view_count);
    assert(m * 0x1_0000_0000 < 0x1_0000_0000_0000_0000 * 0x1_0000_0000) by (nonlinear_arith)
        requires
            m < 0x1_0000_0000_0000_0000,
    ;
    assert(m * m < 0x1_0000_0000_0000_0000 * 0x1_0000_0000_0000_0000) by (nonlinear_arith)
        requires
            m < 0x1_0000_0000_0000_0000,
    ;
    let under_root = U256::mul_wide((m as u128) * (m as u128), view_count as u128);
    let square = U256::mul_wide(x, x);
    proof {
        assert(m * m * view_count >= 0) by (nonlinear_arith);
        lemma_floor_sqrt((m * m * view_count) as nat);
        assert((x + 1) * (x + 1) == x * x + 2 * x + 1) by (nonlinear_arith);
    }
    let e: u128 = match under_root.checked_sub(&square) {
        Some(beyond) => beyond.lo,
        None => 0,
    };
    let tens: u128 = x / 10;
    let units: u128 = x % 10;
    // what the two terms have beyond whole base units, in parts, but for
    // the part of the root behind the point
    let low: u128 = 10 * rest + QUADRATIC_DIVISOR * units;
    let carry: u128 = if low >= PARTS_PER_UNIT {
        1
    } else if PARTS_PER_UNIT - low >= QUADRATIC_DIVISOR {
        0
    } else if fraction_reaches(x, e, PARTS_PER_UNIT - low, false) {
        1
    } else {
        0
    };
    let raw: u128 = whole + tens + carry;
    // whether the sum is more than `raw`, where that decides
    let beyond: bool = raw == u64::MAX as u128 && if carry == 0 {
        low > 0 || fraction_reaches(x, e, 0, true)
    } else if low >= PARTS_PER_UNIT {
        low > PARTS_PER_UNIT || fraction_reaches(x, e, 0, true)
    } else {
        fraction_reaches(x, e, PARTS_PER_UNIT - low, true)
    };
    proof {
        let vn = view_count as nat;
        let sn = supply as nat;
        let kn = k as nat;
        let mn = m as nat;
        let squared = views_parts_squared(mn, vn);
        let root = floor_sqrt(squared);
        let quadratic = quadratic_parts(kn, sn);
        let xn = x as nat;
        let en = e as nat;
        assert(mn * mn * vn == xn * xn + en);
        assert(squared == (d as nat) * (d as nat) * (xn * xn + en)) by (nonlinear_arith)
            requires
                squared == (d as nat) * (d as nat) * mn * mn * vn,
                mn * mn * vn == xn * xn + en,
        ;
        assert(quadratic == 10 * (whole * d + rest)) by (nonlinear_arith)
            requires
                quadratic == 10 * kn * sn * sn,
                kn * sn * sn == whole * d + rest,
        ;
        // the carry is what the parts beyond the whole units come to
        let t1 = 10 * d - low;
        if 0 < t1 < d {
            lemma_scaled_root(d as nat, xn, en, t1 as nat);
        }
        lemma_scaled_root(d as nat, xn, en, 0);
        let total = quadratic + root;
        assert(10 * d * raw <= total < 10 * d * (raw + 1));
        lemma_fundamental_div_mod_converse(
            total as int,
            10 * d,
            raw as int,
            total - 10 * d * raw,
        );
        assert(raw_price(vn, sn, kn, mn) == raw);
        lemma_raw_price_bound(vn, sn, kn, mn, u64::MAX as nat);
        if raw == u64::MAX {
            // the limit less the quadratic parts is d * x + tc
            let tc = 10 * d * carry - low;
            let limit = 10 * d * raw;
            assert(limit - quadratic == d * x + tc);
            if tc < 0 {
                if d * x + tc >= 0 {
                    assert((d * x + tc) * (d * x + tc) < (d * x) * (d * x)) by (nonlinear_arith)
                        requires
                            0 <= d * x + tc < d * x,
                    ;
                }
            } else {
                lemma_scaled_root(d as nat, xn, en, tc as nat);
            }
            assert(beyond == price_overflows(vn, sn, kn, mn));
        }
    }
    if raw > u64::MAX as u128 || beyond {
        Err(TokenError::SupplyOverflow)
    } else if raw < FLOOR_PRICE as u128 {
        Ok(FLOOR_PRICE)
    } else {
        Ok(raw as u64)
    }
}

} // verus!
