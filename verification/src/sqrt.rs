//! Square roots in whole numbers, rounded down.

use vstd::prelude::*;

verus! {

/// `r` is the square root of `n`, rounded down.
pub open spec fn is_floor_sqrt(n: nat, r: nat) -> bool {
    r * r <= n < (r + 1) * (r + 1)
}

/// The square root of `n`, rounded down to a whole number.
pub open spec fn floor_sqrt(n: nat) -> nat {
    choose|r: nat| is_floor_sqrt(n, r)
}

proof fn lemma_square_is_monotonic(a: nat, b: nat)
    requires
        a <= b,
    ensures
        a * a <= b * b,
{
    assert(a * a <= b * b) by (nonlinear_arith)
        requires
            a <= b,
    ;
}

proof fn lemma_floor_sqrt_exists(n: nat)
    ensures
        exists|r: nat| is_floor_sqrt(n, r),
    decreases n,
{
    if n == 0 {
        assert(0nat * 0nat == 0 && (0nat + 1) * (0nat + 1) == 1) by (nonlinear_arith);
        assert(is_floor_sqrt(0, 0));
    } else {
        let p = (n - 1) as nat;
        lemma_floor_sqrt_exists(p);
        let r = choose|r: nat| is_floor_sqrt(p, r);
        if (r + 1) * (r + 1) <= n {
            assert((r + 2) * (r + 2) > (r + 1) * (r + 1)) by (nonlinear_arith);
            assert(is_floor_sqrt(n, r + 1));
        } else {
            assert(is_floor_sqrt(n, r));
        }
    }
}

/// Every number has a rounded-down square root, and `floor_sqrt` is it.
pub proof fn lemma_floor_sqrt(n: nat)
    ensures
        is_floor_sqrt(n, floor_sqrt(n)),
{
    lemma_floor_sqrt_exists(n);
}

/// A number has only one rounded-down square root.
pub proof fn lemma_floor_sqrt_unique(n: nat, r: nat)
    requires
        is_floor_sqrt(n, r),
    ensures
        r == floor_sqrt(n),
{
    lemma_floor_sqrt(n);
    let s = floor_sqrt(n);
    if r < s {
        lemma_square_is_monotonic(r + 1, s);
    } else if s < r {
        lemma_square_is_monotonic(s + 1, r);
    }
}

/// A number whose square is at most `n` is at most the square root of `n`.
pub proof fn lemma_floor_sqrt_lower(n: nat, y: nat)
    requires
        y * y <= n,
    ensures
        y <= floor_sqrt(n),
{
    lemma_floor_sqrt(n);
    if floor_sqrt(n) < y {
        lemma_square_is_monotonic(floor_sqrt(n) + 1, y);
    }
}

/// A number whose square is more than `n` is more than the square root of
/// `n`.
pub proof fn lemma_floor_sqrt_upper(n: nat, y: nat)
    requires
        n < y * y,
    ensures
        floor_sqrt(n) < y,
{
    lemma_floor_sqrt(n);
    if y <= floor_sqrt(n) {
        lemma_square_is_monotonic(y, floor_sqrt(n));
    }
}

/// A number is at most the square root of `n` exactly where its square is at
/// most `n`.
pub proof fn lemma_floor_sqrt_reaches(n: nat, y: nat)
    ensures
        y <= floor_sqrt(n) <==> y * y <= n,
{
    if y * y <= n {
        lemma_floor_sqrt_lower(n, y);
    } else {
        lemma_floor_sqrt_upper(n, y);
    }
}

/// The root of a scaled number, between the scaled root and the next.
///
/// Let `x` be the rounded-down root of `x * x + e`, and let the number under
/// the root be multiplied by `d * d`. Then the new root lies from `d * x` up
/// to, but not at, `d * x + d`. It reaches `d * x + t` exactly where
/// `t * t + 2 * d * x * t <= d * d * e`, and the number under it exceeds the
/// square of `d * x + t` exactly where that holds strictly.
pub proof fn lemma_scaled_root(d: nat, x: nat, e: nat, t: nat)
    requires
        d > 0,
        e <= 2 * x,
    ensures
        x == floor_sqrt(x * x + e),
        d * x <= floor_sqrt(d * d * (x * x + e)) < d * x + d,
        (d * x) * (d * x) <= d * d * (x * x + e) < (d * x + d) * (d * x + d),
        d * x + t <= floor_sqrt(d * d * (x * x + e)) <==> t * t + 2 * d * x * t <= d * d * e,
        (d * x + t) * (d * x + t) < d * d * (x * x + e) <==> t * t + 2 * d * x * t < d * d * e,
{
    let n = x * x + e;
    let big = d * d * n;
    assert((x + 1) * (x + 1) == x * x + 2 * x + 1) by (nonlinear_arith);
    lemma_floor_sqrt_unique(n, x);
    assert((d * x) * (d * x) + d * d * e == big) by (nonlinear_arith)
        requires
            big == d * d * (x * x + e),
    ;
    assert(d * d * e >= 0) by (nonlinear_arith);
    assert((d * x + d) * (d * x + d) == (d * x) * (d * x) + d * d * (2 * x + 1))
        by (nonlinear_arith);
    assert(d * d * e < d * d * (2 * x + 1)) by (nonlinear_arith)
        requires
            e < 2 * x + 1,
            d > 0,
    ;
    lemma_floor_sqrt_reaches(big, d * x);
    lemma_floor_sqrt_reaches(big, d * x + d);
    lemma_floor_sqrt_reaches(big, d * x + t);
    assert((d * x + t) * (d * x + t) == (d * x) * (d * x) + (t * t + 2 * d * x * t))
        by (nonlinear_arith);
}

/// A larger number has no smaller square root.
pub proof fn lemma_floor_sqrt_is_monotonic(a: nat, b: nat)
    requires
        a <= b,
    ensures
        floor_sqrt(a) <= floor_sqrt(b),
{
    lemma_floor_sqrt(a);
    lemma_floor_sqrt(b);
    if floor_sqrt(b) < floor_sqrt(a) {
        lemma_square_is_monotonic(floor_sqrt(b) + 1, floor_sqrt(a));
    }
}

/// The square root of a 64-bit number, rounded down.
pub fn sqrt_u64(n: u64) -> (r: u64)
    ensures
        r == floor_sqrt(n as nat),
        r < 0x1_0000_0000,
{
    let mut lo: u64 = 0;
    let mut hi: u64 = 0x1_0000_0000;
    while hi - lo > 1
        invariant
            lo < hi <= 0x1_0000_0000,
            lo * lo <= n,
            n < hi * hi,
        decreases hi - lo,
    {
        let mid: u64 = lo + (hi - lo) / 2;
        assert(mid * mid < 0x1_0000_0000 * 0x1_0000_0000) by (nonlinear_arith)
            requires
                mid < 0x1_0000_0000,
        ;
        if mid * mid <= n {
            lo = mid;
        } else {
            hi = mid;
        }
    }
    proof {
        assert(hi == lo + 1);
        lemma_floor_sqrt_unique(n as nat, lo as nat);
    }
    lo
}

/// Whether `m * s + w` is at most `m` times the square root of `s * s + e`.
spec fn below_scaled_root(m: int, s: int, e: int, w: int) -> bool {
    (m * s + w) * (m * s + w) <= m * m * (s * s + e)
}

proof fn lemma_below_scaled_root(m: int, s: int, e: int, w: int, a: int, b: int)
    requires
        a == 2 * s * w,
        b == m * e,
    ensures
        below_scaled_root(m, s, e, w) <==> w * w + m * a <= m * b,
{
    assert((m * s + w) * (m * s + w) == m * m * (s * s) + m * (2 * s * w) + w * w)
        by (nonlinear_arith);
    assert(m * m * (s * s + e) == m * m * (s * s) + m * (m * e)) by (nonlinear_arith);
}

/// Decides `below_scaled_root` within 128 bits. With `a = 2 * s * w` and
/// `b = m * e` the question is whether `w * w + m * a <= m * b`.
fn is_below_scaled_root(m: u64, s: u64, e: u64, w: u64) -> (r: bool)
    requires
        s < 0x1_0000_0000,
        e <= 2 * s,
        w < m,
    ensures
        r == below_scaled_root(m as int, s as int, e as int, w as int),
{
    let two_s: u128 = 2 * (s as u128);
    assert(two_s * w <= 0x2_0000_0000 * 0x1_0000_0000_0000_0000) by (nonlinear_arith)
        requires
            two_s <= 0x2_0000_0000,
            w < 0x1_0000_0000_0000_0000,
    ;
    assert(m * e <= 0x1_0000_0000_0000_0000 * 0x2_0000_0000) by (nonlinear_arith)
        requires
            e <= 0x2_0000_0000,
            m < 0x1_0000_0000_0000_0000,
    ;
    let a: u128 = two_s * (w as u128);
    let b: u128 = (m as u128) * (e as u128);
    proof {
        assert(2 * (s as int) * (w as int) == a) by (nonlinear_arith)
            requires
                a == two_s * w,
                two_s == 2 * s,
        ;
        lemma_below_scaled_root(m as int, s as int, e as int, w as int, a as int, b as int);
    }
    if a > b {
        assert(m * a > m * b) by (nonlinear_arith)
            requires
                a > b,
                m > 0,
        ;
        assert(w * w >= 0) by (nonlinear_arith);
        return false;
    }
    let c: u128 = b - a;
    assert(m * c == m * b - m * a) by (nonlinear_arith)
        requires
            c == b - a,
    ;
    if c >= w as u128 {
        assert(w * w <= m * c) by (nonlinear_arith)
            requires
                w < m,
                w <= c,
        ;
        return true;
    }
    assert(w * w < 0x1_0000_0000_0000_0000 * 0x1_0000_0000_0000_0000) by (nonlinear_arith)
        requires
            w < 0x1_0000_0000_0000_0000,
    ;
    assert(m * c < 0x1_0000_0000_0000_0000 * 0x1_0000_0000_0000_0000) by (nonlinear_arith)
        requires
            m < 0x1_0000_0000_0000_0000,
            c < 0x1_0000_0000_0000_0000,
    ;
    (w as u128) * (w as u128) <= (m as u128) * c
}

/// The square root of `n`, multiplied by `m` and then rounded down.
///
/// The product `m * m * n` may take 192 bits, so its root is not taken
/// directly. With `s` the rounded-down root of `n`, the result lies between
/// `m * s` and `m * s + m`; what it exceeds `m * s` by is found by bisection,
/// with a comparison that stays within 128 bits.
pub fn sqrt_scaled(m: u64, n: u64) -> (r: u128)
    ensures
        r == floor_sqrt((m * m * n) as nat),
        r <= m * 0x1_0000_0000,
{
    if m == 0 {
        proof {
            assert(m * m * n == 0) by (nonlinear_arith)
                requires
                    m == 0,
            ;
            assert(0nat * 0nat == 0 && (0nat + 1) * (0nat + 1) == 1) by (nonlinear_arith);
            lemma_floor_sqrt_unique(0, 0);
        }
        return 0;
    }
    let s: u64 = sqrt_u64(n);
    proof {
        lemma_floor_sqrt(n as nat);
        assert(s * s < 0x1_0000_0000 * 0x1_0000_0000) by (nonlinear_arith)
            requires
                s < 0x1_0000_0000,
        ;
        assert((s + 1) * (s + 1) == s * s + 2 * s + 1) by (nonlinear_arith);
    }
    let e: u64 = n - s * s;
    let mut lo: u64 = 0;
    let mut hi: u64 = m;
    proof {
        assert(below_scaled_root(m as int, s as int, e as int, 0)) by (nonlinear_arith)
            requires
                e >= 0,
        ;
        assert(!below_scaled_root(m as int, s as int, e as int, m as int)) by (nonlinear_arith)
            requires
                e <= 2 * s,
                m > 0,
        ;
    }
    while hi - lo > 1
        invariant
            lo < hi <= m,
            s < 0x1_0000_0000,
            e <= 2 * s,
            below_scaled_root(m as int, s as int, e as int, lo as int),
            !below_scaled_root(m as int, s as int, e as int, hi as int),
        decreases hi - lo,
    {
        let mid: u64 = lo + (hi - lo) / 2;
        if is_below_scaled_root(m, s, e, mid) {
            lo = mid;
        } else {
            hi = mid;
        }
    }
    assert(m * s < 0x1_0000_0000_0000_0000 * 0x1_0000_0000) by (nonlinear_arith)
        requires
            m < 0x1_0000_0000_0000_0000,
            s < 0x1_0000_0000,
    ;
    let root: u128 = (m as u128) * (s as u128) + (lo as u128);
    proof {
        assert(hi == lo + 1);
        assert(m * m * n == m * m * (s * s + e)) by (nonlinear_arith)
            requires
                n == s * s + e,
        ;
        assert(m * m * n >= 0) by (nonlinear_arith);
        assert(m * s + lo >= 0) by (nonlinear_arith);
        assert(is_floor_sqrt((m * m * n) as nat, root as nat));
        lemma_floor_sqrt_unique((m * m * n) as nat, root as nat);
        assert(m * s + lo <= m * 0x1_0000_0000) by (nonlinear_arith)
            requires
                s < 0x1_0000_0000,
                lo < m,
        ;
    }
    root
}

} // verus!
