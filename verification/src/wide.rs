//! Numbers of 256 bits, held as two halves of 128 bits: as much as is needed
//! to multiply two numbers of 128 bits and to compare and subtract such
//! products.

use vstd::prelude::*;

verus! {

/// A number of 256 bits.
#[derive(Clone, Copy, Debug)]
pub struct U256 {
    pub hi: u128,
    pub lo: u128,
}

impl U256 {
    /// The number that the two halves stand for.
    pub open spec fn value(self) -> nat {
        (self.hi * 0x1_0000_0000_0000_0000_0000_0000_0000_0000 + self.lo) as nat
    }

    /// The product of two numbers of 128 bits.
    pub fn mul_wide(a: u128, b: u128) -> (r: U256)
        ensures
            r.value() == a * b,
    {
        let a1: u128 = a / 0x1_0000_0000_0000_0000;
        let a0: u128 = a % 0x1_0000_0000_0000_0000;
        let b1: u128 = b / 0x1_0000_0000_0000_0000;
        let b0: u128 = b % 0x1_0000_0000_0000_0000;
        proof {
            lemma_half_product(a0, b0);
            lemma_half_product(a0, b1);
            lemma_half_product(a1, b0);
            lemma_half_product(a1, b1);
        }
        let p00: u128 = a0 * b0;
        let p01: u128 = a0 * b1;
        let p10: u128 = a1 * b0;
        let p11: u128 = a1 * b1;
        let t: u128 = p00 / 0x1_0000_0000_0000_0000 + p01 % 0x1_0000_0000_0000_0000 + p10
            % 0x1_0000_0000_0000_0000;
        let lo: u128 = (t % 0x1_0000_0000_0000_0000) * 0x1_0000_0000_0000_0000 + p00
            % 0x1_0000_0000_0000_0000;
        let hi: u128 = p11 + p01 / 0x1_0000_0000_0000_0000 + p10 / 0x1_0000_0000_0000_0000 + t
            / 0x1_0000_0000_0000_0000;
        proof {
            assert(a * b == p11 * 0x1_0000_0000_0000_0000_0000_0000_0000_0000 + (p01 + p10)
                * 0x1_0000_0000_0000_0000 + p00) by (nonlinear_arith)
                requires
                    a == a1 * 0x1_0000_0000_0000_0000 + a0,
                    b == b1 * 0x1_0000_0000_0000_0000 + b0,
                    p00 == a0 * b0,
                    p01 == a0 * b1,
                    p10 == a1 * b0,
                    p11 == a1 * b1,
            ;
        }
        U256 { hi, lo }
    }

    /// Whether this number is less than the other.
    pub fn lt(&self, other: &U256) -> (r: bool)
        ensures
            r == (self.value() < other.value()),
    {
        self.hi < other.hi || (self.hi == other.hi && self.lo < other.lo)
    }

    /// Whether this number is at most the other.
    pub fn le(&self, other: &U256) -> (r: bool)
        ensures
            r == (self.value() <= other.value()),
    {
        self.hi < other.hi || (self.hi == other.hi && self.lo <= other.lo)
    }

    /// This number less the other, where the other is no larger; `None`
    /// where it is.
    pub fn checked_sub(&self, other: &U256) -> (r: Option<U256>)
        ensures
            match r {
                Some(d) => other.value() <= self.value() && d.value() == self.value()
                    - other.value(),
                None => other.value() > self.value(),
            },
    {
        if self.lt(other) {
            None
        } else if self.lo >= other.lo {
            Some(U256 { hi: self.hi - other.hi, lo: self.lo - other.lo })
        } else {
            Some(U256 { hi: self.hi - other.hi - 1, lo: (u128::MAX - other.lo) + 1 + self.lo })
        }
    }
}

/// Two numbers below 2^64 have a product of at most (2^64 - 1)^2.
proof fn lemma_half_product(x: u128, y: u128)
    requires
        x < 0x1_0000_0000_0000_0000,
        y < 0x1_0000_0000_0000_0000,
    ensures
        x * y <= 0xFFFF_FFFF_FFFF_FFFE_0000_0000_0000_0001,
{
    assert(x * y <= 0xFFFF_FFFF_FFFF_FFFF * 0xFFFF_FFFF_FFFF_FFFF) by (nonlinear_arith)
        requires
            x <= 0xFFFF_FFFF_FFFF_FFFF,
            y <= 0xFFFF_FFFF_FFFF_FFFF,
    ;
}

} // verus!
