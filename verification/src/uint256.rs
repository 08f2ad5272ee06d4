//! An unsigned 256-bit integer, held as two 128-bit limbs.
//!
//! Token amounts, balances and stored values are 256-bit quantities. The
//! type keeps its mathematical value in `as_nat`, and every operation is
//! specified against that value.

use vstd::prelude::*;

verus! {

/// Number of values one 128-bit limb can take: 2^128.
pub open spec fn limb_radix() -> nat {
    0x100000000000000000000000000000000nat
}

/// Number of values a `U256` can take: 2^256.
pub open spec fn u256_limit() -> nat {
    0x10000000000000000000000000000000000000000000000000000000000000000nat
}

/// An unsigned 256-bit integer with value `lo + hi * 2^128`.
#[derive(Clone, Copy, Debug, PartialEq, Eq, Structural)]
pub struct U256 {
    pub lo: u128,
    pub hi: u128,
}

impl U256 {
    /// The mathematical value of this integer.
    pub open spec fn as_nat(self) -> nat {
        (self.lo + self.hi * limb_radix()) as nat
    }

    /// Every `U256` value lies below 2^256.
    pub proof fn lemma_below_limit(self)
        ensures
            self.as_nat() < u256_limit(),
    {
    }

    /// Two `U256` values with the same mathematical value are equal.
    pub proof fn lemma_as_nat_injective(a: U256, b: U256)
        requires
            a.as_nat() == b.as_nat(),
        ensures
            a == b,
    {
    }

    /// The zero value.
    pub fn zero() -> (r: U256)
        ensures
            r.as_nat() == 0,
    {
        U256 { lo: 0, hi: 0 }
    }

    /// The value of a 128-bit integer.
    pub fn from_u128(v: u128) -> (r: U256)
        ensures
            r.as_nat() == v,
    {
        U256 { lo: v, hi: 0 }
    }

    /// The largest representable value, 2^256 - 1.
    pub fn max_value() -> (r: U256)
        ensures
            r.as_nat() == u256_limit() - 1,
    {
        U256 { lo: u128::MAX, hi: u128::MAX }
    }

    /// Strict comparison on the mathematical values.
    pub fn lt(&self, other: &U256) -> (r: bool)
        ensures
            r == (self.as_nat() < other.as_nat()),
    {
        if self.hi != other.hi {
            self.hi < other.hi
        } else {
            self.lo < other.lo
        }
    }

    /// Non-strict comparison on the mathematical values.
    pub fn le(&self, other: &U256) -> (r: bool)
        ensures
            r == (self.as_nat() <= other.as_nat()),
    {
        !other.lt(self)
    }

    /// Addition; the caller must show the sum stays below 2^256.
    pub fn add(self, other: U256) -> (r: U256)
        requires
            self.as_nat() + other.as_nat() < u256_limit(),
        ensures
            r.as_nat() == self.as_nat() + other.as_nat(),
    {
        if self.lo <= u128::MAX - other.lo {
            U256 { lo: self.lo + other.lo, hi: self.hi + other.hi }
        } else {
            U256 { lo: self.lo - (u128::MAX - other.lo) - 1, hi: self.hi + other.hi + 1 }
        }
    }

    /// Subtraction; the caller must show no underflow occurs.
    pub fn sub(self, other: U256) -> (r: U256)
        requires
            other.as_nat() <= self.as_nat(),
        ensures
            r.as_nat() == self.as_nat() - other.as_nat(),
    {
        if self.lo >= other.lo {
            U256 { lo: self.lo - other.lo, hi: self.hi - other.hi }
        } else {
            U256 { lo: self.lo + (u128::MAX - other.lo) + 1, hi: self.hi - other.hi - 1 }
        }
    }
}

} // verus!
