//! 256-bit unsigned integers, as the fee totals of a block need them.

use vstd::prelude::*;

verus! {

/// 2^64.
pub open spec fn pow2_64() -> int {
    0x1_0000_0000_0000_0000int
}

/// 2^256.
pub open spec fn pow2_256() -> int {
    pow2_64() * pow2_64() * pow2_64() * pow2_64()
}

/// A 256-bit unsigned integer, held as four 64-bit limbs, least significant first.
#[derive(Clone, Copy, Debug, PartialEq, Eq, Structural)]
pub struct U256 {
    pub l0: u64,
    pub l1: u64,
    pub l2: u64,
    pub l3: u64,
}

impl U256 {
    /// The number that the limbs stand for.
    pub open spec fn value(self) -> int {
        self.l0 + self.l1 * pow2_64() + self.l2 * pow2_64() * pow2_64() + self.l3 * pow2_64()
            * pow2_64() * pow2_64()
    }

    /// Zero.
    pub open spec fn spec_zero() -> U256 {
        U256 { l0: 0, l1: 0, l2: 0, l3: 0 }
    }

    /// The value as a `u64`, or `u64::MAX` where it does not fit.
    pub open spec fn saturated(self) -> u64 {
        if self.l1 == 0 && self.l2 == 0 && self.l3 == 0 {
            self.l0
        } else {
            u64::MAX
        }
    }

    /// Zero.
    pub fn zero() -> (n: U256)
        ensures
            n == Self::spec_zero(),
            n.value() == 0,
    {
        U256 { l0: 0, l1: 0, l2: 0, l3: 0 }
    }

    /// The 256-bit integer equal to `v`.
    pub fn from_u64(v: u64) -> (n: U256)
        ensures
            n == (U256 { l0: v, l1: 0, l2: 0, l3: 0 }),
            n.value() == v,
    {
        U256 { l0: v, l1: 0, l2: 0, l3: 0 }
    }

    /// The 256-bit integer equal to `v`.
    pub fn from_u128(v: u128) -> (n: U256)
        ensures
            n.value() == v,
    {
        let low: u64 = (v & 0xffff_ffff_ffff_ffff) as u64;
        let high: u64 = (v >> 64) as u64;
        assert(v == (v & 0xffff_ffff_ffff_ffff) + (v >> 64) * 0x1_0000_0000_0000_0000) by (bit_vector);
        assert((v & 0xffff_ffff_ffff_ffff) < 0x1_0000_0000_0000_0000) by (bit_vector);
        assert((v >> 64) < 0x1_0000_0000_0000_0000) by (bit_vector);
        U256 { l0: low, l1: high, l2: 0, l3: 0 }
    }

    /// The value as a `u64`, or `u64::MAX` where it does not fit.
    pub fn saturating_to_u64(self) -> (v: u64)
        ensures
            v == self.saturated(),
            v == (if self.value() <= u64::MAX {
                self.value()
            } else {
                u64::MAX as int
            }),
    {
        assert(self.l1 * pow2_64() >= 0 && self.l2 * pow2_64() * pow2_64() >= 0 && self.l3
            * pow2_64() * pow2_64() * pow2_64() >= 0) by (nonlinear_arith)
            requires
                pow2_64() > 0,
        ;
        if self.l1 == 0 && self.l2 == 0 && self.l3 == 0 {
            self.l0
        } else {
            assert(self.l1 * pow2_64() >= pow2_64() || self.l2 * pow2_64() * pow2_64() >= pow2_64()
                || self.l3 * pow2_64() * pow2_64() * pow2_64() >= pow2_64()) by (nonlinear_arith)
                requires
                    pow2_64() > 1,
                    self.l1 != 0 || self.l2 != 0 || self.l3 != 0,
            ;
            u64::MAX
        }
    }
}

/// `alloy_primitives::U256`'s `*`, on a `u128` and a `u64` widened to 256 bits. The
/// operator wraps round at 2^256; a product of these two fits in 192 bits, so the
/// contract claims the exact product.
#[verifier::external_body]
pub(crate) fn product_u128_u64(a: u128, b: u64) -> (product: U256)
    ensures
        product.value() == a * b,
{
    let p = alloy_primitives::U256::from(a) * alloy_primitives::U256::from(b);
    let limbs = p.as_limbs();
    U256 { l0: limbs[0], l1: limbs[1], l2: limbs[2], l3: limbs[3] }
}

/// `alloy_primitives::U256`'s `+`, which wraps round at 2^256.
#[verifier::external_body]
pub(crate) fn wrapping_sum(a: U256, b: U256) -> (sum: U256)
    ensures
        sum.value() == (a.value() + b.value()) % pow2_256(),
{
    let x = alloy_primitives::U256::from_limbs([a.l0, a.l1, a.l2, a.l3]);
    let y = alloy_primitives::U256::from_limbs([b.l0, b.l1, b.l2, b.l3]);
    let s = x + y;
    let limbs = s.as_limbs();
    U256 { l0: limbs[0], l1: limbs[1], l2: limbs[2], l3: limbs[3] }
}

} // verus!
