//! A 256-bit unsigned integer with checked arithmetic.
//!
//! The value is held as two 128-bit little-endian limbs and viewed as the
//! natural number `lo + hi * 2^128`, which is always below `2^256`. All
//! arithmetic is checked or saturating; nothing here wraps silently.

use vstd::prelude::*;

verus! {

/// `2^128`, the weight of the high limb.
pub open spec fn pow2_128() -> nat {
    0x100000000000000000000000000000000nat
}

/// `2^256`, the exclusive upper bound of every [`U256`] value.
pub open spec fn pow2_256() -> nat {
    0x100000000000000000000000000000000nat * 0x100000000000000000000000000000000nat
}

/// A 256-bit unsigned integer: `lo + hi * 2^128`.
#[derive(Clone, Copy, PartialEq, Eq, Structural, Debug)]
pub struct U256 {
    /// The low 128 bits.
    pub lo: u128,
    /// The high 128 bits.
    pub hi: u128,
}

impl View for U256 {
    type V = nat;

    open spec fn view(&self) -> nat {
        (self.lo + self.hi * pow2_128()) as nat
    }
}

impl U256 {
    /// The value zero.
    pub fn zero() -> (r: U256)
        ensures
            r@ == 0,
    {
        U256 { lo: 0, hi: 0 }
    }

    /// The value of a 64-bit integer.
    pub fn from_u64(v: u64) -> (r: U256)
        ensures
            r@ == v,
    {
        U256 { lo: v as u128, hi: 0 }
    }

    /// The largest representable value, `2^256 - 1`.
    pub fn max_value() -> (r: U256)
        ensures
            r@ == pow2_256() - 1,
    {
        let r = U256 { lo: u128::MAX, hi: u128::MAX };
        proof {
            assert(r@ == pow2_256() - 1) by {
                assert(u128::MAX == pow2_128() - 1);
            }
        }
        r
    }

    /// Whether this value is zero.
    pub fn is_zero(&self) -> (r: bool)
        ensures
            r == (self@ == 0),
    {
        self.lo == 0 && self.hi == 0
    }

    /// Whether `self < other`, as natural numbers.
    pub fn lt(&self, other: &U256) -> (r: bool)
        ensures
            r == (self@ < other@),
    {
        proof {
            lemma_view_order(*self, *other);
        }
        self.hi < other.hi || (self.hi == other.hi && self.lo < other.lo)
    }

    /// Whether `self >= other`, as natural numbers.
    pub fn ge(&self, other: &U256) -> (r: bool)
        ensures
            r == (self@ >= other@),
    {
        !self.lt(other)
    }

    /// The sum, or `None` when it would reach `2^256`.
    pub fn checked_add(&self, other: &U256) -> (r: Option<U256>)
        ensures
            r matches Some(v) ==> v@ == self@ + other@ && self@ + other@ < pow2_256(),
            r is None <==> self@ + other@ >= pow2_256(),
    {
        let (lo, carry): (u128, u128) = if self.lo <= u128::MAX - other.lo {
            (self.lo + other.lo, 0)
        } else {
            ((self.lo - (u128::MAX - other.lo)) - 1, 1)
        };
        if self.hi > u128::MAX - other.hi {
            proof {
                assert(self@ + other@ >= pow2_256()) by {
                    lemma_sum_decomp(*self, *other);
                    assert((self.hi + other.hi) * pow2_128() >= pow2_128() * pow2_128())
                        by (nonlinear_arith)
                        requires
                            self.hi + other.hi >= pow2_128(),
                    ;
                }
            }
            None
        } else {
            let h = self.hi + other.hi;
            if carry == 1 && h == u128::MAX {
                proof {
                    assert(self@ + other@ >= pow2_256());
                }
                None
            } else {
                let r = U256 { lo, hi: h + carry };
                proof {
                    assert(r@ == self@ + other@);
                    assert(self@ + other@ < pow2_256());
                }
                Some(r)
            }
        }
    }

    /// The difference, or `None` when `other` exceeds `self`.
    pub fn checked_sub(&self, other: &U256) -> (r: Option<U256>)
        ensures
            r matches Some(v) ==> v@ == self@ - other@ && self@ >= other@,
            r is None <==> self@ < other@,
    {
        if self.lt(other) {
            None
        } else if self.lo >= other.lo {
            let r = U256 { lo: self.lo - other.lo, hi: self.hi - other.hi };
            proof {
                lemma_view_order(*self, *other);
                assert(r@ == self@ - other@);
            }
            Some(r)
        } else {
            proof {
                lemma_view_order(*self, *other);
                assert(self.hi > other.hi);
            }
            let r = U256 {
                lo: ((u128::MAX - other.lo) + self.lo) + 1,
                hi: (self.hi - other.hi) - 1,
            };
            proof {
                assert(r@ == self@ - other@);
            }
            Some(r)
        }
    }

    /// The difference, floored at zero: `max(self - other, 0)`.
    pub fn saturating_sub(&self, other: &U256) -> (r: U256)
        ensures
            r@ == if self@ >= other@ {
                self@ - other@
            } else {
                0
            },
    {
        match self.checked_sub(other) {
            Some(v) => v,
            None => U256::zero(),
        }
    }
}

/// The sum of two values, regrouped limb by limb.
proof fn lemma_sum_decomp(a: U256, b: U256)
    ensures
        a@ + b@ == (a.lo + b.lo) + (a.hi + b.hi) * pow2_128(),
{
    assert((a.hi + b.hi) * pow2_128() == a.hi * pow2_128() + b.hi * pow2_128())
        by (nonlinear_arith);
}

/// The view of a value is below `2^256`, and the limb order decides the
/// numeric order: distinct limb pairs give distinct values.
pub proof fn lemma_view_order(a: U256, b: U256)
    ensures
        a@ < pow2_256(),
        a@ < b@ <==> (a.hi < b.hi || (a.hi == b.hi && a.lo < b.lo)),
{
    assert(a.lo < pow2_128() && a.hi < pow2_128());
    assert(b.lo < pow2_128() && b.hi < pow2_128());
    if a.hi < b.hi {
        assert(a.hi * pow2_128() + pow2_128() <= b.hi * pow2_128()) by {
            assert((b.hi - a.hi) * pow2_128() >= 1 * pow2_128()) by (nonlinear_arith)
                requires
                    b.hi - a.hi >= 1,
            ;
            assert((b.hi - a.hi) * pow2_128() == b.hi * pow2_128() - a.hi * pow2_128())
                by (nonlinear_arith);
        }
    }
    if b.hi < a.hi {
        assert(b.hi * pow2_128() + pow2_128() <= a.hi * pow2_128()) by {
            assert((a.hi - b.hi) * pow2_128() >= 1 * pow2_128()) by (nonlinear_arith)
                requires
                    a.hi - b.hi >= 1,
            ;
            assert((a.hi - b.hi) * pow2_128() == a.hi * pow2_128() - b.hi * pow2_128())
                by (nonlinear_arith);
        }
    }
    assert(a.hi * pow2_128() + pow2_128() <= pow2_256()) by {
        assert((a.hi + 1) * pow2_128() <= pow2_128() * pow2_128()) by (nonlinear_arith)
            requires
                a.hi + 1 <= pow2_128(),
        ;
        assert((a.hi + 1) * pow2_128() == a.hi * pow2_128() + pow2_128()) by (nonlinear_arith);
    }
}

/// Every [`U256`] value lies in `[0, 2^256)`.
pub proof fn lemma_u256_range(a: U256)
    ensures
        a@ < pow2_256(),
{
    lemma_view_order(a, a);
}

} // verus!
