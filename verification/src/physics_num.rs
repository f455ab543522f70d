//! The fixed-point scalar contract: the operations a geometry engine needs,
//! stated over a mathematical view of each scalar, together with the free
//! vector helpers built on them.
//!
//! Collision correctness depends on consistent, reproducible comparisons
//! across repeated frames, so the domain is exact signed integers: equality
//! and ordering have no drift, and division truncates toward zero as the
//! scalar's documented rounding.

use vstd::prelude::*;

verus! {

use crate::vector2::{Vector2, vec_within, spec_dot, spec_magnitude2};

/// Magnitude of a mathematical integer.
pub open spec fn iabs(a: int) -> int {
    if a >= 0 {
        a
    } else {
        -a
    }
}

/// Sign of a mathematical integer: -1, 0 or 1.
pub open spec fn isignum(a: int) -> int {
    if a > 0 {
        1
    } else if a == 0 {
        0
    } else {
        -1
    }
}

/// Division truncating toward zero, the rounding the scalar domain uses.
/// Meaningful only for `b != 0`.
pub open spec fn tdiv(a: int, b: int) -> int {
    let q = iabs(a) / iabs(b);
    if (a >= 0) == (b >= 0) {
        q
    } else {
        -q
    }
}

/// The product of two scalars is bounded by the product of their bounds.
pub proof fn lemma_mul_within(a: int, b: int, c: int, d: int)
    by (nonlinear_arith)
    requires
        -c <= a <= c,
        -d <= b <= d,
    ensures
        -(c * d) <= a * b <= c * d,
{
}

/// Truncating division never grows the magnitude of the dividend.
pub proof fn lemma_tdiv_abs_le(a: int, b: int)
    requires
        b >= 1,
    ensures
        iabs(tdiv(a, b)) <= iabs(a),
        tdiv(a, b) >= 0 || a < 0,
{
    vstd::arithmetic::div_mod::lemma_div_pos_is_pos(iabs(a), b);
    vstd::arithmetic::div_mod::lemma_div_nonincreasing(iabs(a), b);
}

/// A dividend within one unit of `c` times the divisor divides down to a
/// quotient within one unit of `c`.
pub proof fn lemma_tdiv_bound(a: int, b: int, c: int)
    requires
        b >= 1,
        c >= 0,
        iabs(a) <= c * b + 1,
    ensures
        iabs(tdiv(a, b)) <= c + 1,
{
    assert(c * b + 1 <= (c + 1) * b) by (nonlinear_arith)
        requires
            b >= 1,
            c >= 0,
    ;
    vstd::arithmetic::div_mod::lemma_multiply_divide_le(iabs(a), b, c + 1);
    vstd::arithmetic::div_mod::lemma_div_pos_is_pos(iabs(a), b);
}

/// An exact, ordered, signed fixed-point scalar. The view `sval` is the
/// scalar's value as a mathematical integer; every operation says exactly
/// what it returns over that view. Arithmetic never implicitly rounds:
/// `div` truncates toward zero, nothing else divides at all.
pub trait PhysicsNum: Sized + Copy {
    spec fn sval(self) -> int;

    fn zero() -> (r: Self)
        ensures
            r.sval() == 0,
    ;

    fn one() -> (r: Self)
        ensures
            r.sval() == 1,
    ;

    fn add(self, other: Self) -> (r: Self)
        requires
            i64::MIN <= self.sval() + other.sval() <= i64::MAX,
        ensures
            r.sval() == self.sval() + other.sval(),
    ;

    fn sub(self, other: Self) -> (r: Self)
        requires
            i64::MIN <= self.sval() - other.sval() <= i64::MAX,
        ensures
            r.sval() == self.sval() - other.sval(),
    ;

    fn mul(self, other: Self) -> (r: Self)
        requires
            i64::MIN <= self.sval() * other.sval() <= i64::MAX,
        ensures
            r.sval() == self.sval() * other.sval(),
    ;

    /// Truncating division, as the fixed-point domain documents it.
    fn div(self, other: Self) -> (r: Self)
        requires
            other.sval() != 0,
            other.sval() != i64::MIN,
            !(self.sval() == i64::MIN && other.sval() == -1),
        ensures
            r.sval() == tdiv(self.sval(), other.sval()),
    ;

    fn neg(self) -> (r: Self)
        requires
            self.sval() != i64::MIN,
        ensures
            r.sval() == -self.sval(),
    ;

    fn abs(self) -> (r: Self)
        requires
            self.sval() != i64::MIN,
        ensures
            r.sval() == iabs(self.sval()),
    ;

    fn signum(self) -> (r: Self)
        ensures
            r.sval() == isignum(self.sval()),
    ;

    fn lt(self, other: Self) -> (r: bool)
        ensures
            r == (self.sval() < other.sval()),
    ;

    fn le(self, other: Self) -> (r: bool)
        ensures
            r == (self.sval() <= other.sval()),
    ;

    fn min(self, other: Self) -> (r: Self)
        ensures
            r.sval() == if self.sval() <= other.sval() {
                self.sval()
            } else {
                other.sval()
            },
    ;

    fn max(self, other: Self) -> (r: Self)
        ensures
            r.sval() == if self.sval() >= other.sval() {
                self.sval()
            } else {
                other.sval()
            },
    ;

    fn two() -> (r: Self)
        ensures
            r.sval() == 2,
    {
        let one: Self = Self::one();
        one.add(one)
    }

    fn clamp(self, lo: Self, hi: Self) -> (r: Self)
        ensures
            r.sval() == if self.sval() <= lo.sval() {
                if lo.sval() >= hi.sval() {
                    hi.sval()
                } else {
                    lo.sval()
                }
            } else if self.sval() >= hi.sval() {
                hi.sval()
            } else {
                self.sval()
            },
    {
        self.max(lo).min(hi)
    }

    fn clamp_zero_one(self) -> (r: Self)
        ensures
            r.sval() == if self.sval() <= 0 {
                0
            } else if self.sval() >= 1 {
                1
            } else {
                self.sval()
            },
    {
        let zero: Self = Self::zero();
        let one: Self = Self::one();
        self.clamp(zero, one)
    }
}

impl PhysicsNum for i64 {
    open spec fn sval(self) -> int {
        self as int
    }

    fn zero() -> (r: Self) {
        0
    }

    fn one() -> (r: Self) {
        1
    }

    fn add(self, other: Self) -> (r: Self) {
        self + other
    }

    fn sub(self, other: Self) -> (r: Self) {
        self - other
    }

    fn mul(self, other: Self) -> (r: Self) {
        self * other
    }

    fn div(self, other: Self) -> (r: Self) {
        if other > 0 {
            self / other
        } else {
            let d = -other;
            let q = self / d;
            proof {
                if self >= 0 {
                    vstd::arithmetic::div_mod::lemma_div_pos_is_pos(self as int, d as int);
                    vstd::arithmetic::div_mod::lemma_div_nonincreasing(self as int, d as int);
                } else if self > i64::MIN {
                    vstd::arithmetic::div_mod::lemma_div_pos_is_pos(-(self as int), d as int);
                    vstd::arithmetic::div_mod::lemma_div_nonincreasing(-(self as int), d as int);
                } else {
                    vstd::arithmetic::div_mod::lemma_div_pos_is_pos(-(self as int), d as int);
                    vstd::arithmetic::div_mod::lemma_div_decreases(-(self as int), d as int);
                }
            }
            -q
        }
    }

    fn neg(self) -> (r: Self) {
        -self
    }

    fn abs(self) -> (r: Self) {
        if self < 0 {
            -self
        } else {
            self
        }
    }

    fn signum(self) -> (r: Self) {
        if self > 0 {
            1
        } else if self == 0 {
            0
        } else {
            -1
        }
    }

    fn lt(self, other: Self) -> (r: bool) {
        self < other
    }

    fn le(self, other: Self) -> (r: bool) {
        self <= other
    }

    fn min(self, other: Self) -> (r: Self) {
        if self <= other {
            self
        } else {
            other
        }
    }

    fn max(self, other: Self) -> (r: Self) {
        if self >= other {
            self
        } else {
            other
        }
    }
}

/// One more than one, derived from the scalar contract.
pub fn two<N: PhysicsNum>() -> (r: N)
    ensures
        r.sval() == 2,
{
    N::two()
}

/// Clamp a scalar to the closed interval from `lo` to `hi`.
pub fn clamp<N: PhysicsNum>(v: N, lo: N, hi: N) -> (r: N)
    requires
        lo.sval() <= hi.sval(),
    ensures
        r.sval() == if v.sval() <= lo.sval() {
            lo.sval()
        } else if v.sval() >= hi.sval() {
            hi.sval()
        } else {
            v.sval()
        },
{
    v.clamp(lo, hi)
}

/// Squared magnitude of a vector. Exact: no rounding takes place.
pub fn magnitude2(v: Vector2) -> (r: i64)
    requires
        vec_within(v, 0x4000_0000),
    ensures
        r == spec_magnitude2(v),
        r >= 0,
{
    proof {
        lemma_mul_within(v.x as int, v.x as int, 0x4000_0000, 0x4000_0000);
        lemma_mul_within(v.y as int, v.y as int, 0x4000_0000, 0x4000_0000);
        assert(v.x * v.x >= 0 && v.y * v.y >= 0) by (nonlinear_arith);
    }
    v.x * v.x + v.y * v.y
}

/// Dot product of two vectors. Exact: no rounding takes place.
pub fn dot(v: Vector2, w: Vector2) -> (r: i64)
    requires
        vec_within(v, 0x4000_0000),
        vec_within(w, 0x4000_0000),
    ensures
        r == spec_dot(v, w),
{
    proof {
        lemma_mul_within(v.x as int, w.x as int, 0x4000_0000, 0x4000_0000);
        lemma_mul_within(v.y as int, w.y as int, 0x4000_0000, 0x4000_0000);
    }
    v.x * w.x + v.y * w.y
}

} // verus!
