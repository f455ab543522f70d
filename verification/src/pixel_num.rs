//! The two production granularities of the scalar domain: whole pixels and
//! sub-pixels, 256 sub-pixel units per pixel. The two wrappers are distinct
//! types that never mix silently; conversion is explicit and truncates the
//! sub-pixel remainder.

use vstd::prelude::*;

verus! {

use crate::physics_num::{PhysicsNum, tdiv};

/// Sub-pixel units per pixel: the fixed ratio between the two granularities.
pub const SUB_PIXELS_PER_PIXEL: i64 = 256;

/// A raw sub-pixel magnitude clamped to the closed interval from zero to
/// one pixel.
pub open spec fn spec_clamp_zero_one_pixel(v: int) -> int {
    if v <= 0 {
        0
    } else if v >= SUB_PIXELS_PER_PIXEL {
        SUB_PIXELS_PER_PIXEL as int
    } else {
        v
    }
}

/// A scalar counted in whole pixels.
#[derive(Clone, Copy, Debug, PartialEq, Eq, Structural)]
pub struct PixelI64(pub i64);

/// A scalar counted in sub-pixel units (1/256th of a pixel).
#[derive(Clone, Copy, Debug, PartialEq, Eq, Structural)]
pub struct SubPixelI64(pub i64);

impl PixelI64 {
    pub fn new(value: i64) -> (r: Self)
        ensures
            r.0 == value,
    {
        PixelI64(value)
    }
}

impl SubPixelI64 {
    pub fn new(value: i64) -> (r: Self)
        ensures
            r.0 == value,
    {
        SubPixelI64(value)
    }

    /// The whole-pixel part of this sub-pixel count: divides by the
    /// sub-pixel ratio and discards the remainder (truncates toward zero).
    pub fn approx_pixel(self) -> (r: PixelI64)
        requires
            self.0 > i64::MIN,
        ensures
            r.0 == tdiv(self.0 as int, SUB_PIXELS_PER_PIXEL as int),
    {
        if self.0 >= 0 {
            PixelI64(self.0 / SUB_PIXELS_PER_PIXEL)
        } else {
            let q = (-self.0) / SUB_PIXELS_PER_PIXEL;
            proof {
                vstd::arithmetic::div_mod::lemma_div_pos_is_pos(
                    -(self.0 as int),
                    SUB_PIXELS_PER_PIXEL as int,
                );
                vstd::arithmetic::div_mod::lemma_div_nonincreasing(
                    -(self.0 as int),
                    SUB_PIXELS_PER_PIXEL as int,
                );
            }
            PixelI64(-q)
        }
    }

    /// Clamp this value to the closed interval from zero to one pixel,
    /// normalizing a raw input magnitude.
    pub fn clamp_zero_one_pixel(self) -> (r: Self)
        ensures
            r.0 == spec_clamp_zero_one_pixel(self.0 as int),
    {
        if self.0 <= 0 {
            SubPixelI64(0)
        } else if self.0 >= SUB_PIXELS_PER_PIXEL {
            SubPixelI64(SUB_PIXELS_PER_PIXEL)
        } else {
            self
        }
    }
}

impl PhysicsNum for PixelI64 {
    open spec fn sval(self) -> int {
        self.0 as int
    }

    fn zero() -> (r: Self) {
        PixelI64(0)
    }

    fn one() -> (r: Self) {
        PixelI64(1)
    }

    fn add(self, other: Self) -> (r: Self) {
        PixelI64(self.0 + other.0)
    }

    fn sub(self, other: Self) -> (r: Self) {
        PixelI64(self.0 - other.0)
    }

    fn mul(self, other: Self) -> (r: Self) {
        PixelI64(self.0 * other.0)
    }

    fn div(self, other: Self) -> (r: Self) {
        PixelI64(PhysicsNum::div(self.0, other.0))
    }

    fn neg(self) -> (r: Self) {
        PixelI64(-self.0)
    }

    fn abs(self) -> (r: Self) {
        if self.0 < 0 {
            PixelI64(-self.0)
        } else {
            self
        }
    }

    fn signum(self) -> (r: Self) {
        if self.0 > 0 {
            PixelI64(1)
        } else if self.0 == 0 {
            PixelI64(0)
        } else {
            PixelI64(-1)
        }
    }

    fn lt(self, other: Self) -> (r: bool) {
        self.0 < other.0
    }

    fn le(self, other: Self) -> (r: bool) {
        self.0 <= other.0
    }

    fn min(self, other: Self) -> (r: Self) {
        if self.0 <= other.0 {
            self
        } else {
            other
        }
    }

    fn max(self, other: Self) -> (r: Self) {
        if self.0 >= other.0 {
            self
        } else {
            other
        }
    }
}

impl PhysicsNum for SubPixelI64 {
    open spec fn sval(self) -> int {
        self.0 as int
    }

    fn zero() -> (r: Self) {
        SubPixelI64(0)
    }

    fn one() -> (r: Self) {
        SubPixelI64(1)
    }

    fn add(self, other: Self) -> (r: Self) {
        SubPixelI64(self.0 + other.0)
    }

    fn sub(self, other: Self) -> (r: Self) {
        SubPixelI64(self.0 - other.0)
    }

    fn mul(self, other: Self) -> (r: Self) {
        SubPixelI64(self.0 * other.0)
    }

    fn div(self, other: Self) -> (r: Self) {
        SubPixelI64(PhysicsNum::div(self.0, other.0))
    }

    fn neg(self) -> (r: Self) {
        SubPixelI64(-self.0)
    }

    fn abs(self) -> (r: Self) {
        if self.0 < 0 {
            SubPixelI64(-self.0)
        } else {
            self
        }
    }

    fn signum(self) -> (r: Self) {
        if self.0 > 0 {
            SubPixelI64(1)
        } else if self.0 == 0 {
            SubPixelI64(0)
        } else {
            SubPixelI64(-1)
        }
    }

    fn lt(self, other: Self) -> (r: bool) {
        self.0 < other.0
    }

    fn le(self, other: Self) -> (r: bool) {
        self.0 <= other.0
    }

    fn min(self, other: Self) -> (r: Self) {
        if self.0 <= other.0 {
            self
        } else {
            other
        }
    }

    fn max(self, other: Self) -> (r: Self) {
        if self.0 >= other.0 {
            self
        } else {
            other
        }
    }
}

} // verus!
