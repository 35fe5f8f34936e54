//! Geometric primitives: lengths, ratios, relative lengths, sizes, points,
//! per-side and per-corner value collections, and saturating arithmetic.
//!
//! A length is an `i64` in abstract layout units. A ratio is an `i64` in
//! permille: `1000` stands for the full base length. Arithmetic on lengths
//! saturates at the `i64` range, so every operation is total; the saturation
//! points are never reached for inputs of realistic magnitude.

use vstd::prelude::*;

verus! {

/// The scale of a ratio: a ratio of `PERMILLE` equals the full base length.
pub const PERMILLE: i64 = 1000;

/// Clamps an unbounded integer into the representable length range.
pub open spec fn sat64(x: int) -> i64 {
    if x > i64::MAX {
        i64::MAX
    } else if x < i64::MIN {
        i64::MIN
    } else {
        x as i64
    }
}

/// Division of a scaled product by the ratio scale, rounding toward zero.
pub open spec fn div_mille(x: int) -> int {
    if x >= 0 {
        x / (PERMILLE as int)
    } else {
        -((-x) / (PERMILLE as int))
    }
}

/// Saturating addition of two lengths.
pub fn sat_add(a: i64, b: i64) -> (r: i64)
    ensures
        r == sat64(a + b),
{
    let s: i128 = a as i128 + b as i128;
    if s > i64::MAX as i128 {
        i64::MAX
    } else if s < i64::MIN as i128 {
        i64::MIN
    } else {
        s as i64
    }
}

/// Saturating subtraction of two lengths.
pub fn sat_sub(a: i64, b: i64) -> (r: i64)
    ensures
        r == sat64(a - b),
{
    let s: i128 = a as i128 - b as i128;
    if s > i64::MAX as i128 {
        i64::MAX
    } else if s < i64::MIN as i128 {
        i64::MIN
    } else {
        s as i64
    }
}

/// A ratio of a base length plus an absolute offset.
///
/// `ratio` is in permille of the base; `abs` is an absolute length. The pair
/// resolves against a concrete base length with [`RelAbs::relative_to`].
#[derive(Debug, Clone, Copy, PartialEq, Eq, Hash)]
pub struct RelAbs {
    /// The relative part, in permille of the base length.
    pub ratio: i64,
    /// The absolute part, in layout units.
    pub abs: i64,
}

/// What a relative length resolves to against a base: the scaled product of
/// ratio and base, brought back to layout units, plus the absolute offset,
/// saturated at the representable range.
pub open spec fn rel_to_spec(rel: RelAbs, base: i64) -> i64 {
    sat64(div_mille(rel.ratio * base) + rel.abs)
}

impl RelAbs {
    /// The relative length that always resolves to zero.
    pub fn zero() -> (r: RelAbs)
        ensures
            r == (RelAbs { ratio: 0, abs: 0 }),
    {
        RelAbs { ratio: 0, abs: 0 }
    }

    /// Whether both parts are zero.
    pub fn is_zero(&self) -> (b: bool)
        ensures
            b == (self.ratio == 0 && self.abs == 0),
    {
        self.ratio == 0 && self.abs == 0
    }

    /// Resolves this relative length against a concrete base length.
    pub fn relative_to(&self, base: i64) -> (r: i64)
        ensures
            r == rel_to_spec(*self, base),
    {
        let neg: bool = (self.ratio < 0) != (base < 0);
        let ua: u128 = if self.ratio >= 0 {
            self.ratio as u128
        } else {
            (-(self.ratio as i128)) as u128
        };
        let ub: u128 = if base >= 0 {
            base as u128
        } else {
            (-(base as i128)) as u128
        };
        proof {
            assert(ua * ub <= 0x8000000000000000u128 * 0x8000000000000000u128) by (nonlinear_arith)
                requires
                    ua <= 0x8000000000000000u128,
                    ub <= 0x8000000000000000u128,
            ;
        }
        let prod: u128 = ua * ub;
        let q: u128 = prod / 1000;
        let signed: i128 = if neg {
            -(q as i128)
        } else {
            q as i128
        };
        proof {
            let p: int = self.ratio * base;
            if neg {
                assert(ua * ub == -p) by (nonlinear_arith)
                    requires
                        (self.ratio < 0) != (base < 0),
                        p == self.ratio * base,
                        ua == if self.ratio >= 0 { self.ratio as int } else { -(self.ratio as int) },
                        ub == if base >= 0 { base as int } else { -(base as int) },
                ;
                assert(signed == div_mille(p));
            } else {
                assert(ua * ub == p) by (nonlinear_arith)
                    requires
                        !((self.ratio < 0) != (base < 0)),
                        p == self.ratio * base,
                        ua == if self.ratio >= 0 { self.ratio as int } else { -(self.ratio as int) },
                        ub == if base >= 0 { base as int } else { -(base as int) },
                ;
                assert(signed == div_mille(p));
            }
        }
        let t: i128 = signed + self.abs as i128;
        if t > i64::MAX as i128 {
            i64::MAX
        } else if t < i64::MIN as i128 {
            i64::MIN
        } else {
            t as i64
        }
    }
}

/// A two-dimensional extent: width on the horizontal axis, height on the
/// vertical axis.
#[derive(Debug, Clone, Copy, PartialEq, Eq, Hash)]
pub struct Size {
    /// The width, in layout units.
    pub x: i64,
    /// The height, in layout units.
    pub y: i64,
}

impl Size {
    /// The size with zero extent on both axes.
    pub fn zero() -> (s: Size)
        ensures
            s == (Size { x: 0, y: 0 }),
    {
        Size { x: 0, y: 0 }
    }
}

/// A position within a frame, measured from the frame's top-left corner.
#[derive(Debug, Clone, Copy, PartialEq, Eq, Hash)]
pub struct Point {
    /// The horizontal offset, in layout units.
    pub x: i64,
    /// The vertical offset, in layout units.
    pub y: i64,
}

/// A pair of values, one per axis: `x` horizontal, `y` vertical.
#[derive(Debug, Clone, Copy, PartialEq, Eq, Hash)]
pub struct Axes<T> {
    /// The value for the horizontal axis.
    pub x: T,
    /// The value for the vertical axis.
    pub y: T,
}

/// A value for each of the four sides of a rectangle.
#[derive(Debug, Clone, Copy, PartialEq, Eq, Hash)]
pub struct Sides<T> {
    /// The value for the left side.
    pub left: T,
    /// The value for the top side.
    pub top: T,
    /// The value for the right side.
    pub right: T,
    /// The value for the bottom side.
    pub bottom: T,
}

/// A value for each of the four corners of a rectangle.
#[derive(Debug, Clone, Copy, PartialEq, Eq, Hash)]
pub struct Corners<T> {
    /// The value for the top-left corner.
    pub top_left: T,
    /// The value for the top-right corner.
    pub top_right: T,
    /// The value for the bottom-right corner.
    pub bottom_right: T,
    /// The value for the bottom-left corner.
    pub bottom_left: T,
}

} // verus!
