//! Exact scalar and rectangle types for placement geometry and UV
//! coordinates.
//!
//! All geometry in this crate is carried as exact fractions of 64-bit
//! integers, so that placement and texture coordinates are reproducible
//! bit for bit. A host renderer divides `num / den` once, at the boundary,
//! in whatever precision it draws with.

use vstd::prelude::*;

verus! {

/// An exact fraction `num / den` with a positive denominator.
#[derive(Clone, Copy, Debug, PartialEq, Eq, Structural)]
#[verifier::ext_equal]
pub struct Frac {
    pub num: i64,
    pub den: i64,
}

impl Frac {
    /// Well-formed: the denominator is positive.
    pub open spec fn wf(self) -> bool {
        self.den >= 1
    }

    /// Normalized to `[0, 1]`: the value lies between zero and one.
    pub open spec fn is_normalized(self) -> bool {
        &&& self.wf()
        &&& 0 <= self.num <= self.den
    }

    /// The fraction `v / 1`.
    pub fn from_int(v: i64) -> (r: Frac)
        ensures
            r == (Frac { num: v, den: 1 }),
    {
        Frac { num: v, den: 1 }
    }

    /// Whether the fraction's value equals the integer `v`.
    pub fn eq_int(&self, v: i64) -> (r: bool)
        requires
            self.wf(),
        ensures
            r == (self.num == v * self.den),
    {
        proof {
            assert(i128::MIN <= (v as int) * (self.den as int) <= i128::MAX) by (nonlinear_arith)
                requires
                    i64::MIN <= v <= i64::MAX,
                    i64::MIN <= self.den <= i64::MAX,
            ;
        }
        (self.num as i128) == (v as i128) * (self.den as i128)
    }
}

/// An axis-aligned rectangle in normalized texture space: `min` and `max`
/// corners, each coordinate an exact fraction.
#[derive(Clone, Copy, Debug, PartialEq, Eq, Structural)]
#[verifier::ext_equal]
pub struct UvRect {
    pub min_x: Frac,
    pub min_y: Frac,
    pub max_x: Frac,
    pub max_y: Frac,
}

impl UvRect {
    /// The full-texture rectangle, `(0, 0)` to `(1, 1)`: the neutral value
    /// held by unused slots of a packed UV array.
    pub open spec fn spec_full() -> UvRect {
        UvRect {
            min_x: Frac { num: 0, den: 1 },
            min_y: Frac { num: 0, den: 1 },
            max_x: Frac { num: 1, den: 1 },
            max_y: Frac { num: 1, den: 1 },
        }
    }

    /// The full-texture rectangle, `(0, 0)` to `(1, 1)`.
    pub fn full() -> (r: UvRect)
        ensures
            r == UvRect::spec_full(),
    {
        UvRect {
            min_x: Frac { num: 0, den: 1 },
            min_y: Frac { num: 0, den: 1 },
            max_x: Frac { num: 1, den: 1 },
            max_y: Frac { num: 1, den: 1 },
        }
    }
}

/// An axis-aligned placement rectangle in world units: an exact origin and
/// an integer size.
#[derive(Clone, Copy, Debug, PartialEq, Eq, Structural)]
#[verifier::ext_equal]
pub struct WorldRect {
    pub origin_x: Frac,
    pub origin_y: Frac,
    pub size_x: i64,
    pub size_y: i64,
}

} // verus!
