//! Clamped piecewise-linear interpolation, used for pitch and
//! angle-of-attack gain scheduling during the gravity turn.
//!
//! Values are plain fixed-point integers; the caller picks the scale (the
//! ascent programs use milli-units). The map is linear from the `from` range
//! onto the `to` range and the result is clamped to the `to` range whatever
//! its orientation, so a descending program such as pitch 90 -> 0 works
//! unchanged.

use vstd::prelude::*;

use crate::math::{div_trunc, div_trunc_i128};

verus! {

/// Largest magnitude accepted for domain, codomain and query values; keeps
/// every intermediate product inside `i128`.
pub const COORD_BOUND: i64 = 1_000_000_000_000;

pub struct Interpolate {
    pub from: (i64, i64),
    pub to: (i64, i64),
}

impl Interpolate {
    pub open spec fn wf(self) -> bool {
        &&& self.from.0 != self.from.1
        &&& -COORD_BOUND <= self.from.0 <= COORD_BOUND
        &&& -COORD_BOUND <= self.from.1 <= COORD_BOUND
        &&& -COORD_BOUND <= self.to.0 <= COORD_BOUND
        &&& -COORD_BOUND <= self.to.1 <= COORD_BOUND
    }

    /// Lower end of the codomain, whichever way it is oriented.
    pub open spec fn lo(self) -> int {
        vstd::math::min(self.to.0 as int, self.to.1 as int)
    }

    /// Upper end of the codomain, whichever way it is oriented.
    pub open spec fn hi(self) -> int {
        vstd::math::max(self.to.0 as int, self.to.1 as int)
    }

    /// The unclamped linear image of `x`.
    pub open spec fn lerp_raw(self, x: int) -> int {
        self.to.0 + div_trunc(
            (x - self.from.0) * (self.to.1 - self.to.0),
            self.from.1 - self.from.0,
        )
    }

    /// The linear image of `x`, clamped to the codomain.
    pub open spec fn lerp(self, x: int) -> int {
        if self.lerp_raw(x) < self.lo() {
            self.lo()
        } else if self.lerp_raw(x) > self.hi() {
            self.hi()
        } else {
            self.lerp_raw(x)
        }
    }

    pub fn new(from: (i64, i64), to: (i64, i64)) -> (r: Self)
        ensures
            r.from == from,
            r.to == to,
    {
        Self { from, to }
    }

    /// Evaluate the map at `x`. The result is always inside the closed range
    /// spanned by the codomain bounds, regardless of orientation.
    pub fn inter(&self, x: i64) -> (r: i64)
        requires
            self.wf(),
            -COORD_BOUND <= x <= COORD_BOUND,
        ensures
            r == self.lerp(x as int),
            self.lo() <= r <= self.hi(),
    {
        let dx = x as i128 - self.from.0 as i128;
        let span = self.to.1 as i128 - self.to.0 as i128;
        proof {
            assert(dx * span <= 0x10_0000_0000_0000_0000_0000_0000i128
                && dx * span >= -0x10_0000_0000_0000_0000_0000_0000i128) by (nonlinear_arith)
                requires
                    -2 * COORD_BOUND <= dx <= 2 * COORD_BOUND,
                    -2 * COORD_BOUND <= span <= 2 * COORD_BOUND,
                    COORD_BOUND == 1_000_000_000_000i64,
            ;
        }
        let num = dx * span;
        let den = self.from.1 as i128 - self.from.0 as i128;
        let q = div_trunc_i128(num, den);
        proof {
            vstd::arithmetic::div_mod::lemma_div_nonincreasing(
                vstd::math::abs(num as int) as int,
                vstd::math::abs(den as int) as int,
            );
        }
        let out = self.to.0 as i128 + q;
        let lo = if self.to.0 <= self.to.1 {
            self.to.0
        } else {
            self.to.1
        };
        let hi = if self.to.0 <= self.to.1 {
            self.to.1
        } else {
            self.to.0
        };
        if out < lo as i128 {
            lo
        } else if out > hi as i128 {
            hi
        } else {
            out as i64
        }
    }
}

} // verus!
