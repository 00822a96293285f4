//! Fixed-point scalars: the numeric domain of positions, texture
//! coordinates and colors.
//!
//! A [`Fixed`] stands for the real number `thousandths / 1000`, so `1.0` is
//! `Fixed { thousandths: 1000 }`. Every coordinate and color channel this
//! crate works with is exactly representable in thousandths, and negation
//! (the one arithmetic operation the shader model needs) is exact.

use vstd::prelude::*;

verus! {

/// A real number in units of one thousandth: `thousandths / 1000`.
#[derive(Clone, Copy, Debug, PartialEq, Eq, Structural)]
pub struct Fixed {
    /// The value scaled by 1000.
    pub thousandths: i32,
}

/// The [`Fixed`] whose value is `t / 1000`.
pub open spec fn fx(t: i32) -> Fixed {
    Fixed { thousandths: t }
}

impl Fixed {
    /// Builds the scalar `t / 1000`.
    pub fn new(t: i32) -> (r: Fixed)
        ensures
            r == fx(t),
    {
        Fixed { thousandths: t }
    }

    /// Exact negation: `-(t / 1000)` is `(-t) / 1000`.
    pub fn neg(self) -> (r: Fixed)
        requires
            self.thousandths != i32::MIN,
        ensures
            r.thousandths == -(self.thousandths as int),
    {
        Fixed { thousandths: -self.thousandths }
    }
}

} // verus!
