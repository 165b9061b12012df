//! Frequency values, in fixed-point micro-hertz.

use vstd::prelude::*;

use crate::SCALE;

verus! {

/// 2*pi in micro-units, to the nearest millionth.
pub const TWO_PI: u64 = 6_283_185;

/// A frequency in micro-hertz: `Hertz(1_000_000)` is one cycle per
/// second.
#[derive(Clone, Copy, Debug, PartialEq, Eq, Structural)]
pub struct Hertz(pub u64);

impl Hertz {
    /// The angular velocity `2*pi*f`, in micro-radians per second.
    pub fn angular_velocity(self) -> (r: u64)
        requires
            self.0 * TWO_PI / (SCALE as int) <= u64::MAX,
        ensures
            r == self.0 * TWO_PI / (SCALE as int),
    {
        crate::mul_div(self.0, TWO_PI, SCALE)
    }
}

} // verus!
