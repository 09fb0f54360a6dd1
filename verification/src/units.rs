//! Lengths and planar coordinates, kept as whole millimeters.

use vstd::prelude::*;

verus! {

/// Whole centimeters in `mm` millimeters, rounded toward zero.
pub open spec fn whole_centimeters(mm: int) -> int {
    if mm >= 0 {
        mm / 10
    } else {
        -((-mm) / 10)
    }
}

/// A signed length in millimeters.
#[derive(Clone, Copy, Debug, PartialEq, Eq, Structural)]
pub struct MilliMeter(pub i64);

impl MilliMeter {
    /// The length in millimeters.
    pub fn as_millimeters(&self) -> (mm: i64)
        ensures
            mm == self.0,
    {
        self.0
    }

    /// The length in whole centimeters, rounded toward zero.
    pub fn as_centimeters(&self) -> (cm: i64)
        ensures
            cm == whole_centimeters(self.0 as int),
    {
        self.0 / 10
    }
}

/// A position in the plane.
#[derive(Clone, Copy, Debug, PartialEq, Eq, Structural)]
pub struct Coord {
    pub x: MilliMeter,
    pub y: MilliMeter,
}

} // verus!
