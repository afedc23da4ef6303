//! Fixed-point quantities.
//!
//! The scene is described with decimal numbers such as `200.1` or `0.02`. They
//! are held exactly, as whole numbers of thousandths, so that every statement
//! about a size, a position or an angle is a statement about integers.

use vstd::prelude::*;

verus! {

/// A decimal quantity with three fractional digits, stored as a count of
/// thousandths: `Milli(200_100)` is 200.1 and `Milli(-100)` is -0.1.
///
/// Lengths are in scene units, angles in radians and hues in degrees.
#[derive(Clone, Copy, Debug, PartialEq, Eq)]
pub struct Milli(pub i64);

impl Milli {
    /// The quantity `units` with no fractional part.
    pub open spec fn whole(units: int) -> Milli
        recommends
            i64::MIN <= units * 1000 <= i64::MAX,
    {
        Milli((units * 1000) as i64)
    }

    /// Converts a whole number of units.
    pub fn from_int(units: i32) -> (m: Milli)
        ensures
            m == Milli::whole(units as int),
            m.0 == units * 1000,
    {
        let wide: i64 = units as i64;
        Milli(wide * 1000)
    }
}

/// A point or an extent in three dimensions.
#[derive(Clone, Copy, Debug, PartialEq, Eq)]
pub struct Vec3 {
    pub x: Milli,
    pub y: Milli,
    pub z: Milli,
}

impl Vec3 {
    /// The vector with the whole-number coordinates `(x, y, z)`.
    pub open spec fn whole(x: int, y: int, z: int) -> Vec3 {
        Vec3 { x: Milli::whole(x), y: Milli::whole(y), z: Milli::whole(z) }
    }

    /// Builds a vector from whole-number coordinates.
    pub fn from_ints(x: i32, y: i32, z: i32) -> (v: Vec3)
        ensures
            v == Vec3::whole(x as int, y as int, z as int),
    {
        Vec3 { x: Milli::from_int(x), y: Milli::from_int(y), z: Milli::from_int(z) }
    }
}

} // verus!
