//! Fixed-point units and the plain value types of the playfield.
//!
//! Lengths, velocities and accelerations are counted in steps of 1e-7 of a
//! world unit; forces in steps of 1e-4; weights in steps of 1e-3; fuel in
//! steps of 1e-9. With these scales a force times a weight is a length, and a
//! force times a weight divided by one hundred (the fuel cost of a force) is
//! an amount of fuel, both without rounding.
use vstd::prelude::*;

verus! {

/// Length steps in one world unit.
pub const LENGTH_PER_UNIT: i64 = 10_000_000;

/// Force steps in one world unit of force.
pub const FORCE_PER_UNIT: i64 = 10_000;

/// Weight steps in a weight of one.
pub const WEIGHT_PER_UNIT: i64 = 1_000;

/// Fuel steps in one unit of fuel.
pub const FUEL_PER_UNIT: i64 = 1_000_000_000;

/// Decimal places of a force step.
pub const FORCE_PLACES: u32 = 4;

/// Decimal places of a weight step.
pub const WEIGHT_PLACES: u32 = 3;

/// Decimal places of a fuel step.
pub const FUEL_PLACES: u32 = 9;

/// A two-dimensional vector: a force, a velocity, an acceleration or a
/// position, in the units of what it stands for.
#[derive(Clone, Copy, PartialEq, Eq, Debug, Structural)]
pub struct Vector2 {
    pub x: i64,
    pub y: i64,
}

impl Vector2 {
    pub fn new(x: i64, y: i64) -> (r: Vector2)
        ensures
            r.x == x,
            r.y == y,
    {
        Vector2 { x, y }
    }
}

/// An axis-aligned rectangle: top-left corner `(x, y)` and size `w` by `h`,
/// all in length steps.
#[derive(Clone, Copy, PartialEq, Eq, Debug, Structural)]
pub struct Rect {
    pub x: i64,
    pub y: i64,
    pub w: i64,
    pub h: i64,
}

impl Rect {
    pub fn new(x: i64, y: i64, w: i64, h: i64) -> (r: Rect)
        ensures
            r == (Rect { x, y, w, h }),
    {
        Rect { x, y, w, h }
    }
}

} // verus!
