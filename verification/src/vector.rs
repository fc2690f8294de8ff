//! Two-dimensional fixed-point vectors.

use vstd::prelude::*;

verus! {

/// A velocity: the distance covered per physics step at speed 1.0, each
/// component a fixed-point scalar.
#[derive(Clone, Copy, Debug, PartialEq, Eq, Structural)]
pub struct Vector2 {
    pub x: i32,
    pub y: i32,
}

/// A distance to move by, each component a count of 1/65536².
#[derive(Clone, Copy, Debug, PartialEq, Eq, Structural)]
pub struct Displacement {
    pub x: i64,
    pub y: i64,
}

impl Vector2 {
    /// Whether both components have an opposite that fits the component
    /// type, that is, neither is `i32::MIN`.
    pub open spec fn reversible(self) -> bool {
        self.x > i32::MIN && self.y > i32::MIN
    }

    /// The vector with the given components.
    pub fn new(x: i32, y: i32) -> (v: Vector2)
        ensures
            v.x == x,
            v.y == y,
    {
        Vector2 { x, y }
    }

    /// The vector at rest.
    pub fn zero() -> (v: Vector2)
        ensures
            v.x == 0,
            v.y == 0,
    {
        Vector2 { x: 0, y: 0 }
    }

    /// Decides [`Vector2::reversible`].
    pub fn is_reversible(&self) -> (yes: bool)
        ensures
            yes == self.reversible(),
    {
        self.x > i32::MIN && self.y > i32::MIN
    }

    /// The exact product of this vector and the scalar `speed`.
    pub fn scaled(&self, speed: i32) -> (d: Displacement)
        ensures
            d.x == self.x * speed,
            d.y == self.y * speed,
    {
        let s: i64 = speed as i64;
        let x: i64 = self.x as i64;
        let y: i64 = self.y as i64;
        assert(-0x4000_0000_0000_0000 <= x * s <= 0x4000_0000_0000_0000) by (nonlinear_arith)
            requires
                -0x8000_0000 <= x < 0x8000_0000,
                -0x8000_0000 <= s < 0x8000_0000,
        ;
        assert(-0x4000_0000_0000_0000 <= y * s <= 0x4000_0000_0000_0000) by (nonlinear_arith)
            requires
                -0x8000_0000 <= y < 0x8000_0000,
                -0x8000_0000 <= s < 0x8000_0000,
        ;
        Displacement { x: x * s, y: y * s }
    }
}

} // verus!
