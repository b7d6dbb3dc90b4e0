//! Plane and space vectors over fixed-point coordinates.
//!
//! A coordinate is a count of thousandths of a world unit, so all geometry
//! stays in exact integer arithmetic.  The engine's ground plane is spanned
//! by the X and Z axes with Y pointing up, while a plane vector is an
//! ordinary screen-style (x, y) pair; the conversions between the two views
//! drop or reintroduce the vertical axis and flip the sign of the depth
//! axis, so that "up" on the plane becomes "forward" (negative Z) in space.

use vstd::prelude::*;

verus! {

/// A vector in the plane, in thousandths of a world unit per axis.
#[derive(Clone, Copy, Debug, PartialEq, Eq, Structural)]
pub struct Vec2 {
    pub x: i64,
    pub y: i64,
}

/// A vector in space, in thousandths of a world unit per axis.
#[derive(Clone, Copy, Debug, PartialEq, Eq, Structural)]
pub struct Vec3 {
    pub x: i64,
    pub y: i64,
    pub z: i64,
}

impl Vec2 {
    /// True when every coordinate can be negated without overflow.
    pub open spec fn wf(self) -> bool {
        self.x > i64::MIN && self.y > i64::MIN
    }

    pub fn new(x: i64, y: i64) -> (v: Vec2)
        ensures
            v == (Vec2 { x, y }),
    {
        Vec2 { x, y }
    }

    pub open spec fn spec_to_vec3(self) -> Vec3 {
        Vec3 { x: self.x, y: 0, z: (-self.y) as i64 }
    }

    /// Lift a plane vector onto the ground plane: (x, y) becomes (x, 0, -y).
    pub fn to_vec3(self) -> (v: Vec3)
        requires
            self.wf(),
        ensures
            v == self.spec_to_vec3(),
    {
        Vec3 { x: self.x, y: 0, z: -self.y }
    }
}

impl Vec3 {
    /// True when every coordinate can be negated without overflow.
    pub open spec fn wf(self) -> bool {
        self.x > i64::MIN && self.y > i64::MIN && self.z > i64::MIN
    }

    pub fn new(x: i64, y: i64, z: i64) -> (v: Vec3)
        ensures
            v == (Vec3 { x, y, z }),
    {
        Vec3 { x, y, z }
    }

    pub open spec fn spec_to_vec2(self) -> Vec2 {
        Vec2 { x: self.x, y: (-self.z) as i64 }
    }

    /// Project a space vector onto the plane: (x, y, z) becomes (x, -z),
    /// dropping the vertical axis.
    pub fn to_vec2(self) -> (v: Vec2)
        requires
            self.wf(),
        ensures
            v == self.spec_to_vec2(),
    {
        Vec2 { x: self.x, y: -self.z }
    }

    pub open spec fn spec_zero() -> Vec3 {
        Vec3 { x: 0, y: 0, z: 0 }
    }

    pub fn zero() -> (v: Vec3)
        ensures
            v == Vec3::spec_zero(),
    {
        Vec3 { x: 0, y: 0, z: 0 }
    }
}

} // verus!
