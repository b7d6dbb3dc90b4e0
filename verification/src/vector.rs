//! Coordinate-frame-tagged vectors.
//!
//! A plain pair or triple of numbers does not say which axes it spans.  The
//! types here tag a [`Vec2`] or [`Vec3`] with the frame it lives in, and
//! [`Vector`] collects the frames into one sum type with conversions to the
//! engine's plane view (`to_bevy_2d`) and space view (`to_bevy_3d`).

use vstd::prelude::*;

use crate::vec::Vec2;
use crate::vec::Vec3;

verus! {

/// A screen-space (x, y) pair.  When converted to space, "up in 2D" becomes
/// "forward in negative Z".
#[allow(non_camel_case_types)]
#[derive(Clone, Copy, Debug, PartialEq, Eq, Structural)]
pub struct XY_2D(pub Vec2);

/// A ground-plane pair: `.x` is the space X, `.y` is the space Z; the
/// implicit space Y is 0.
#[allow(non_camel_case_types)]
#[derive(Clone, Copy, Debug, PartialEq, Eq, Structural)]
pub struct XZ_3D(pub Vec2);

/// A vertical-plane pair: `.x` is the space Y, `.y` is the space Z; the
/// implicit space X is 0.
#[allow(non_camel_case_types)]
#[derive(Clone, Copy, Debug, PartialEq, Eq, Structural)]
pub struct YZ_3D(pub Vec2);

/// A facing-plane pair: really (space X, space Y); the implicit space Z
/// is 0.
#[allow(non_camel_case_types)]
#[derive(Clone, Copy, Debug, PartialEq, Eq, Structural)]
pub struct XY_3D(pub Vec2);

/// A full three-component space vector.
#[allow(non_camel_case_types)]
#[derive(Clone, Copy, Debug, PartialEq, Eq, Structural)]
pub struct XYZ_3D(pub Vec3);

/// A vector together with the coordinate frame it is expressed in.
#[allow(non_camel_case_types)]
#[derive(Clone, Copy, Debug, PartialEq, Eq, Structural)]
pub enum Vector {
    XZ_3D(XZ_3D),
    YZ_3D(YZ_3D),
    XY_2D(XY_2D),
    XY_3D(XY_3D),
    XYZ_3D(XYZ_3D),
}

impl XY_2D {
    pub fn to_vector(self) -> (v: Vector)
        ensures
            v == Vector::XY_2D(self),
    {
        Vector::XY_2D(self)
    }
}

impl XZ_3D {
    pub fn to_vector(self) -> (v: Vector)
        ensures
            v == Vector::XZ_3D(self),
    {
        Vector::XZ_3D(self)
    }
}

impl YZ_3D {
    pub fn to_vector(self) -> (v: Vector)
        ensures
            v == Vector::YZ_3D(self),
    {
        Vector::YZ_3D(self)
    }
}

impl XY_3D {
    pub fn to_vector(self) -> (v: Vector)
        ensures
            v == Vector::XY_3D(self),
    {
        Vector::XY_3D(self)
    }
}

impl XYZ_3D {
    pub fn to_vector(self) -> (v: Vector)
        ensures
            v == Vector::XYZ_3D(self),
    {
        Vector::XYZ_3D(self)
    }
}

impl From<XY_2D> for Vector {
    fn from(xy_2d: XY_2D) -> (v: Vector)
        ensures
            v == Vector::XY_2D(xy_2d),
    {
        Vector::XY_2D(xy_2d)
    }
}

impl vstd::std_specs::convert::FromSpecImpl<XY_2D> for Vector {
    open spec fn obeys_from_spec() -> bool {
        true
    }

    open spec fn from_spec(t: XY_2D) -> Vector {
        Vector::XY_2D(t)
    }
}

impl From<XZ_3D> for Vector {
    fn from(xz_3d: XZ_3D) -> (v: Vector)
        ensures
            v == Vector::XZ_3D(xz_3d),
    {
        Vector::XZ_3D(xz_3d)
    }
}

impl vstd::std_specs::convert::FromSpecImpl<XZ_3D> for Vector {
    open spec fn obeys_from_spec() -> bool {
        true
    }

    open spec fn from_spec(t: XZ_3D) -> Vector {
        Vector::XZ_3D(t)
    }
}

impl From<YZ_3D> for Vector {
    fn from(yz_3d: YZ_3D) -> (v: Vector)
        ensures
            v == Vector::YZ_3D(yz_3d),
    {
        Vector::YZ_3D(yz_3d)
    }
}

impl vstd::std_specs::convert::FromSpecImpl<YZ_3D> for Vector {
    open spec fn obeys_from_spec() -> bool {
        true
    }

    open spec fn from_spec(t: YZ_3D) -> Vector {
        Vector::YZ_3D(t)
    }
}

impl From<XY_3D> for Vector {
    fn from(xy_3d: XY_3D) -> (v: Vector)
        ensures
            v == Vector::XY_3D(xy_3d),
    {
        Vector::XY_3D(xy_3d)
    }
}

impl vstd::std_specs::convert::FromSpecImpl<XY_3D> for Vector {
    open spec fn obeys_from_spec() -> bool {
        true
    }

    open spec fn from_spec(t: XY_3D) -> Vector {
        Vector::XY_3D(t)
    }
}

impl From<XYZ_3D> for Vector {
    fn from(xyz_3d: XYZ_3D) -> (v: Vector)
        ensures
            v == Vector::XYZ_3D(xyz_3d),
    {
        Vector::XYZ_3D(xyz_3d)
    }
}

impl vstd::std_specs::convert::FromSpecImpl<XYZ_3D> for Vector {
    open spec fn obeys_from_spec() -> bool {
        true
    }

    open spec fn from_spec(t: XYZ_3D) -> Vector {
        Vector::XYZ_3D(t)
    }
}

pub open spec fn spec_to_bevy_2d(v: Vec3) -> Vec2 {
    Vec2 { x: v.x, y: (-v.z) as i64 }
}

/// Project a space vector to the plane: (x, y, z) becomes (x, -z).
pub fn to_bevy_2d(vec3: Vec3) -> (v: Vec2)
    requires
        vec3.wf(),
    ensures
        v == spec_to_bevy_2d(vec3),
{
    Vec2 { x: vec3.x, y: -vec3.z }
}

pub open spec fn spec_to_bevy_3d(v: Vec2) -> Vec3 {
    Vec3 { x: v.x, y: 0, z: (-v.y) as i64 }
}

/// Lift a plane vector into space: (x, y) becomes (x, 0, -y).
pub fn to_bevy_3d(vec2: Vec2) -> (v: Vec3)
    requires
        vec2.wf(),
    ensures
        v == spec_to_bevy_3d(vec2),
{
    Vec3 { x: vec2.x, y: 0, z: -vec2.y }
}

impl Vector {
    /// True when the negations inside the conversions cannot overflow.
    pub open spec fn wf(self) -> bool {
        match self {
            Vector::XY_2D(XY_2D(v)) => v.wf(),
            Vector::XZ_3D(XZ_3D(v)) => v.wf(),
            Vector::YZ_3D(YZ_3D(v)) => v.wf(),
            Vector::XY_3D(XY_3D(v)) => v.wf(),
            Vector::XYZ_3D(XYZ_3D(v)) => v.wf(),
        }
    }

    pub open spec fn spec_to_bevy_2d(self) -> XY_2D {
        XY_2D(
            match self {
                Vector::XY_2D(XY_2D(v)) => v,
                Vector::XZ_3D(XZ_3D(v)) => v,
                Vector::YZ_3D(YZ_3D(v)) => Vec2 { x: 0, y: (-v.y) as i64 },
                Vector::XY_3D(XY_3D(v)) => Vec2 { x: v.x, y: 0 },
                Vector::XYZ_3D(XYZ_3D(v)) => spec_to_bevy_2d(v),
            },
        )
    }

    /// View this vector in the plane.  Plane and ground-plane pairs pass
    /// through unchanged; the other frames keep only the axes that the
    /// plane can show.
    pub fn to_bevy_2d(self) -> (r: XY_2D)
        requires
            self.wf(),
        ensures
            r == self.spec_to_bevy_2d(),
    {
        XY_2D(
            match self {
                Vector::XY_2D(XY_2D(v)) => v,
                Vector::XZ_3D(XZ_3D(v)) => v,
                Vector::YZ_3D(YZ_3D(v)) => Vec2 { x: 0, y: -v.y },
                Vector::XY_3D(XY_3D(v)) => Vec2 { x: v.x, y: 0 },
                Vector::XYZ_3D(XYZ_3D(v)) => to_bevy_2d(v),
            },
        )
    }

    pub open spec fn spec_to_bevy_3d(self) -> XYZ_3D {
        XYZ_3D(
            match self {
                Vector::XY_2D(XY_2D(v)) => spec_to_bevy_3d(v),
                Vector::XZ_3D(XZ_3D(v)) => Vec3 { x: v.x, y: 0, z: v.y },
                Vector::YZ_3D(YZ_3D(v)) => Vec3 { x: 0, y: v.x, z: v.y },
                Vector::XY_3D(XY_3D(v)) => Vec3 { x: v.x, y: v.y, z: 0 },
                Vector::XYZ_3D(XYZ_3D(v)) => v,
            },
        )
    }

    /// View this vector in space.  Each frame fills the axes it does not
    /// carry with 0; a screen-space pair is lifted with its "up" turned
    /// into "forward" (negative Z).
    pub fn to_bevy_3d(self) -> (r: XYZ_3D)
        requires
            self.wf(),
        ensures
            r == self.spec_to_bevy_3d(),
    {
        XYZ_3D(
            match self {
                Vector::XY_2D(XY_2D(v)) => to_bevy_3d(v),
                Vector::XZ_3D(XZ_3D(v)) => Vec3 { x: v.x, y: 0, z: v.y },
                Vector::YZ_3D(YZ_3D(v)) => Vec3 { x: 0, y: v.x, z: v.y },
                Vector::XY_3D(XY_3D(v)) => Vec3 { x: v.x, y: v.y, z: 0 },
                Vector::XYZ_3D(XYZ_3D(v)) => v,
            },
        )
    }
}

} // verus!
