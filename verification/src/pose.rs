//! The pose projector: a pure conversion from a 3D position and orientation to
//! a planar pose, and the derivation of a projectile's velocity from that pose.
//!
//! Lengths are fixed-point thousandths of a unit; angles are fixed-point
//! thousandths of a degree. The conversion from a floating-point quaternion to
//! the axis–angle form consumed here happens outside the verified core.

use vstd::prelude::*;

verus! {

/// Linear speed of every projectile, in units per second.
pub const PROJECTILE_SPEED: i64 = 200;

/// A point or direction in 3D space, in thousandths of a unit per coordinate.
/// The plane of play is the x–y plane; z is its normal axis.
#[derive(Clone, Copy, PartialEq, Eq, Structural, Debug)]
pub struct Vec3 {
    pub x: i64,
    pub y: i64,
    pub z: i64,
}

/// An orientation in axis–angle form: a rotation axis and the nonnegative
/// rotation magnitude about it, in thousandths of a degree.
#[derive(Clone, Copy, PartialEq, Eq, Structural, Debug)]
pub struct AxisAngle {
    pub axis: Vec3,
    pub angle_mdeg: u32,
}

/// A planar pose: a position in the plane and a signed rotation angle about
/// the plane's normal axis, in thousandths of a degree.
#[derive(Clone, Copy, PartialEq, Eq, Structural, Debug)]
pub struct Pose2 {
    pub x: i64,
    pub y: i64,
    pub angle_mdeg: i64,
}

/// A planar linear velocity in polar form: a speed in units per second and
/// the direction's signed angle, measured from the planar forward vector
/// (0, 1), in thousandths of a degree. Keeping the polar form makes the
/// magnitude exact; the trigonometric conversion to Cartesian components is a
/// concern of the physics backend.
#[derive(Clone, Copy, PartialEq, Eq, Structural, Debug)]
pub struct Velocity {
    pub speed: i64,
    pub angle_mdeg: i64,
}

/// The signed planar angle an orientation projects to: the axis–angle
/// magnitude when the axis points along the positive normal, its negation
/// otherwise.
pub open spec fn projected_angle(orient: AxisAngle) -> int {
    if orient.axis.z > 0 {
        orient.angle_mdeg as int
    } else {
        -(orient.angle_mdeg as int)
    }
}

/// The planar pose a 3D position and orientation project to: the x and y
/// coordinates with depth discarded, and the signed planar angle.
pub open spec fn project_spec(pos: Vec3, orient: AxisAngle) -> Pose2 {
    Pose2 { x: pos.x, y: pos.y, angle_mdeg: projected_angle(orient) as i64 }
}

/// Project a 3D position and orientation onto the plane of play.
///
/// The projection is meaningful for orientations that are pure rotations
/// about the plane's normal axis; for any other orientation it still returns
/// the best-effort pose derived by the same rule, rather than failing.
pub fn project(pos: Vec3, orient: AxisAngle) -> (p: Pose2)
    ensures
        p.x == pos.x,
        p.y == pos.y,
        orient.axis.z > 0 ==> p.angle_mdeg == orient.angle_mdeg as int,
        orient.axis.z <= 0 ==> p.angle_mdeg == -(orient.angle_mdeg as int),
        p == project_spec(pos, orient),
{
    let angle: i64 = if orient.axis.z > 0 {
        orient.angle_mdeg as i64
    } else {
        -(orient.angle_mdeg as i64)
    };
    Pose2 { x: pos.x, y: pos.y, angle_mdeg: angle }
}

/// The velocity of a projectile fired at the given planar angle: the planar
/// forward vector rotated by that angle, scaled to the fixed projectile
/// speed. In polar form that is exactly the pair (speed, angle).
pub fn velocity_from_angle(angle_mdeg: i64) -> (v: Velocity)
    ensures
        v.speed == PROJECTILE_SPEED,
        v.angle_mdeg == angle_mdeg,
{
    Velocity { speed: PROJECTILE_SPEED, angle_mdeg }
}

} // verus!
