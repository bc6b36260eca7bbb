//! The pose projector and the velocity derived from it.

use tickcore::pose::{project, velocity_from_angle, AxisAngle, Pose2, Vec3, PROJECTILE_SPEED};

fn unit_z(sign: i64) -> Vec3 {
    Vec3 { x: 0, y: 0, z: sign * 1000 }
}

#[test]
fn project_positive_normal_axis() {
    // A 90 degree rotation about the positive normal axis keeps its sign:
    // position (3, 4) in the plane, depth discarded, angle +90 degrees.
    let pos = Vec3 { x: 3000, y: 4000, z: 7000 };
    let orient = AxisAngle { axis: unit_z(1), angle_mdeg: 90_000 };
    let p = project(pos, orient);
    assert_eq!(p, Pose2 { x: 3000, y: 4000, angle_mdeg: 90_000 });
}

#[test]
fn project_negative_normal_axis() {
    // The same magnitude about the negative normal axis flips the sign.
    let pos = Vec3 { x: 3000, y: 4000, z: -2000 };
    let orient = AxisAngle { axis: unit_z(-1), angle_mdeg: 90_000 };
    let p = project(pos, orient);
    assert_eq!(p, Pose2 { x: 3000, y: 4000, angle_mdeg: -90_000 });
}

#[test]
fn project_zero_normal_component_negates() {
    // The positive branch is taken only for a strictly positive normal
    // component; a zero component falls to the negating branch.
    let pos = Vec3 { x: -1000, y: 250, z: 0 };
    let orient = AxisAngle { axis: Vec3 { x: 1000, y: 0, z: 0 }, angle_mdeg: 45_000 };
    let p = project(pos, orient);
    assert_eq!(p, Pose2 { x: -1000, y: 250, angle_mdeg: -45_000 });
}

#[test]
fn project_discards_depth_only() {
    let pos = Vec3 { x: 123, y: -456, z: 789 };
    let orient = AxisAngle { axis: unit_z(1), angle_mdeg: 0 };
    let p = project(pos, orient);
    assert_eq!(p.x, 123);
    assert_eq!(p.y, -456);
    assert_eq!(p.angle_mdeg, 0);
}

#[test]
fn velocity_keeps_exact_speed_for_any_angle() {
    for angle in [-270_000i64, -90_000, 0, 1, 45_000, 90_000, 359_999] {
        let v = velocity_from_angle(angle);
        assert_eq!(v.speed, PROJECTILE_SPEED);
        assert_eq!(v.speed, 200);
        assert_eq!(v.angle_mdeg, angle);
    }
}
