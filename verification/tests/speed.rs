use ragdoll_lifecycle::behaviors::clamp_velocity_to_max_xz;
use ragdoll_lifecycle::behaviors::isqrt64;
use ragdoll_lifecycle::vec::Vec3;

#[test]
fn isqrt_small_values() {
    assert_eq!(isqrt64(0), 0);
    assert_eq!(isqrt64(1), 1);
    assert_eq!(isqrt64(3), 1);
    assert_eq!(isqrt64(4), 2);
    assert_eq!(isqrt64(24), 4);
    assert_eq!(isqrt64(25), 5);
}

#[test]
fn isqrt_large_values() {
    assert_eq!(isqrt64(u64::MAX), 4_294_967_295);
    assert_eq!(isqrt64(1_000_000_000_000_000_000), 1_000_000_000);
}

#[test]
fn clamp_leaves_slow_velocities_alone() {
    let v = Vec3 {
        x: 3_000,
        y: 77,
        z: 4_000,
    };
    // Plane speed is 5000, the ceiling is 10000: unchanged.
    assert_eq!(clamp_velocity_to_max_xz(v, 10_000), v);
    // Exactly at the ceiling is also within it.
    assert_eq!(clamp_velocity_to_max_xz(v, 5_000), v);
}

#[test]
fn clamp_rescales_fast_velocities() {
    // A 3-4-5 triangle: plane speed 5000 against a ceiling of 2500
    // halves the plane components; the vertical one passes through.
    let v = Vec3 {
        x: 3_000,
        y: 77,
        z: 4_000,
    };
    assert_eq!(
        clamp_velocity_to_max_xz(v, 2_500),
        Vec3 {
            x: 1_500,
            y: 77,
            z: 2_000
        }
    );
}

#[test]
fn clamp_keeps_signs() {
    let v = Vec3 {
        x: -3_000,
        y: -5,
        z: 4_000,
    };
    assert_eq!(
        clamp_velocity_to_max_xz(v, 2_500),
        Vec3 {
            x: -1_500,
            y: -5,
            z: 2_000
        }
    );
}

#[test]
fn clamp_to_zero_stops_plane_movement() {
    let v = Vec3 {
        x: 3_000,
        y: 9,
        z: -4_000,
    };
    assert_eq!(
        clamp_velocity_to_max_xz(v, 0),
        Vec3 { x: 0, y: 9, z: 0 }
    );
}
