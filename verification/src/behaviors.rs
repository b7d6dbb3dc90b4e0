//! Movement attributes and the ground-plane speed ceiling.
//!
//! Steering systems consume the attributes here; the lifecycle machine
//! only snapshots and restores them.  The one computation is
//! [`clamp_velocity_to_max_xz`]: cap the ground-plane (X, Z) part of a
//! velocity at a top speed while leaving the vertical component alone.
//! All arithmetic is exact fixed-point: speeds in thousandths of a unit
//! per second, with flooring square root and truncating scaling.

use vstd::prelude::*;

use crate::vec::Vec3;

verus! {

/// A character's cruising speed attribute, in thousandths of a world unit
/// per second.
#[derive(Clone, Copy, Debug, PartialEq, Eq, Structural)]
pub struct MovementSpeed(pub i64);

/// A character's speed ceiling attribute, in thousandths of a world unit
/// per second.
#[derive(Clone, Copy, Debug, PartialEq, Eq, Structural)]
pub struct MaxMovementSpeed(pub i64);

/// Coordinate bound under which none of the clamp's squares and products
/// can overflow.
pub const CLAMP_COORD_LIMIT: i64 = 1_000_000_000;

/// The floor of the square root: the unique `r >= 0` with
/// `r * r <= n < (r + 1) * (r + 1)`.
pub open spec fn spec_isqrt(n: int) -> int {
    choose|r: int| 0 <= r && #[trigger] (r * r) <= n < (r + 1) * (r + 1)
}

/// Floor square root by binary search.
pub fn isqrt64(n: u64) -> (r: u64)
    ensures
        r * r <= n < (r + 1) * (r + 1),
        r == spec_isqrt(n as int),
{
    let mut lo: u64 = 0;
    let mut hi: u64 = 0x1_0000_0000;
    while hi - lo > 1
        invariant
            lo < hi <= 0x1_0000_0000,
            lo * lo <= n,
            n < hi * hi,
        decreases hi - lo,
    {
        let mid = lo + (hi - lo) / 2;
        proof {
            assert(mid as int * mid as int <= 0xffff_ffff * 0xffff_ffff) by (nonlinear_arith)
                requires
                    0 <= mid as int <= 0xffff_ffff,
            ;
        }
        if mid * mid <= n {
            lo = mid;
        } else {
            hi = mid;
        }
    }
    proof {
        assert(hi == lo + 1);
        assert(exists|r: int| 0 <= r && #[trigger] (r * r) <= n < (r + 1) * (r + 1)) by {
            assert(0 <= lo as int && lo as int * lo as int <= n < (lo as int + 1) * (lo as int
                + 1));
        }
        let c = spec_isqrt(n as int);
        assert(0 <= c && c * c <= n < (c + 1) * (c + 1));
        assert(c == lo as int) by (nonlinear_arith)
            requires
                0 <= c,
                c * c <= n as int,
                (n as int) < (c + 1) * (c + 1),
                0 <= lo as int,
                lo as int * lo as int <= n as int,
                (n as int) < (lo as int + 1) * (lo as int + 1),
        ;
    }
    lo
}

/// One velocity component scaled by `max / len`, truncated toward zero.
pub open spec fn spec_scale(v: int, max: int, len: int) -> int {
    if v >= 0 {
        (v * max) / len
    } else {
        -(((-v) * max) / len)
    }
}

fn scale_component(v: i64, max: i64, len: u64) -> (r: i64)
    requires
        -CLAMP_COORD_LIMIT <= v <= CLAMP_COORD_LIMIT,
        0 <= max <= CLAMP_COORD_LIMIT,
        1 <= len,
    ensures
        r == spec_scale(v as int, max as int, len as int),
{
    let av: u64 = if v >= 0 {
        v as u64
    } else {
        (-v) as u64
    };
    proof {
        assert(av as int * max as int <= 1_000_000_000_000_000_000) by (nonlinear_arith)
            requires
                0 <= av as int <= 1_000_000_000,
                0 <= max as int <= 1_000_000_000,
        ;
        assert((av as int * max as int) / (len as int) <= av as int * max as int)
            by (nonlinear_arith)
            requires
                0 <= av as int * max as int,
                1 <= len as int,
        ;
    }
    let q: u64 = (av * (max as u64)) / len;
    let qi = q as i64;
    if v >= 0 {
        qi
    } else {
        -qi
    }
}

/// The ground-plane speed ceiling: if the (X, Z) part of `v` is faster
/// than `max` it is rescaled to (approximately, by flooring arithmetic)
/// length `max`; the vertical component always passes through unchanged.
pub open spec fn spec_clamp_velocity_to_max_xz(v: Vec3, max: int) -> Vec3 {
    let s = v.x * v.x + v.z * v.z;
    if s <= max * max {
        v
    } else {
        let len = spec_isqrt(s);
        Vec3 {
            x: spec_scale(v.x as int, max, len) as i64,
            y: v.y,
            z: spec_scale(v.z as int, max, len) as i64,
        }
    }
}

/// Cap the ground-plane part of a velocity at `max_speed`, leaving the
/// vertical component alone.  A velocity already within the ceiling is
/// returned unchanged.
pub fn clamp_velocity_to_max_xz(orig_vel: Vec3, max_speed: i64) -> (r: Vec3)
    requires
        -CLAMP_COORD_LIMIT <= orig_vel.x <= CLAMP_COORD_LIMIT,
        -CLAMP_COORD_LIMIT <= orig_vel.z <= CLAMP_COORD_LIMIT,
        0 <= max_speed <= CLAMP_COORD_LIMIT,
    ensures
        r == spec_clamp_velocity_to_max_xz(orig_vel, max_speed as int),
{
    let x = orig_vel.x;
    let z = orig_vel.z;
    let ax: u64 = if x >= 0 {
        x as u64
    } else {
        (-x) as u64
    };
    let az: u64 = if z >= 0 {
        z as u64
    } else {
        (-z) as u64
    };
    proof {
        assert(ax as int * ax as int == x as int * x as int && ax as int * ax as int
            <= 1_000_000_000_000_000_000) by (nonlinear_arith)
            requires
                ax as int == x as int || ax as int == -(x as int),
                0 <= ax as int <= 1_000_000_000,
        ;
        assert(az as int * az as int == z as int * z as int && az as int * az as int
            <= 1_000_000_000_000_000_000) by (nonlinear_arith)
            requires
                az as int == z as int || az as int == -(z as int),
                0 <= az as int <= 1_000_000_000,
        ;
        assert(max_speed as int * max_speed as int <= 1_000_000_000_000_000_000)
            by (nonlinear_arith)
            requires
                0 <= max_speed as int <= 1_000_000_000,
        ;
    }
    let s: u64 = ax * ax + az * az;
    let m: u64 = max_speed as u64;
    let msq: u64 = m * m;
    if s <= msq {
        return orig_vel;
    }
    let len = isqrt64(s);
    proof {
        if len == 0 {
            assert((len + 1) * (len + 1) <= 1) by (nonlinear_arith)
                requires
                    len == 0u64,
            ;
            assert(false);
        }
    }
    Vec3 {
        x: scale_component(x, max_speed, len),
        y: orig_vel.y,
        z: scale_component(z, max_speed, len),
    }
}

} // verus!
