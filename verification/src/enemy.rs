//! Character classes and their numeric defaults.
//!
//! A class tag selects the tuning numbers a freshly spawned character gets:
//! movement speeds, how long a stun lasts, how long a corpse or fragment
//! lingers before it is despawned, and at which pitch a destabilized
//! character counts as fallen over.
//!
//! Units: speeds are thousandths of a world unit per second, times are
//! milliseconds, angles are degrees.

use vstd::prelude::*;

verus! {

/// Default movement speed, in thousandths of a world unit per second.
pub const DEFAULT_MOVE_SPEED: i64 = 30_000;

/// Default stun duration, in milliseconds.
pub const DEFAULT_STUN_TIME: u64 = 2_000;

/// Default grace period between death and removal, in milliseconds.
pub const DEFAULT_DESPAWN_AFTER_DEAD_MS: u64 = 5_000;

/// Default pitch threshold past which a destabilized character counts as
/// fallen over, in degrees.
pub const DEFAULT_KNOCKED_OVER_ANGLE: i64 = 75;

/// The class of a combatant character.
#[derive(Clone, Copy, Debug, PartialEq, Eq, Structural)]
pub enum Enemy {
    BaseSkele,
}

impl Enemy {
    pub open spec fn spec_move_speed(self) -> i64 {
        match self {
            Enemy::BaseSkele => DEFAULT_MOVE_SPEED,
        }
    }

    pub open spec fn spec_max_move_speed(self) -> i64 {
        match self {
            Enemy::BaseSkele => DEFAULT_MOVE_SPEED,
        }
    }

    pub open spec fn spec_stun_time(self) -> u64 {
        match self {
            Enemy::BaseSkele => DEFAULT_STUN_TIME,
        }
    }

    pub open spec fn spec_despawn_time(self) -> u64 {
        match self {
            Enemy::BaseSkele => DEFAULT_DESPAWN_AFTER_DEAD_MS,
        }
    }

    pub open spec fn spec_knocked_over_angle(self) -> i64 {
        match self {
            Enemy::BaseSkele => DEFAULT_KNOCKED_OVER_ANGLE,
        }
    }

    /// The class's movement speed, in thousandths of a unit per second.
    pub fn default_move_speed(&self) -> (r: i64)
        ensures
            r == self.spec_move_speed(),
    {
        match self {
            Enemy::BaseSkele => DEFAULT_MOVE_SPEED,
        }
    }

    /// The class's speed ceiling, in thousandths of a unit per second.
    pub fn default_max_move_speed(&self) -> (r: i64)
        ensures
            r == self.spec_max_move_speed(),
    {
        match self {
            Enemy::BaseSkele => DEFAULT_MOVE_SPEED,
        }
    }

    /// How long one stun of this class lasts, in milliseconds.
    pub fn default_stun_time(&self) -> (r: u64)
        ensures
            r == self.spec_stun_time(),
    {
        match self {
            Enemy::BaseSkele => DEFAULT_STUN_TIME,
        }
    }

    /// How long a dead entity of this class lingers, in milliseconds.
    pub fn default_despawn_time(&self) -> (r: u64)
        ensures
            r == self.spec_despawn_time(),
    {
        match self {
            Enemy::BaseSkele => DEFAULT_DESPAWN_AFTER_DEAD_MS,
        }
    }

    /// The pitch, in degrees, past which a destabilized character of this
    /// class counts as fallen over.
    pub fn default_knocked_over_angle(&self) -> (r: i64)
        ensures
            r == self.spec_knocked_over_angle(),
    {
        match self {
            Enemy::BaseSkele => DEFAULT_KNOCKED_OVER_ANGLE,
        }
    }
}

} // verus!
