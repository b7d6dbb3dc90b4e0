//! A combatant character and its lifecycle transitions.
//!
//! A character moves between three states: active, stunned (destabilized
//! for a while, with its behavioral attributes snapshotted and removed),
//! and dead (terminal; the despawn scheduler or the decomposition engine
//! takes over).  The transitions here are per-character; the per-tick
//! ordering over a whole population lives in [`crate::world`].

use vstd::prelude::*;

use crate::behaviors::MaxMovementSpeed;
use crate::behaviors::MovementSpeed;
use crate::enemy::Enemy;
use crate::snapshot::Snapshot;
use crate::vec::Vec3;

verus! {

/// A world transform: position in thousandths of a unit, orientation as
/// normalized pitch / roll / yaw angles in degrees.
#[derive(Clone, Copy, Debug, PartialEq, Eq, Structural)]
pub struct Transform {
    pub pos: Vec3,
    pub pitch_deg: i64,
    pub roll_deg: i64,
    pub yaw_deg: i64,
}

impl Transform {
    /// Angles are kept normalized to one turn.
    pub open spec fn wf(self) -> bool {
        &&& -360 <= self.pitch_deg <= 360
        &&& -360 <= self.roll_deg <= 360
        &&& -360 <= self.yaw_deg <= 360
    }
}

/// The movement-target attribute: steer toward `target_ent` until within
/// `within_distance` (thousandths of a unit).
#[derive(Clone, Copy, Debug, PartialEq, Eq, Structural)]
pub struct TargetEnt {
    pub target_ent: u64,
    pub within_distance: i64,
}

/// The axis-lock attribute: a bitmask over the three translational and
/// three rotational axes that the physics engine must hold fixed.
#[derive(Clone, Copy, Debug, PartialEq, Eq, Structural)]
pub struct LockedAxes(pub u8);

/// The stun record attached to a character while it is destabilized.
#[derive(Clone, Copy, Debug, PartialEq, Eq, Structural)]
pub struct Stunned {
    /// Simulation time, in milliseconds, at which recovery becomes
    /// eligible.
    pub expires_at: u64,
}

/// The death marker: immutable once set.
#[derive(Clone, Copy, Debug, PartialEq, Eq, Structural)]
pub struct Dead {
    /// Simulation time, in milliseconds, at which the entity died.
    pub died_at: u64,
    /// Grace period, in milliseconds, before the despawn scheduler removes
    /// the entity.
    pub despawn_delay: u64,
}

impl Dead {
    /// The grace period has elapsed: `died_at + despawn_delay <= now`.
    /// The boundary is inclusive — at exactly `died_at + despawn_delay`
    /// the entity is removed.
    pub open spec fn spec_expired(self, now: u64) -> bool {
        self.died_at + self.despawn_delay <= now
    }

    /// Whether the despawn scheduler must remove the carrier at `now`.
    pub fn expired(&self, now: u64) -> (due: bool)
        ensures
            due == self.spec_expired(now),
    {
        now >= self.died_at && now - self.died_at >= self.despawn_delay
    }
}

/// One bone of a character's visual skeleton: its entity identity, the
/// sub-mesh it carries (`None` for a helper bone with nothing visible) and
/// its current world transform.
#[derive(Clone, Copy, Debug, PartialEq, Eq)]
pub struct SkeletonBone {
    pub id: u64,
    pub mesh: Option<u64>,
    pub transform: Transform,
}

/// A live combatant entity, modeled as its identity plus the plain values
/// of every attribute the lifecycle machine reads or writes.  Velocities
/// and ground contact are owned by the physics collaborator and mirrored
/// here; an absent velocity reads as zero.
#[derive(Debug, PartialEq)]
pub struct Character {
    pub id: u64,
    pub class: Enemy,
    /// The scene-hierarchy parent, if any; fragments are reparented here.
    pub parent: Option<u64>,
    pub transform: Transform,
    pub move_speed: Option<MovementSpeed>,
    pub max_move_speed: Option<MaxMovementSpeed>,
    /// Linear velocity in thousandths of a unit per second, as last
    /// reported by the physics engine.
    pub lin_vel: Option<Vec3>,
    /// Angular velocity in thousandths of a degree per second, as last
    /// reported by the physics engine.
    pub ang_vel: Option<Vec3>,
    /// Ground-contact status, as last reported by the physics engine.
    pub grounded: bool,
    pub target_ent: Option<TargetEnt>,
    pub locked_axes: Option<LockedAxes>,
    pub target_snapshot: Snapshot<TargetEnt>,
    pub locked_snapshot: Snapshot<LockedAxes>,
    /// How long, in milliseconds, one stun of this character lasts.
    /// Absent when the class data never arrived; stunning then fails
    /// silently.
    pub stun_time: Option<u64>,
    /// Pitch threshold, in degrees, past which this character counts as
    /// fallen.  Absent disables fall detection.
    pub knocked_over_angle: Option<i64>,
    pub stunned: Option<Stunned>,
    pub death: Option<Dead>,
    /// The visual skeleton, in hierarchy order; empty when no bone
    /// hierarchy is loaded.
    pub bones: Vec<SkeletonBone>,
}

impl Character {
    /// Machine limits: angles normalized, velocity components negatable,
    /// the fall threshold inside one turn.
    pub open spec fn wf(self) -> bool {
        &&& self.transform.wf()
        &&& (self.lin_vel matches Some(v) ==> v.wf())
        &&& (self.ang_vel matches Some(v) ==> v.wf())
        &&& (self.knocked_over_angle matches Some(a) ==> 0 <= a <= 360)
    }

    /// Well-formedness: while the character is not stunned, no snapshot
    /// record is held — records exist exactly between entering a stun and
    /// the restore (or abandonment) that ends it.
    pub open spec fn inv(self) -> bool {
        &&& self.wf()
        &&& (self.stunned is None ==> self.target_snapshot.0 is None
            && self.locked_snapshot.0 is None)
    }

    /// No overflow when stamping a stun expiry at time `now`.
    pub open spec fn stun_fits(self, now: u64) -> bool {
        self.stun_time matches Some(d) ==> now + d <= u64::MAX
    }

    /// A freshly spawned character: active, ungrounded, no snapshot
    /// records and no death stamp, with the numeric defaults its class
    /// selects — movement speeds, stun duration, despawn grace period and
    /// the knocked-over pitch threshold.
    pub fn new_enemy(
        id: u64,
        class: Enemy,
        parent: Option<u64>,
        transform: Transform,
        target_ent: Option<TargetEnt>,
        locked_axes: Option<LockedAxes>,
        bones: Vec<SkeletonBone>,
    ) -> (c: Character)
        requires
            transform.wf(),
        ensures
            c.id == id,
            c.class == class,
            c.parent == parent,
            c.transform == transform,
            c.move_speed == Some(MovementSpeed(class.spec_move_speed())),
            c.max_move_speed == Some(MaxMovementSpeed(class.spec_max_move_speed())),
            c.lin_vel is None,
            c.ang_vel is None,
            !c.grounded,
            c.target_ent == target_ent,
            c.locked_axes == locked_axes,
            c.target_snapshot.0 is None,
            c.locked_snapshot.0 is None,
            c.stun_time == Some(class.spec_stun_time()),
            c.knocked_over_angle == Some(class.spec_knocked_over_angle()),
            c.stunned is None,
            c.death is None,
            c.bones == bones,
            c.inv(),
    {
        Character {
            id,
            class,
            parent,
            transform,
            move_speed: Some(MovementSpeed(class.default_move_speed())),
            max_move_speed: Some(MaxMovementSpeed(class.default_max_move_speed())),
            lin_vel: None,
            ang_vel: None,
            grounded: false,
            target_ent,
            locked_axes,
            target_snapshot: Snapshot::new(),
            locked_snapshot: Snapshot::new(),
            stun_time: Some(class.default_stun_time()),
            knocked_over_angle: Some(class.default_knocked_over_angle()),
            stunned: None,
            death: None,
            bones,
        }
    }

    pub open spec fn spec_store_and_remove(self) -> Character {
        let c = if self.target_ent is Some {
            Character {
                target_ent: None,
                target_snapshot: Snapshot(self.target_ent),
                ..self
            }
        } else {
            self
        };
        if c.locked_axes is Some {
            Character { locked_axes: None, locked_snapshot: Snapshot(c.locked_axes), ..c }
        } else {
            c
        }
    }

    /// Snapshot-and-remove each behavioral attribute that is present: the
    /// live value moves into the per-attribute record, so the systems
    /// consuming it stop acting; an absent attribute is left alone.
    pub fn store_and_remove(&mut self)
        ensures
            *final(self) == old(self).spec_store_and_remove(),
    {
        let t = self.target_ent.take();
        if t.is_some() {
            self.target_snapshot.replace(t.unwrap());
        } else {
            self.target_ent = t;
        }
        let l = self.locked_axes.take();
        if l.is_some() {
            self.locked_snapshot.replace(l.unwrap());
        } else {
            self.locked_axes = l;
        }
    }

    pub open spec fn spec_restore(self) -> Character {
        let c = if self.target_snapshot.0 is Some {
            Character {
                target_ent: self.target_snapshot.0,
                target_snapshot: Snapshot(None),
                ..self
            }
        } else {
            self
        };
        if c.locked_snapshot.0 is Some {
            Character { locked_axes: c.locked_snapshot.0, locked_snapshot: Snapshot(None), ..c }
        } else {
            c
        }
    }

    /// Reinsert every recorded attribute value and clear its record; with
    /// no record held this is a no-op.
    pub fn restore(&mut self)
        ensures
            *final(self) == old(self).spec_restore(),
    {
        let t = self.target_snapshot.0.take();
        if t.is_some() {
            self.target_ent = t;
        }
        let l = self.locked_snapshot.0.take();
        if l.is_some() {
            self.locked_axes = l;
        }
    }

    pub open spec fn spec_stun(self, now: u64) -> Character {
        match self.stun_time {
            None => self,
            Some(d) => {
                if self.death is Some {
                    self
                } else {
                    let restunned = Character {
                        stunned: Some(Stunned { expires_at: (now + d) as u64 }),
                        ..self
                    };
                    if self.stunned is Some {
                        restunned
                    } else {
                        restunned.spec_store_and_remove()
                    }
                }
            },
        }
    }

    /// Enter (or refresh) the stunned state at time `now`.
    ///
    /// Fails silently when the stun duration never arrived with the class
    /// data, and ignores dead characters.  Re-stunning an already stunned
    /// character only resets the expiry to `now + duration` — durations
    /// never stack — while entering the state also snapshots and removes
    /// the behavioral attributes.
    pub fn stun(&mut self, now: u64) -> (applied: bool)
        requires
            old(self).stun_fits(now),
    ensures
            *final(self) == old(self).spec_stun(now),
            applied == (old(self).stun_time is Some && old(self).death is None),
    {
        let d = match self.stun_time {
            Some(d) => d,
            None => {
                return false;
            },
        };
        if self.death.is_some() {
            return false;
        }
        let entering = self.stunned.is_none();
        self.stunned = Some(Stunned { expires_at: now + d });
        if entering {
            self.store_and_remove();
        }
        true
    }

    /// Recovery is eligible only when the character is in ground contact
    /// and its stun has expired.
    pub open spec fn spec_recovery_eligible(self, now: u64) -> bool {
        &&& self.stunned matches Some(s) && now >= s.expires_at
        &&& self.grounded
    }

    pub open spec fn spec_recovery_step(self, now: u64) -> Character {
        if self.spec_recovery_eligible(now) {
            Character { stunned: None, ..self }.spec_restore()
        } else {
            self
        }
    }

    /// Leave the stunned state if recovery is eligible at `now`, restoring
    /// the snapshotted attributes; otherwise change nothing.
    pub fn try_recover(&mut self, now: u64) -> (recovered: bool)
        ensures
            *final(self) == old(self).spec_recovery_step(now),
            recovered == old(self).spec_recovery_eligible(now),
    {
        let eligible = match self.stunned {
            Some(s) => self.grounded && now >= s.expires_at,
            None => false,
        };
        if eligible {
            self.stunned = None;
            self.restore();
        }
        eligible
    }

    /// The absolute pitch, in degrees.
    pub open spec fn spec_abs_pitch(self) -> int {
        if self.transform.pitch_deg >= 0 {
            self.transform.pitch_deg as int
        } else {
            -self.transform.pitch_deg
        }
    }

    /// Fallen means the absolute pitch has reached the class's threshold;
    /// equality counts as fallen.  Without a threshold nothing is
    /// detected.
    pub open spec fn spec_fallen(self) -> bool {
        self.knocked_over_angle matches Some(a) && self.spec_abs_pitch() >= a
    }

    /// Whether the fall detector classifies this character as fallen over.
    pub fn is_fallen(&self) -> (fallen: bool)
        requires
            self.wf(),
        ensures
            fallen == self.spec_fallen(),
    {
        match self.knocked_over_angle {
            None => false,
            Some(a) => {
                let pitch = self.transform.pitch_deg;
                let abs_pitch = if pitch >= 0 {
                    pitch
                } else {
                    -pitch
                };
                abs_pitch >= a
            },
        }
    }

    pub open spec fn spec_kill(self, now: u64, despawn_delay: u64) -> Character {
        let death = if self.death is Some {
            self.death
        } else {
            Some(Dead { died_at: now, despawn_delay })
        };
        Character {
            stunned: None,
            target_snapshot: Snapshot(None),
            locked_snapshot: Snapshot(None),
            death,
            ..self
        }
    }

    /// Transition to dead at time `now`: stamp a death marker (an existing
    /// marker is kept — it is immutable once set), drop any stun record
    /// and abandon the snapshot records without applying them.  A
    /// character that dies forfeits its pre-stun attributes.
    pub fn kill(&mut self, now: u64, despawn_delay: u64)
        ensures
            *final(self) == old(self).spec_kill(now, despawn_delay),
    {
        if self.death.is_none() {
            self.death = Some(Dead { died_at: now, despawn_delay });
        }
        self.stunned = None;
        self.target_snapshot = Snapshot::new();
        self.locked_snapshot = Snapshot::new();
    }

    /// The fall detector's per-tick step: a stunned character past its
    /// pitch threshold dies on the spot, with the class's despawn grace
    /// period; everything else is untouched.
    pub open spec fn spec_fall_step(self, now: u64) -> Character {
        if self.stunned is Some && self.spec_fallen() {
            self.spec_kill(now, self.class.spec_despawn_time())
        } else {
            self
        }
    }

    /// Apply the fall detector to this character at time `now`.
    pub fn fall_step(&mut self, now: u64) -> (fell: bool)
        requires
            old(self).wf(),
        ensures
            *final(self) == old(self).spec_fall_step(now),
            fell == (old(self).stunned is Some && old(self).spec_fallen()),
    {
        if self.stunned.is_some() && self.is_fallen() {
            let delay = self.class.default_despawn_time();
            self.kill(now, delay);
            true
        } else {
            false
        }
    }
}

/// Snapshot/restore round-trip: whatever behavioral attributes were
/// present when a stun began are reinstated by a restore, with their
/// original values and no others, and both records are cleared again.
pub proof fn lemma_snapshot_restore_round_trip(c: Character, now: u64)
    requires
        c.inv(),
        c.stunned is None,
        c.death is None,
        c.stun_time is Some,
    ensures
        ({
            let s = c.spec_stun(now);
            let r = s.spec_restore();
            &&& s.target_ent is None
            &&& s.locked_axes is None
            &&& r.target_ent == c.target_ent
            &&& r.locked_axes == c.locked_axes
            &&& r.target_snapshot.0 is None
            &&& r.locked_snapshot.0 is None
        }),
{
}

/// No double-stacking: stunning an already-stunned character resets the
/// expiry to `now + duration` of the later stun; the earlier expiry is
/// overwritten, never added.
pub proof fn lemma_stun_does_not_stack(c: Character, first: u64, second: u64)
    requires
        c.stun_time matches Some(d) && second + d <= u64::MAX,
        c.death is None,
    ensures
        ({
            let d = c.stun_time->0;
            c.spec_stun(first).spec_stun(second).stunned == Some(
                Stunned { expires_at: (second + d) as u64 },
            )
        }),
{
}

/// The death marker is immutable once set: no per-character transition —
/// stunning, the recovery check, the fall step, or another kill — changes
/// an existing death stamp.
pub proof fn lemma_death_marker_immutable(c: Character, now: u64, delay: u64)
    requires
        c.death is Some,
    ensures
        c.spec_stun(now).death == c.death,
        c.spec_recovery_step(now).death == c.death,
        c.spec_fall_step(now).death == c.death,
        c.spec_kill(now, delay).death == c.death,
{
}

/// Fall pre-empts recovery: a character that is at once fallen and
/// recovery-eligible in the same tick goes to dead — its stun record is
/// gone, a death marker stamped at `now` is present, and its attributes
/// are not restored (the snapshot records are abandoned).
pub proof fn lemma_fall_preempts_recovery(c: Character, now: u64)
    requires
        c.stunned is Some,
        c.spec_fallen(),
        c.spec_recovery_eligible(now),
    ensures
        ({
            let r = c.spec_fall_step(now).spec_recovery_step(now);
            &&& r.stunned is None
            &&& r.death is Some
            &&& (c.death is None ==> r.death == Some(
                Dead { died_at: now, despawn_delay: c.class.spec_despawn_time() },
            ))
            &&& r.target_ent == c.target_ent
            &&& r.locked_axes == c.locked_axes
            &&& r.target_snapshot.0 is None
            &&& r.locked_snapshot.0 is None
        }),
{
}

} // verus!
