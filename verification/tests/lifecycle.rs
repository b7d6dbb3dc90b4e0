use ragdoll_lifecycle::character::Character;
use ragdoll_lifecycle::character::Dead;
use ragdoll_lifecycle::character::LockedAxes;
use ragdoll_lifecycle::character::SkeletonBone;
use ragdoll_lifecycle::character::Stunned;
use ragdoll_lifecycle::character::TargetEnt;
use ragdoll_lifecycle::character::Transform;
use ragdoll_lifecycle::enemy::Enemy;
use ragdoll_lifecycle::snapshot::Snapshot;
use ragdoll_lifecycle::vec::Vec3;

fn flat_transform() -> Transform {
    Transform {
        pos: Vec3 { x: 0, y: 0, z: 0 },
        pitch_deg: 0,
        roll_deg: 0,
        yaw_deg: 0,
    }
}

fn fresh_enemy(id: u64) -> Character {
    Character::new_enemy(
        id,
        Enemy::BaseSkele,
        Some(7),
        flat_transform(),
        Some(TargetEnt {
            target_ent: 42,
            within_distance: 20_000,
        }),
        Some(LockedAxes(0b111_000)),
        Vec::new(),
    )
}

#[test]
fn snapshot_replace_returns_previous() {
    let mut s: Snapshot<u64> = Snapshot(None);
    assert_eq!(s.replace(5), None);
    assert_eq!(s.replace(9), Some(5));
    assert_eq!(s.0, Some(9));
}

#[test]
fn class_defaults() {
    let class = Enemy::BaseSkele;
    assert_eq!(class.default_move_speed(), 30_000);
    assert_eq!(class.default_max_move_speed(), 30_000);
    assert_eq!(class.default_stun_time(), 2_000);
    assert_eq!(class.default_despawn_time(), 5_000);
    assert_eq!(class.default_knocked_over_angle(), 75);
}

#[test]
fn stun_removes_attributes_and_restore_round_trips() {
    let mut c = fresh_enemy(1);
    let target = c.target_ent;
    let locked = c.locked_axes;
    assert!(c.stun(1_000));
    // Both behavioral attributes are snapshotted and removed.
    assert_eq!(c.target_ent, None);
    assert_eq!(c.locked_axes, None);
    assert_eq!(c.stunned, Some(Stunned { expires_at: 3_000 }));
    // Grounded and expired: recovery restores exactly the stored values.
    c.grounded = true;
    assert!(c.try_recover(3_000));
    assert_eq!(c.target_ent, target);
    assert_eq!(c.locked_axes, locked);
    assert_eq!(c.stunned, None);
    assert_eq!(c.target_snapshot.0, None);
    assert_eq!(c.locked_snapshot.0, None);
}

#[test]
fn restore_round_trip_with_one_attribute_absent() {
    let mut c = fresh_enemy(1);
    c.locked_axes = None;
    assert!(c.stun(0));
    c.grounded = true;
    assert!(c.try_recover(2_000));
    // Only the attribute present at stun time comes back; no other
    // appears.
    assert_eq!(
        c.target_ent,
        Some(TargetEnt {
            target_ent: 42,
            within_distance: 20_000
        })
    );
    assert_eq!(c.locked_axes, None);
}

#[test]
fn restunning_resets_expiry_instead_of_stacking() {
    // Two stuns one second apart, each lasting two seconds: the expiry is
    // the second now plus the duration, not a sum of durations.
    let mut c = fresh_enemy(1);
    assert!(c.stun(1_000));
    assert_eq!(c.stunned, Some(Stunned { expires_at: 3_000 }));
    assert!(c.stun(2_000));
    assert_eq!(c.stunned, Some(Stunned { expires_at: 4_000 }));
}

#[test]
fn restunning_keeps_the_original_snapshot() {
    let mut c = fresh_enemy(1);
    assert!(c.stun(0));
    assert!(c.stun(1_000));
    c.grounded = true;
    assert!(c.try_recover(3_000));
    assert_eq!(
        c.target_ent,
        Some(TargetEnt {
            target_ent: 42,
            within_distance: 20_000
        })
    );
}

#[test]
fn stun_without_class_data_fails_silently() {
    let mut c = fresh_enemy(1);
    c.stun_time = None;
    assert!(!c.stun(500));
    assert_eq!(c.stunned, None);
    assert!(c.target_ent.is_some());
}

#[test]
fn stun_ignores_the_dead() {
    let mut c = fresh_enemy(1);
    c.kill(100, 5_000);
    assert!(!c.stun(200));
    assert_eq!(c.stunned, None);
}

#[test]
fn recovery_needs_ground_contact_and_expiry() {
    let mut c = fresh_enemy(1);
    assert!(c.stun(1_000));
    // Expired but airborne: no recovery.
    assert!(!c.try_recover(3_000));
    assert!(c.stunned.is_some());
    // Grounded but not expired: no recovery.
    c.grounded = true;
    assert!(!c.try_recover(2_999));
    assert!(c.stunned.is_some());
    // Both: recovery.
    assert!(c.try_recover(3_000));
    assert!(c.stunned.is_none());
}

#[test]
fn fall_threshold_is_inclusive_and_uses_absolute_pitch() {
    let mut c = fresh_enemy(1);
    assert!(c.stun(0));
    c.transform.pitch_deg = 74;
    assert!(!c.is_fallen());
    c.transform.pitch_deg = 75;
    assert!(c.is_fallen());
    c.transform.pitch_deg = -80;
    assert!(c.is_fallen());
}

#[test]
fn fall_step_kills_and_abandons_snapshots() {
    let mut c = fresh_enemy(1);
    assert!(c.stun(0));
    c.transform.pitch_deg = 80;
    c.grounded = true;
    assert!(c.fall_step(1_500));
    assert_eq!(c.stunned, None);
    assert_eq!(
        c.death,
        Some(Dead {
            died_at: 1_500,
            despawn_delay: 5_000
        })
    );
    // The pre-stun attributes are forfeited, not restored.
    assert_eq!(c.target_ent, None);
    assert_eq!(c.locked_axes, None);
    assert_eq!(c.target_snapshot.0, None);
    assert_eq!(c.locked_snapshot.0, None);
}

#[test]
fn fall_step_leaves_upright_characters_alone() {
    let mut c = fresh_enemy(1);
    assert!(c.stun(0));
    c.transform.pitch_deg = 30;
    assert!(!c.fall_step(500));
    assert!(c.stunned.is_some());
    assert_eq!(c.death, None);
}

#[test]
fn death_timestamp_is_immutable_once_set() {
    let mut c = fresh_enemy(1);
    c.kill(100, 5_000);
    c.kill(900, 1_000);
    assert_eq!(
        c.death,
        Some(Dead {
            died_at: 100,
            despawn_delay: 5_000
        })
    );
}

#[test]
fn expired_boundary_is_inclusive() {
    let d = Dead {
        died_at: 1_000,
        despawn_delay: 5_000,
    };
    assert!(!d.expired(5_999));
    assert!(d.expired(6_000));
    assert!(d.expired(6_001));
}

#[test]
fn spawn_defaults_follow_the_class() {
    let c = fresh_enemy(3);
    assert_eq!(c.stun_time, Some(2_000));
    assert_eq!(c.knocked_over_angle, Some(75));
    assert!(!c.grounded);
    assert_eq!(c.stunned, None);
    assert_eq!(c.death, None);
    assert_eq!(c.parent, Some(7));
}

#[test]
fn bones_carry_over_to_the_character() {
    let bones = vec![SkeletonBone {
        id: 100,
        mesh: Some(1),
        transform: flat_transform(),
    }];
    let c = Character::new_enemy(
        9,
        Enemy::BaseSkele,
        None,
        flat_transform(),
        None,
        None,
        bones.clone(),
    );
    assert_eq!(c.bones, bones);
}
