use ragdoll_lifecycle::character::Character;
use ragdoll_lifecycle::character::SkeletonBone;
use ragdoll_lifecycle::character::Stunned;
use ragdoll_lifecycle::character::TargetEnt;
use ragdoll_lifecycle::character::Transform;
use ragdoll_lifecycle::enemy::Enemy;
use ragdoll_lifecycle::vec::Vec3;
use ragdoll_lifecycle::world::CollisionStarted;
use ragdoll_lifecycle::world::World;

fn tf(pitch: i64) -> Transform {
    Transform {
        pos: Vec3 { x: 0, y: 0, z: 0 },
        pitch_deg: pitch,
        roll_deg: 0,
        yaw_deg: 0,
    }
}

fn enemy_with_target(id: u64) -> Character {
    Character::new_enemy(
        id,
        Enemy::BaseSkele,
        None,
        tf(0),
        Some(TargetEnt {
            target_ent: 42,
            within_distance: 20_000,
        }),
        None,
        Vec::new(),
    )
}

const BALL: u64 = 900;

fn arena(chars: Vec<Character>) -> World {
    let mut w = World::new();
    for c in chars {
        assert!(w.spawn_character(c));
    }
    w.add_impact_source(BALL);
    w
}

#[test]
fn collision_stun_and_timed_recovery() {
    // Spawn a character with a target; a thrown-prop collision stuns it
    // for the class default of two seconds; the target attribute is gone
    // at once.  After 2.1 simulated seconds on the ground it is restored
    // with its original value and the stun record is cleared.
    let mut w = arena(vec![enemy_with_target(1)]);
    let events = vec![CollisionStarted(1, BALL)];
    w.tick(&events, 0);
    {
        let c = w.get_character(1).unwrap();
        assert_eq!(c.target_ent, None);
        assert_eq!(c.stunned, Some(Stunned { expires_at: 2_000 }));
    }
    w.characters[0].grounded = true;
    w.tick(&Vec::new(), 2_100);
    let c = w.get_character(1).unwrap();
    assert_eq!(
        c.target_ent,
        Some(TargetEnt {
            target_ent: 42,
            within_distance: 20_000
        })
    );
    assert_eq!(c.stunned, None);
}

#[test]
fn fall_scenario_with_a_skeleton() {
    // A stunned character rotated to 80 degrees of pitch: one tick later
    // the stun is gone, the death stamp carries the current time, the
    // skeleton became fragments, and the original entity is absent.
    let mut c = enemy_with_target(1);
    c.bones = vec![
        SkeletonBone {
            id: 100,
            mesh: Some(10),
            transform: tf(80),
        },
        SkeletonBone {
            id: 101,
            mesh: Some(11),
            transform: tf(81),
        },
    ];
    let mut w = arena(vec![c]);
    w.meshes.insert(10);
    w.meshes.insert(11);
    assert!(w.characters[0].stun(400));
    w.characters[0].transform.pitch_deg = 80;
    w.tick(&Vec::new(), 1_000);
    assert!(w.get_character(1).is_none());
    assert_eq!(w.fragments.len(), 2);
    for f in &w.fragments {
        assert_eq!(f.death.died_at, 1_000);
        assert_eq!(f.death.despawn_delay, 5_000);
    }
}

#[test]
fn fall_scenario_without_a_skeleton() {
    // A simplified character with no bone hierarchy skips fragmentation:
    // it keeps its death stamp and lingers until the grace period ends.
    let mut w = arena(vec![enemy_with_target(1)]);
    assert!(w.characters[0].stun(400));
    w.characters[0].transform.pitch_deg = 80;
    w.tick(&Vec::new(), 1_000);
    let c = w.get_character(1).unwrap();
    assert_eq!(c.stunned, None);
    let death = c.death.unwrap();
    assert_eq!(death.died_at, 1_000);
    assert_eq!(death.despawn_delay, 5_000);
    assert_eq!(w.fragments.len(), 0);
}

#[test]
fn fall_preempts_recovery_in_one_tick() {
    // Grounded, expired and past the fall threshold in the same tick:
    // the character dies; it is never restored to active.
    let mut w = arena(vec![enemy_with_target(1)]);
    assert!(w.characters[0].stun(0));
    w.characters[0].grounded = true;
    w.characters[0].transform.pitch_deg = 80;
    w.tick(&Vec::new(), 3_000);
    let c = w.get_character(1).unwrap();
    assert!(c.death.is_some());
    assert_eq!(c.stunned, None);
    assert_eq!(c.target_ent, None);
    assert_eq!(c.target_snapshot.0, None);
}

#[test]
fn despawn_is_present_before_and_absent_after_the_boundary() {
    // Death stamp at 1000 with a 5000 grace period: present at 5999,
    // absent at 6000.
    let mut w = arena(vec![enemy_with_target(1)]);
    w.characters[0].kill(1_000, 5_000);
    w.tick(&Vec::new(), 5_999);
    assert!(w.get_character(1).is_some());
    w.tick(&Vec::new(), 6_000);
    assert!(w.get_character(1).is_none());
}

#[test]
fn fragments_despawn_after_the_same_grace_period() {
    let mut c = enemy_with_target(1);
    c.bones = vec![SkeletonBone {
        id: 100,
        mesh: Some(10),
        transform: tf(0),
    }];
    let mut w = arena(vec![c]);
    w.meshes.insert(10);
    w.characters[0].kill(1_000, 5_000);
    w.tick(&Vec::new(), 1_000);
    assert_eq!(w.fragments.len(), 1);
    w.tick(&Vec::new(), 5_999);
    assert_eq!(w.fragments.len(), 1);
    w.tick(&Vec::new(), 6_000);
    assert_eq!(w.fragments.len(), 0);
}

#[test]
fn bridge_ignores_source_only_and_unknown_collisions() {
    let mut w = arena(vec![enemy_with_target(1)]);
    w.add_impact_source(901);
    // Two impact sources colliding, and a collision naming a despawned
    // entity, both stun nobody.
    let events = vec![CollisionStarted(BALL, 901), CollisionStarted(1, 5555)];
    w.tick(&events, 0);
    let c = w.get_character(1).unwrap();
    assert_eq!(c.stunned, None);
    assert!(c.target_ent.is_some());
}

#[test]
fn character_collision_stuns_both() {
    let mut w = arena(vec![enemy_with_target(1), enemy_with_target(2)]);
    let events = vec![CollisionStarted(1, 2)];
    w.tick(&events, 100);
    assert_eq!(
        w.get_character(1).unwrap().stunned,
        Some(Stunned { expires_at: 2_100 })
    );
    assert_eq!(
        w.get_character(2).unwrap().stunned,
        Some(Stunned { expires_at: 2_100 })
    );
}

#[test]
fn character_collision_policy_can_be_switched_off() {
    let mut w = arena(vec![enemy_with_target(1), enemy_with_target(2)]);
    w.stun_on_character_collision = false;
    // Character-to-character contact no longer stuns, but an impact
    // source still does.
    let events = vec![CollisionStarted(1, 2), CollisionStarted(2, BALL)];
    w.tick(&events, 100);
    assert_eq!(w.get_character(1).unwrap().stunned, None);
    assert_eq!(
        w.get_character(2).unwrap().stunned,
        Some(Stunned { expires_at: 2_100 })
    );
}

#[test]
fn zap_stuns_one_character_with_the_class_default() {
    let mut w = arena(vec![enemy_with_target(1)]);
    w.zap(1, 300);
    assert_eq!(
        w.get_character(1).unwrap().stunned,
        Some(Stunned { expires_at: 2_300 })
    );
    // An identity that despawned earlier is silently skipped.
    w.zap(999, 300);
    assert_eq!(w.characters.len(), 1);
}

#[test]
fn duplicate_spawn_is_refused() {
    let mut w = World::new();
    assert!(w.spawn_character(enemy_with_target(1)));
    assert!(!w.spawn_character(enemy_with_target(1)));
    assert_eq!(w.characters.len(), 1);
}

#[test]
fn tick_preconditions_are_checkable() {
    let mut w = arena(vec![enemy_with_target(1)]);
    assert!(w.check_stun_fits(0));
    assert!(w.check_meshes_ready());
    w.characters[0].stun_time = Some(u64::MAX);
    assert!(w.check_stun_fits(0));
    assert!(!w.check_stun_fits(1));
    w.characters[0].bones = vec![SkeletonBone {
        id: 100,
        mesh: Some(10),
        transform: tf(0),
    }];
    assert!(!w.check_meshes_ready());
    w.meshes.insert(10);
    assert!(w.check_meshes_ready());
}
