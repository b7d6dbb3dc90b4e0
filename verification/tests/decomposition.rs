use ragdoll_lifecycle::character::Character;
use ragdoll_lifecycle::character::SkeletonBone;
use ragdoll_lifecycle::character::Transform;
use ragdoll_lifecycle::enemy::Enemy;
use ragdoll_lifecycle::fragments::decompose;
use ragdoll_lifecycle::fragments::Bone;
use ragdoll_lifecycle::fragments::MissingUnskinnedMesh;
use ragdoll_lifecycle::fragments::UnskinnedMeshMap;
use ragdoll_lifecycle::vec::Vec3;

fn tf(pitch: i64) -> Transform {
    Transform {
        pos: Vec3 { x: 0, y: 0, z: 0 },
        pitch_deg: pitch,
        roll_deg: 0,
        yaw_deg: 0,
    }
}

fn bone(id: u64, mesh: Option<u64>, pitch: i64) -> SkeletonBone {
    SkeletonBone {
        id,
        mesh,
        transform: tf(pitch),
    }
}

fn dead_enemy(bones: Vec<SkeletonBone>) -> Character {
    let mut c = Character::new_enemy(1, Enemy::BaseSkele, Some(50), tf(80), None, None, bones);
    c.kill(1_000, 5_000);
    c
}

fn loaded_meshes() -> UnskinnedMeshMap {
    let mut m = UnskinnedMeshMap::new();
    m.insert(10);
    m.insert(11);
    m.insert(12);
    m
}

#[test]
fn one_fragment_per_visible_bone() {
    // Three visible bones and one helper bone: exactly three fragments,
    // each parented like the character and placed at its bone.
    let c = dead_enemy(vec![
        bone(100, Some(10), 1),
        bone(101, None, 2),
        bone(102, Some(11), 3),
        bone(103, Some(12), 4),
    ]);
    let frags = decompose(&c, &loaded_meshes()).unwrap();
    assert_eq!(frags.len(), 3);
    let ids: Vec<u64> = frags.iter().map(|f| f.id).collect();
    assert_eq!(ids, vec![100, 102, 103]);
    for f in &frags {
        assert_eq!(f.parent, Some(50));
        assert_eq!(f.origin, Bone(1));
        assert_eq!(f.death.died_at, 1_000);
        assert_eq!(f.death.despawn_delay, 5_000);
    }
    assert_eq!(frags[0].transform, tf(1));
    assert_eq!(frags[1].transform, tf(3));
    assert_eq!(frags[2].transform, tf(4));
}

#[test]
fn unparented_character_gives_unparented_fragments() {
    let mut c = Character::new_enemy(
        1,
        Enemy::BaseSkele,
        None,
        tf(80),
        None,
        None,
        vec![bone(100, Some(10), 0)],
    );
    c.kill(0, 5_000);
    let frags = decompose(&c, &loaded_meshes()).unwrap();
    assert_eq!(frags.len(), 1);
    assert_eq!(frags[0].parent, None);
}

#[test]
fn fragment_velocity_is_damped_component_wise() {
    let mut c = dead_enemy(vec![bone(100, Some(10), 0)]);
    c.lin_vel = Some(Vec3 {
        x: 500,
        y: -1_000,
        z: 250,
    });
    c.ang_vel = Some(Vec3 {
        x: -150,
        y: 99,
        z: 0,
    });
    let frags = decompose(&c, &loaded_meshes()).unwrap();
    assert_eq!(
        frags[0].lin_vel,
        Vec3 {
            x: 5,
            y: -10,
            z: 2
        }
    );
    // Truncation is toward zero: -150 / 100 gives -1, and 99 / 100 gives 0.
    assert_eq!(frags[0].ang_vel, Vec3 { x: -1, y: 0, z: 0 });
}

#[test]
fn fragments_of_a_static_source_are_at_rest() {
    let c = dead_enemy(vec![bone(100, Some(10), 0)]);
    assert_eq!(c.lin_vel, None);
    let frags = decompose(&c, &loaded_meshes()).unwrap();
    assert_eq!(frags[0].lin_vel, Vec3 { x: 0, y: 0, z: 0 });
    assert_eq!(frags[0].ang_vel, Vec3 { x: 0, y: 0, z: 0 });
}

#[test]
fn fragment_material_is_tuned_for_an_inert_prop() {
    let c = dead_enemy(vec![bone(100, Some(10), 0)]);
    let frags = decompose(&c, &loaded_meshes()).unwrap();
    assert_eq!(frags[0].restitution, 1);
    assert_eq!(frags[0].lin_damping, 250);
    assert_eq!(frags[0].ang_damping, 250);
    assert_eq!(frags[0].mesh, 10);
}

#[test]
fn missing_unskinned_mesh_is_a_fatal_error() {
    // The second visible bone's sub-mesh was never prepared: the whole
    // decomposition is refused and the error names that bone.
    let c = dead_enemy(vec![
        bone(100, Some(10), 0),
        bone(101, Some(77), 0),
        bone(102, Some(11), 0),
    ]);
    let r = decompose(&c, &loaded_meshes());
    assert_eq!(
        r,
        Err(MissingUnskinnedMesh {
            bone: 101,
            mesh: 77
        })
    );
}

#[test]
fn mesh_map_insert_is_idempotent() {
    let mut m = UnskinnedMeshMap::new();
    assert!(!m.contains(10));
    m.insert(10);
    m.insert(10);
    assert!(m.contains(10));
    assert_eq!(m.loaded, vec![10]);
}
