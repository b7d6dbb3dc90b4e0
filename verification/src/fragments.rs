//! The decomposition engine: replacing a dead character with independent
//! rigid fragments.
//!
//! On death, every skeleton bone that carries a visible sub-mesh becomes
//! one [`Fragment`]: a short-lived rigid body with the bone's world
//! transform, the character's velocity damped down by a fixed factor, the
//! character's original scene parent, and a death stamp so the despawn
//! scheduler reaps it after the same grace period as an ordinary corpse.
//! A visible sub-mesh whose unskinned copy was never prepared is a fatal
//! configuration error: the whole decomposition is refused rather than
//! silently producing an invisible fragment.

use vstd::prelude::*;

use crate::character::Character;
use crate::character::Dead;
use crate::character::SkeletonBone;
use crate::character::Transform;
use crate::vec::Vec3;

verus! {

/// Fragment velocity is the source character's velocity divided by this,
/// component-wise.
pub const VELOCITY_DAMPING_DIVISOR: i64 = 100;

/// Fragment restitution, in thousandths (a fragment barely bounces).
pub const FRAGMENT_RESTITUTION: i64 = 1;

/// Fragment linear damping, in thousandths.
pub const FRAGMENT_LINEAR_DAMPING: i64 = 250;

/// Fragment angular damping, in thousandths.
pub const FRAGMENT_ANGULAR_DAMPING: i64 = 250;

/// The weak back-reference from a fragment to the character it came from.
/// The origin is despawned right after decomposition, so looking it up
/// may well find nothing; the reference carries no liveness guarantee.
#[derive(Clone, Copy, Debug, PartialEq, Eq, Structural)]
pub struct Bone(pub u64);

/// One rigid piece of a decomposed character.  Created in bulk during
/// decomposition, never mutated afterward, removed by the despawn
/// scheduler.
#[derive(Clone, Copy, Debug, PartialEq, Eq)]
pub struct Fragment {
    /// The bone entity that became this fragment.
    pub id: u64,
    /// Which character this fragment came from (lookup-only).
    pub origin: Bone,
    /// The origin character's scene parent, inherited so the scene
    /// hierarchy is preserved; `None` leaves the fragment unparented.
    pub parent: Option<u64>,
    /// The skinned sub-mesh whose unskinned copy shapes this fragment.
    pub mesh: u64,
    /// World transform inherited from the source bone.
    pub transform: Transform,
    /// Linear velocity at spawn: the source character's, damped.
    pub lin_vel: Vec3,
    /// Angular velocity at spawn: the source character's, damped.
    pub ang_vel: Vec3,
    /// Restitution in thousandths, tuned for a skidding inert prop.
    pub restitution: i64,
    /// Linear damping in thousandths.
    pub lin_damping: i64,
    /// Angular damping in thousandths.
    pub ang_damping: i64,
    /// Death stamp inherited from the origin, so the fragment despawns
    /// after the same grace period.
    pub death: Dead,
}

/// The set of skinned sub-meshes for which an unskinned copy has been
/// prepared.  The copies themselves are asset data owned by the engine;
/// the lifecycle machine only needs to know they exist.  Built once after
/// the character's visual assets finish loading, read-only afterwards.
#[derive(Debug, PartialEq)]
pub struct UnskinnedMeshMap {
    pub loaded: Vec<u64>,
}

impl UnskinnedMeshMap {
    pub fn new() -> (m: UnskinnedMeshMap)
        ensures
            m.loaded@ == Seq::<u64>::empty(),
    {
        UnskinnedMeshMap { loaded: Vec::new() }
    }

    pub open spec fn spec_contains(self, mesh: u64) -> bool {
        self.loaded@.contains(mesh)
    }

    /// Whether an unskinned copy of `mesh` has been prepared.
    pub fn contains(&self, mesh: u64) -> (present: bool)
        ensures
            present == self.spec_contains(mesh),
    {
        let mut i: usize = 0;
        while i < self.loaded.len()
            invariant
                0 <= i <= self.loaded@.len(),
                forall|j: int| 0 <= j < i ==> self.loaded@[j] != mesh,
            decreases self.loaded@.len() - i,
        {
            if self.loaded[i] == mesh {
                return true;
            }
            i += 1;
        }
        false
    }

    /// Record that an unskinned copy of `mesh` exists.  Idempotently
    /// guarded: recording the same sub-mesh again changes nothing.
    pub fn insert(&mut self, mesh: u64)
        ensures
            final(self).loaded@ == if old(self).spec_contains(mesh) {
                old(self).loaded@
            } else {
                old(self).loaded@.push(mesh)
            },
    {
        if !self.contains(mesh) {
            self.loaded.push(mesh);
        }
    }
}

/// A bone fragments exactly when it carries a visible sub-mesh.
pub open spec fn is_visible(b: SkeletonBone) -> bool {
    b.mesh is Some
}

/// The visible bones of a skeleton, in hierarchy order.
pub open spec fn visible_of(bones: Seq<SkeletonBone>) -> Seq<SkeletonBone> {
    bones.filter(|b: SkeletonBone| is_visible(b))
}

/// The visible bones of a character's skeleton.
pub open spec fn visible_bones(c: Character) -> Seq<SkeletonBone> {
    visible_of(c.bones@)
}

/// Velocity damping for one component: division by 100, truncated toward
/// zero.
pub open spec fn damp100(v: int) -> int {
    if v >= 0 {
        v / 100
    } else {
        -((-v) / 100)
    }
}

/// The velocity a fragment inherits: the source velocity divided by 100
/// component-wise, or zero when the source carried no velocity attribute.
pub open spec fn spec_damped(v: Option<Vec3>) -> Vec3 {
    match v {
        None => Vec3::spec_zero(),
        Some(u) => Vec3 {
            x: damp100(u.x as int) as i64,
            y: damp100(u.y as int) as i64,
            z: damp100(u.z as int) as i64,
        },
    }
}

/// One velocity component divided by 100, truncated toward zero.
pub fn damp_component(v: i64) -> (r: i64)
    requires
        v > i64::MIN,
    ensures
        r == damp100(v as int),
{
    if v >= 0 {
        v / 100
    } else {
        -((-v) / 100)
    }
}

/// Damp a velocity attribute; an absent attribute damps to zero.
pub fn damp_velocity(v: &Option<Vec3>) -> (r: Vec3)
    requires
        (*v matches Some(u) ==> u.wf()),
    ensures
        r == spec_damped(*v),
{
    match v {
        None => Vec3::zero(),
        Some(u) => Vec3 {
            x: damp_component(u.x),
            y: damp_component(u.y),
            z: damp_component(u.z),
        },
    }
}

/// The fragment a visible bone of a dead character becomes.
pub open spec fn spec_fragment(c: Character, b: SkeletonBone) -> Fragment {
    Fragment {
        id: b.id,
        origin: Bone(c.id),
        parent: c.parent,
        mesh: b.mesh->Some_0,
        transform: b.transform,
        lin_vel: spec_damped(c.lin_vel),
        ang_vel: spec_damped(c.ang_vel),
        restitution: FRAGMENT_RESTITUTION,
        lin_damping: FRAGMENT_LINEAR_DAMPING,
        ang_damping: FRAGMENT_ANGULAR_DAMPING,
        death: c.death->Some_0,
    }
}

/// The fragments of `c` arising from a prefix `bones` of its skeleton.
pub open spec fn spec_fragments_of(c: Character, bones: Seq<SkeletonBone>) -> Seq<Fragment> {
    visible_of(bones).map_values(|b: SkeletonBone| spec_fragment(c, b))
}

/// The fragments decomposing `c` produces: one per visible bone, in
/// hierarchy order.
pub open spec fn spec_fragments(c: Character) -> Seq<Fragment> {
    spec_fragments_of(c, c.bones@)
}

/// Every visible sub-mesh of `c`'s skeleton is among the prepared
/// unskinned copies `meshes`.
pub open spec fn spec_meshes_loaded(c: Character, meshes: Seq<u64>) -> bool {
    forall|i: int|
        0 <= i < c.bones@.len() && is_visible(#[trigger] c.bones@[i]) ==> meshes.contains(
            c.bones@[i].mesh->Some_0,
        )
}

/// The fatal configuration error: a bone must fragment but its sub-mesh
/// has no prepared unskinned copy.
#[derive(Clone, Copy, Debug, PartialEq, Eq, Structural)]
pub struct MissingUnskinnedMesh {
    /// The first bone, in hierarchy order, that could not fragment.
    pub bone: u64,
    /// Its sub-mesh, absent from the unskinned-mesh map.
    pub mesh: u64,
}

proof fn lemma_visible_take_step(bones: Seq<SkeletonBone>, i: int)
    requires
        0 <= i < bones.len(),
    ensures
        visible_of(bones.take(i + 1)) == if is_visible(bones[i]) {
            visible_of(bones.take(i)).push(bones[i])
        } else {
            visible_of(bones.take(i))
        },
{
    reveal(Seq::filter);
    assert(bones.take(i + 1).drop_last() =~= bones.take(i));
    assert(bones.take(i + 1).last() == bones[i]);
}

/// Decompose the dead character `c` into one fragment per visible bone.
///
/// Succeeds exactly when every visible sub-mesh has a prepared unskinned
/// copy; otherwise nothing is produced and the error names the first
/// bone, in hierarchy order, whose copy is missing.
pub fn decompose(c: &Character, meshes: &UnskinnedMeshMap) -> (r: Result<
    Vec<Fragment>,
    MissingUnskinnedMesh,
>)
    requires
        c.wf(),
        c.death is Some,
    ensures
        r is Ok <==> spec_meshes_loaded(*c, meshes.loaded@),
        (r matches Ok(frags) ==> frags@ == spec_fragments(*c)),
        (r matches Err(e) ==> exists|i: int|
            {
                &&& 0 <= i < c.bones@.len()
                &&& (#[trigger] c.bones@[i]).mesh == Some(e.mesh)
                &&& c.bones@[i].id == e.bone
                &&& !meshes.spec_contains(e.mesh)
                &&& forall|j: int|
                    0 <= j < i && is_visible(#[trigger] c.bones@[j]) ==> meshes.spec_contains(
                        c.bones@[j].mesh->Some_0,
                    )
            }),
{
    let death = c.death.unwrap();
    let lin_vel = damp_velocity(&c.lin_vel);
    let ang_vel = damp_velocity(&c.ang_vel);
    let mut out: Vec<Fragment> = Vec::new();
    let mut i: usize = 0;
    while i < c.bones.len()
        invariant
            0 <= i <= c.bones@.len(),
            out@ == spec_fragments_of(*c, c.bones@.take(i as int)),
            forall|j: int|
                0 <= j < i && is_visible(#[trigger] c.bones@[j]) ==> meshes.spec_contains(
                    c.bones@[j].mesh->Some_0,
                ),
            c.death is Some,
            death == c.death->Some_0,
            lin_vel == spec_damped(c.lin_vel),
            ang_vel == spec_damped(c.ang_vel),
        decreases c.bones@.len() - i,
    {
        let b = c.bones[i];
        proof {
            lemma_visible_take_step(c.bones@, i as int);
        }
        match b.mesh {
            None => {},
            Some(mesh) => {
                if !meshes.contains(mesh) {
                    return Err(MissingUnskinnedMesh { bone: b.id, mesh });
                }
                out.push(
                    Fragment {
                        id: b.id,
                        origin: Bone(c.id),
                        parent: c.parent,
                        mesh,
                        transform: b.transform,
                        lin_vel,
                        ang_vel,
                        restitution: FRAGMENT_RESTITUTION,
                        lin_damping: FRAGMENT_LINEAR_DAMPING,
                        ang_damping: FRAGMENT_ANGULAR_DAMPING,
                        death,
                    },
                );
                proof {
                    assert(out@ =~= spec_fragments_of(*c, c.bones@.take(i + 1)));
                }
            },
        }
        proof {
            assert(out@ =~= spec_fragments_of(*c, c.bones@.take(i + 1)));
        }
        i += 1;
    }
    proof {
        assert(c.bones@.take(c.bones@.len() as int) =~= c.bones@);
    }
    Ok(out)
}

/// Fragment count invariant: decomposing a character with N visible bones
/// gives exactly N fragments; each is parented to the character's
/// original parent (or unparented if it had none); and two fragments only
/// share a transform where their source bones coincided.
pub proof fn lemma_fragment_count(c: Character)
    ensures
        spec_fragments(c).len() == visible_bones(c).len(),
        forall|i: int| 0 <= i < spec_fragments(c).len() ==> (#[trigger] spec_fragments(c)[i])
            == spec_fragment(c, visible_bones(c)[i]),
        forall|i: int| 0 <= i < spec_fragments(c).len() ==> (#[trigger] spec_fragments(c)[i]).parent
            == c.parent,
        forall|i: int, j: int|
            0 <= i < spec_fragments(c).len() && 0 <= j < spec_fragments(c).len()
                && (#[trigger] spec_fragments(c)[i]).transform == (
            #[trigger] spec_fragments(c)[j]).transform ==> visible_bones(c)[i].transform
                == visible_bones(c)[j].transform,
{
}

/// Velocity damping: every fragment spawns with the source character's
/// linear and angular velocity divided by 100, component-wise and
/// truncated toward zero; a source without a velocity attribute gives
/// fragments at rest.
pub proof fn lemma_velocity_damping(c: Character)
    ensures
        forall|i: int| 0 <= i < spec_fragments(c).len() ==> (#[trigger] spec_fragments(c)[i]).lin_vel
            == spec_damped(c.lin_vel),
        forall|i: int| 0 <= i < spec_fragments(c).len() ==> (#[trigger] spec_fragments(c)[i]).ang_vel
            == spec_damped(c.ang_vel),
        c.lin_vel matches Some(v) ==> spec_damped(c.lin_vel) == (Vec3 {
            x: damp100(v.x as int) as i64,
            y: damp100(v.y as int) as i64,
            z: damp100(v.z as int) as i64,
        }),
        c.lin_vel is None ==> spec_damped(c.lin_vel) == Vec3::spec_zero(),
        c.ang_vel matches Some(v) ==> spec_damped(c.ang_vel) == (Vec3 {
            x: damp100(v.x as int) as i64,
            y: damp100(v.y as int) as i64,
            z: damp100(v.z as int) as i64,
        }),
        c.ang_vel is None ==> spec_damped(c.ang_vel) == Vec3::spec_zero(),
{
}

} // verus!
