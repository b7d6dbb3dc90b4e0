//! The simulated population and the ordered per-tick passes over it.
//!
//! A [`World`] holds the live characters, the fragments of decomposed
//! ones, the identities the collision bridge recognizes as impact
//! sources, and the unskinned-mesh map.  One [`World::tick`] runs the
//! fixed single-threaded pass order: collision events are bridged into
//! stuns, the fall detector runs before the recovery check (so a fall
//! always pre-empts simultaneous recovery eligibility), dead characters
//! with a skeleton are decomposed into fragments, and the despawn
//! scheduler reaps whatever death stamp has outlived its grace period.
//!
//! Contracts are stated over the mathematical view [`WorldView`], whose
//! transition functions mirror each pass exactly.

use vstd::prelude::*;

use crate::character::Character;
use crate::character::Dead;
use crate::fragments::Fragment;
use crate::fragments::UnskinnedMeshMap;
use crate::fragments::decompose;
use crate::fragments::spec_fragments;
use crate::fragments::spec_meshes_loaded;
use crate::fragments::is_visible;

verus! {

/// A "collision started" event from the physics collaborator: the two
/// entity identities that came into contact this tick.
#[derive(Clone, Copy, Debug, PartialEq, Eq, Structural)]
pub struct CollisionStarted(pub u64, pub u64);

/// The mathematical state of a [`World`].
pub struct WorldView {
    pub characters: Seq<Character>,
    pub fragments: Seq<Fragment>,
    pub impact_sources: Seq<u64>,
    /// The skinned sub-meshes whose unskinned copies are prepared.
    pub meshes: Seq<u64>,
    /// Policy: whether a character-to-character collision stuns both
    /// participants.  No force-magnitude threshold is applied either way.
    pub stun_on_character_collision: bool,
}

impl WorldView {
    /// Well-formedness: character identities are pairwise distinct and
    /// every character satisfies its own invariant.
    pub open spec fn wf(self) -> bool {
        &&& forall|i: int, j: int|
            0 <= i < j < self.characters.len() ==> (#[trigger] self.characters[i]).id != (
            #[trigger] self.characters[j]).id
        &&& forall|i: int| 0 <= i < self.characters.len() ==> (
        #[trigger] self.characters[i]).inv()
    }

    pub open spec fn is_character(self, id: u64) -> bool {
        exists|i: int| 0 <= i < self.characters.len() && (#[trigger] self.characters[i]).id == id
    }

    pub open spec fn is_impact_source(self, id: u64) -> bool {
        self.impact_sources.contains(id)
    }

    /// The index of the character with identity `id`; meaningful only
    /// under `wf`, which makes it unique.
    pub open spec fn char_index(self, id: u64) -> int {
        choose|k: int| 0 <= k < self.characters.len() && (#[trigger] self.characters[k]).id == id
    }

    /// No stun-expiry stamp can overflow at time `now`.
    pub open spec fn all_stun_fits(self, now: u64) -> bool {
        forall|i: int| 0 <= i < self.characters.len() ==> (#[trigger] self.characters[i]).stun_fits(
            now,
        )
    }

    /// Every visible sub-mesh of every character has a prepared
    /// unskinned copy, so any death can decompose.
    pub open spec fn meshes_ready(self) -> bool {
        forall|i: int, b: int|
            0 <= i < self.characters.len() && 0 <= b < (
            #[trigger] self.characters[i]).bones@.len() && is_visible(
                #[trigger] self.characters[i].bones@[b],
            ) ==> self.meshes.contains(self.characters[i].bones@[b].mesh->Some_0)
    }

    /// The characters a qualifying collision event hands to the stun
    /// controller: both participants must be recognized (a character or
    /// an impact source), a collision between two impact sources is
    /// ignored, and then every character participant is stunned.  Under
    /// the default policy a character-to-character collision stuns both,
    /// with no force threshold applied; switching the policy off ignores
    /// such collisions instead.
    pub open spec fn event_targets(self, e: CollisionStarted) -> Seq<u64> {
        let a_known = self.is_character(e.0) || self.is_impact_source(e.0);
        let b_known = self.is_character(e.1) || self.is_impact_source(e.1);
        let both_sources = self.is_impact_source(e.0) && self.is_impact_source(e.1);
        let both_characters = self.is_character(e.0) && self.is_character(e.1);
        if !(a_known && b_known) || both_sources || (both_characters
            && !self.stun_on_character_collision) {
            Seq::empty()
        } else {
            (if self.is_character(e.0) {
                seq![e.0]
            } else {
                Seq::empty()
            }) + (if self.is_character(e.1) {
                seq![e.1]
            } else {
                Seq::empty()
            })
        }
    }

    /// All stun targets of this tick's collision events, in event order.
    pub open spec fn collision_targets(self, events: Seq<CollisionStarted>) -> Seq<u64>
        decreases events.len(),
    {
        if events.len() == 0 {
            Seq::empty()
        } else {
            self.collision_targets(events.drop_last()) + self.event_targets(events.last())
        }
    }

    /// Stun the character with identity `id`, if it is live.
    pub open spec fn stun_id(self, id: u64, now: u64) -> WorldView {
        if self.is_character(id) {
            let k = self.char_index(id);
            WorldView {
                characters: self.characters.update(k, self.characters[k].spec_stun(now)),
                ..self
            }
        } else {
            self
        }
    }

    /// Stun every identity in `ids`, in order.
    pub open spec fn stun_all(self, ids: Seq<u64>, now: u64) -> WorldView
        decreases ids.len(),
    {
        if ids.len() == 0 {
            self
        } else {
            self.stun_all(ids.drop_last(), now).stun_id(ids.last(), now)
        }
    }

    /// The fall detector's pass: applied to every character.
    pub open spec fn fall_all(self, now: u64) -> WorldView {
        WorldView {
            characters: self.characters.map_values(|c: Character| c.spec_fall_step(now)),
            ..self
        }
    }

    /// The recovery check's pass: applied to every character.
    pub open spec fn recover_all(self, now: u64) -> WorldView {
        WorldView {
            characters: self.characters.map_values(|c: Character| c.spec_recovery_step(now)),
            ..self
        }
    }

    /// Every character that would decompose has all its visible
    /// sub-meshes prepared, so the decomposition pass cannot hit the
    /// fatal configuration error.
    pub open spec fn decompose_ready(self) -> bool {
        forall|i: int|
            0 <= i < self.characters.len() && should_decompose(#[trigger] self.characters[i])
                ==> spec_meshes_loaded(self.characters[i], self.meshes)
    }

    /// The decomposition pass: every dead character that still has a
    /// skeleton is removed and its fragments are appended, in character
    /// order; the others stay.
    pub open spec fn decompose_all(self) -> WorldView {
        WorldView {
            characters: self.characters.filter(surviving_pred()),
            fragments: self.fragments + decomposed_fragments(self.characters),
            ..self
        }
    }

    /// The despawn scheduler's pass: remove every entity whose death
    /// stamp has outlived its grace period at `now`.
    pub open spec fn despawn_all(self, now: u64) -> WorldView {
        WorldView {
            characters: self.characters.filter(live_char_pred(now)),
            fragments: self.fragments.filter(live_frag_pred(now)),
            ..self
        }
    }

    /// One simulation tick at `now`, in the fixed pass order: collision
    /// bridging and stunning first, then the fall detector, then the
    /// recovery check, then decomposition, then despawning.
    pub open spec fn spec_tick(self, events: Seq<CollisionStarted>, now: u64) -> WorldView {
        self.stun_all(self.collision_targets(events), now).fall_all(now).recover_all(
            now,
        ).decompose_all().despawn_all(now)
    }
}

/// A dead character with at least one skeleton bone is decomposed; one
/// with no bone hierarchy skips fragmentation and despawns directly.
pub open spec fn should_decompose(c: Character) -> bool {
    c.death is Some && c.bones@.len() > 0
}

/// The characters the decomposition pass keeps.
pub open spec fn surviving_pred() -> spec_fn(Character) -> bool {
    |c: Character| !should_decompose(c)
}

/// The fragments the decomposition pass appends: those of every
/// character that decomposes, in character order.
pub open spec fn decomposed_fragments(chars: Seq<Character>) -> Seq<Fragment>
    decreases chars.len(),
{
    if chars.len() == 0 {
        Seq::empty()
    } else {
        decomposed_fragments(chars.drop_last()) + if should_decompose(chars.last()) {
            spec_fragments(chars.last())
        } else {
            Seq::empty()
        }
    }
}

/// The characters the despawn scheduler keeps at `now`.
pub open spec fn live_char_pred(now: u64) -> spec_fn(Character) -> bool {
    |c: Character| !(c.death matches Some(d) && d.spec_expired(now))
}

/// The fragments the despawn scheduler keeps at `now`.
pub open spec fn live_frag_pred(now: u64) -> spec_fn(Fragment) -> bool {
    |f: Fragment| !f.death.spec_expired(now)
}

proof fn lemma_filter_take_step<A>(s: Seq<A>, pred: spec_fn(A) -> bool, i: int)
    requires
        0 <= i < s.len(),
    ensures
        s.take(i + 1).filter(pred) == if pred(s[i]) {
            s.take(i).filter(pred).push(s[i])
        } else {
            s.take(i).filter(pred)
        },
{
    reveal(Seq::filter);
    assert(s.take(i + 1).drop_last() =~= s.take(i));
    assert(s.take(i + 1).last() == s[i]);
}

/// The live population, the fragments of decomposed characters, the
/// identities recognized as impact sources, and the unskinned-mesh map.
#[derive(Debug, PartialEq)]
pub struct World {
    pub characters: Vec<Character>,
    pub fragments: Vec<Fragment>,
    pub impact_sources: Vec<u64>,
    pub meshes: UnskinnedMeshMap,
    /// Policy: whether a character-to-character collision stuns both
    /// participants.  The default tuning has it on, with no
    /// force-magnitude gating.
    pub stun_on_character_collision: bool,
}

impl View for World {
    type V = WorldView;

    open spec fn view(&self) -> WorldView {
        WorldView {
            characters: self.characters@,
            fragments: self.fragments@,
            impact_sources: self.impact_sources@,
            meshes: self.meshes.loaded@,
            stun_on_character_collision: self.stun_on_character_collision,
        }
    }
}

impl World {
    /// An empty simulation.
    pub fn new() -> (w: World)
        ensures
            w@.characters == Seq::<Character>::empty(),
            w@.fragments == Seq::<Fragment>::empty(),
            w@.impact_sources == Seq::<u64>::empty(),
            w@.meshes == Seq::<u64>::empty(),
            w@.stun_on_character_collision,
            w@.wf(),
    {
        World {
            characters: Vec::new(),
            fragments: Vec::new(),
            impact_sources: Vec::new(),
            meshes: UnskinnedMeshMap::new(),
            stun_on_character_collision: true,
        }
    }

    /// Whether a character with identity `id` is live.  Looking up the
    /// origin of a fragment after decomposition simply finds nothing.
    pub fn contains_character(&self, id: u64) -> (found: bool)
        ensures
            found == self@.is_character(id),
    {
        let mut i: usize = 0;
        while i < self.characters.len()
            invariant
                0 <= i <= self.characters@.len(),
                forall|j: int| 0 <= j < i ==> (#[trigger] self.characters@[j]).id != id,
            decreases self.characters@.len() - i,
        {
            if self.characters[i].id == id {
                return true;
            }
            i += 1;
        }
        false
    }

    /// The position of the live character with identity `id`, if any.
    pub fn find_character_index(&self, id: u64) -> (r: Option<usize>)
        ensures
            (r matches Some(k) ==> k < self.characters@.len() && self.characters@[k as int].id
                == id),
            r is None ==> !self@.is_character(id),
    {
        let mut i: usize = 0;
        while i < self.characters.len()
            invariant
                0 <= i <= self.characters@.len(),
                forall|j: int| 0 <= j < i ==> (#[trigger] self.characters@[j]).id != id,
            decreases self.characters@.len() - i,
        {
            if self.characters[i].id == id {
                return Some(i);
            }
            i += 1;
        }
        None
    }

    /// A borrowed look at the live character with identity `id`, or
    /// `None` when no such character exists (any longer).
    pub fn get_character(&self, id: u64) -> (r: Option<&Character>)
        requires
            self@.wf(),
        ensures
            (r matches Some(c) ==> self@.is_character(id) && *c == self@.characters[self@.char_index(
                id,
            )]),
            r is None <==> !self@.is_character(id),
    {
        match self.find_character_index(id) {
            Some(k) => {
                let c = &self.characters[k];
                proof {
                    let ki = self@.char_index(id);
                    assert(0 <= ki < self@.characters.len() && self@.characters[ki].id == id);
                    assert(ki == k as int);
                }
                Some(c)
            },
            None => None,
        }
    }

    /// Whether `id` is recognized as an impact source.
    pub fn contains_impact_source(&self, id: u64) -> (found: bool)
        ensures
            found == self@.is_impact_source(id),
    {
        let mut i: usize = 0;
        while i < self.impact_sources.len()
            invariant
                0 <= i <= self.impact_sources@.len(),
                forall|j: int| 0 <= j < i ==> self.impact_sources@[j] != id,
            decreases self.impact_sources@.len() - i,
        {
            if self.impact_sources[i] == id {
                return true;
            }
            i += 1;
        }
        false
    }

    /// Add a live character.  A second character with a taken identity is
    /// refused, so well-formedness is preserved.
    pub fn spawn_character(&mut self, c: Character) -> (added: bool)
        requires
            c.inv(),
            old(self)@.wf(),
        ensures
            added == !old(self)@.is_character(c.id),
            final(self)@ == if old(self)@.is_character(c.id) {
                old(self)@
            } else {
                WorldView { characters: old(self)@.characters.push(c), ..old(self)@ }
            },
            final(self)@.wf(),
    {
        if self.contains_character(c.id) {
            return false;
        }
        self.characters.push(c);
        true
    }

    /// Recognize `id` as an impact source for the collision bridge.
    pub fn add_impact_source(&mut self, id: u64)
        ensures
            final(self)@ == (WorldView {
                impact_sources: old(self)@.impact_sources.push(id),
                ..old(self)@
            }),
    {
        self.impact_sources.push(id);
    }

    /// The collision-to-stun bridge: the characters this tick's events
    /// hand to the stun controller, in event order.
    pub fn collision_stun_targets(&self, events: &Vec<CollisionStarted>) -> (targets: Vec<u64>)
        ensures
            targets@ == self@.collision_targets(events@),
    {
        let mut targets: Vec<u64> = Vec::new();
        let mut i: usize = 0;
        while i < events.len()
            invariant
                0 <= i <= events@.len(),
                targets@ == self@.collision_targets(events@.take(i as int)),
            decreases events@.len() - i,
        {
            let e = events[i];
            let a_char = self.contains_character(e.0);
            let b_char = self.contains_character(e.1);
            let a_source = self.contains_impact_source(e.0);
            let b_source = self.contains_impact_source(e.1);
            let a_known = a_char || a_source;
            let b_known = b_char || b_source;
            let both_characters = a_char && b_char;
            if a_known && b_known && !(a_source && b_source) && !(both_characters
                && !self.stun_on_character_collision) {
                if a_char {
                    targets.push(e.0);
                }
                if b_char {
                    targets.push(e.1);
                }
            }
            proof {
                assert(events@.take(i + 1).drop_last() =~= events@.take(i as int));
                assert(events@.take(i + 1).last() == events@[i as int]);
                assert(targets@ =~= self@.collision_targets(events@.take(i + 1)));
            }
            i += 1;
        }
        proof {
            assert(events@.take(events@.len() as int) =~= events@);
        }
        targets
    }

    /// Stun every character named in `ids`, in order; identities that are
    /// not live characters are skipped (a stale collision participant is
    /// silently dropped).
    pub fn stun_all(&mut self, ids: &Vec<u64>, now: u64)
        requires
            old(self)@.wf(),
            old(self)@.all_stun_fits(now),
        ensures
            final(self)@ == old(self)@.stun_all(ids@, now),
            final(self)@.wf(),
            final(self)@.all_stun_fits(now),
            old(self)@.meshes_ready() ==> final(self)@.meshes_ready(),
    {
        let ghost orig = self@;
        let mut i: usize = 0;
        while i < ids.len()
            invariant
                0 <= i <= ids@.len(),
                self@ == orig.stun_all(ids@.take(i as int), now),
                self@.wf(),
                self@.all_stun_fits(now),
                self@.characters.len() == orig.characters.len(),
                forall|k: int|
                    0 <= k < orig.characters.len() ==> (#[trigger] self@.characters[k]).id
                        == orig.characters[k].id && self@.characters[k].bones
                        == orig.characters[k].bones && self@.characters[k].stun_time
                        == orig.characters[k].stun_time,
                self@.impact_sources == orig.impact_sources,
                self@.meshes == orig.meshes,
                self@.fragments == orig.fragments,
                self@.stun_on_character_collision == orig.stun_on_character_collision,
            decreases ids@.len() - i,
        {
            let id = ids[i];
            let ghost before = self@;
            match self.find_character_index(id) {
                Some(k) => {
                    proof {
                        assert(before.is_character(id));
                        let ki = before.char_index(id);
                        assert(0 <= ki < before.characters.len() && before.characters[ki].id
                            == id);
                        assert(ki == k as int);
                    }
                    self.characters[k].stun(now);
                    proof {
                        assert(self@ == before.stun_id(id, now));
                    }
                },
                None => {
                    proof {
                        assert(self@ == before.stun_id(id, now));
                    }
                },
            }
            proof {
                assert(ids@.take(i + 1).drop_last() =~= ids@.take(i as int));
                assert(ids@.take(i + 1).last() == ids@[i as int]);
                assert(self@ == orig.stun_all(ids@.take(i + 1), now));
            }
            i += 1;
        }
        proof {
            assert(ids@.take(ids@.len() as int) =~= ids@);
            if orig.meshes_ready() {
                assert forall|k: int, b: int|
                    0 <= k < self@.characters.len() && 0 <= b < (
                    #[trigger] self@.characters[k]).bones@.len() && is_visible(
                        #[trigger] self@.characters[k].bones@[b],
                    ) implies self@.meshes.contains(
                    self@.characters[k].bones@[b].mesh->Some_0,
                ) by {
                    assert(self@.characters[k].bones == orig.characters[k].bones);
                    assert(is_visible(orig.characters[k].bones@[b]));
                }
                assert(self@.meshes_ready());
            }
        }
    }

    /// An external impact marker ("zapped-by" style) was applied to `id`:
    /// stun that character with its class-default duration.  A stale or
    /// unknown identity is silently skipped.
    pub fn zap(&mut self, id: u64, now: u64)
        requires
            old(self)@.wf(),
            old(self)@.all_stun_fits(now),
        ensures
            final(self)@ == old(self)@.stun_id(id, now),
            final(self)@.wf(),
    {
        let ghost before = self@;
        match self.find_character_index(id) {
            Some(k) => {
                proof {
                    assert(before.is_character(id));
                    let ki = before.char_index(id);
                    assert(0 <= ki < before.characters.len() && before.characters[ki].id == id);
                    assert(ki == k as int);
                }
                self.characters[k].stun(now);
            },
            None => {},
        }
    }

    /// The fall detector's pass: every stunned character past its pitch
    /// threshold dies on the spot.  It runs before the recovery check, so
    /// a fall always wins over simultaneous recovery eligibility.
    pub fn process_knocked_over(&mut self, now: u64)
        requires
            old(self)@.wf(),
        ensures
            final(self)@ == old(self)@.fall_all(now),
            final(self)@.wf(),
            old(self)@.meshes_ready() ==> final(self)@.meshes_ready(),
    {
        let ghost orig = self@;
        let n = self.characters.len();
        let mut i: usize = 0;
        while i < n
            invariant
                0 <= i <= n,
                n == orig.characters.len(),
                self@.characters.len() == n,
                forall|k: int|
                    0 <= k < i ==> (#[trigger] self@.characters[k]) == orig.characters[k].spec_fall_step(
                        now,
                    ),
                forall|k: int| i <= k < n ==> (#[trigger] self@.characters[k]) == orig.characters[k],
                orig.wf(),
                self@.fragments == orig.fragments,
                self@.impact_sources == orig.impact_sources,
                self@.meshes == orig.meshes,
                self@.stun_on_character_collision == orig.stun_on_character_collision,
            decreases n - i,
        {
            self.characters[i].fall_step(now);
            i += 1;
        }
        proof {
            assert(self@.characters =~= orig.characters.map_values(
                |c: Character| c.spec_fall_step(now),
            ));
            assert forall|k: int| 0 <= k < self@.characters.len() implies (
            #[trigger] self@.characters[k]).inv() && self@.characters[k].id
                == orig.characters[k].id && self@.characters[k].bones == orig.characters[k].bones by {
                assert(orig.characters[k].inv());
                assert(self@.characters[k] == orig.characters[k].spec_fall_step(now));
            }
            if orig.meshes_ready() {
                assert forall|k: int, b: int|
                    0 <= k < self@.characters.len() && 0 <= b < (
                    #[trigger] self@.characters[k]).bones@.len() && is_visible(
                        #[trigger] self@.characters[k].bones@[b],
                    ) implies self@.meshes.contains(
                    self@.characters[k].bones@[b].mesh->Some_0,
                ) by {
                    assert(self@.characters[k].bones == orig.characters[k].bones);
                    assert(is_visible(orig.characters[k].bones@[b]));
                }
                assert(self@.meshes_ready());
            }
        }
    }

    /// The recovery check's pass: every stunned character that is
    /// grounded with an expired stun leaves the stunned state and gets
    /// its snapshotted attributes back.
    pub fn process_recovery(&mut self, now: u64)
        requires
            old(self)@.wf(),
        ensures
            final(self)@ == old(self)@.recover_all(now),
            final(self)@.wf(),
            old(self)@.meshes_ready() ==> final(self)@.meshes_ready(),
    {
        let ghost orig = self@;
        let n = self.characters.len();
        let mut i: usize = 0;
        while i < n
            invariant
                0 <= i <= n,
                n == orig.characters.len(),
                self@.characters.len() == n,
                forall|k: int|
                    0 <= k < i ==> (#[trigger] self@.characters[k])
                        == orig.characters[k].spec_recovery_step(now),
                forall|k: int| i <= k < n ==> (#[trigger] self@.characters[k]) == orig.characters[k],
                orig.wf(),
                self@.fragments == orig.fragments,
                self@.impact_sources == orig.impact_sources,
                self@.meshes == orig.meshes,
                self@.stun_on_character_collision == orig.stun_on_character_collision,
            decreases n - i,
        {
            self.characters[i].try_recover(now);
            i += 1;
        }
        proof {
            assert(self@.characters =~= orig.characters.map_values(
                |c: Character| c.spec_recovery_step(now),
            ));
            assert forall|k: int| 0 <= k < self@.characters.len() implies (
            #[trigger] self@.characters[k]).inv() && self@.characters[k].id
                == orig.characters[k].id && self@.characters[k].bones == orig.characters[k].bones by {
                assert(orig.characters[k].inv());
                assert(self@.characters[k] == orig.characters[k].spec_recovery_step(now));
            }
            if orig.meshes_ready() {
                assert forall|k: int, b: int|
                    0 <= k < self@.characters.len() && 0 <= b < (
                    #[trigger] self@.characters[k]).bones@.len() && is_visible(
                        #[trigger] self@.characters[k].bones@[b],
                    ) implies self@.meshes.contains(
                    self@.characters[k].bones@[b].mesh->Some_0,
                ) by {
                    assert(self@.characters[k].bones == orig.characters[k].bones);
                    assert(is_visible(orig.characters[k].bones@[b]));
                }
                assert(self@.meshes_ready());
            }
        }
    }

    /// The decomposition pass: every dead character that still has a
    /// skeleton is replaced by one fragment per visible bone and removed
    /// at once; a dead character without a skeleton stays and carries its
    /// death stamp to the despawn scheduler.
    pub fn process_dead(&mut self)
        requires
            old(self)@.wf(),
            old(self)@.decompose_ready(),
        ensures
            final(self)@ == old(self)@.decompose_all(),
            final(self)@.wf(),
    {
        let ghost orig = self@;
        let mut pending: Vec<Character> = Vec::new();
        core::mem::swap(&mut self.characters, &mut pending);
        proof {
            reveal(Seq::filter);
            assert(orig.characters.take(0).filter(surviving_pred()) =~= Seq::<Character>::empty());
            assert(orig.fragments + decomposed_fragments(orig.characters.take(0))
                =~= orig.fragments);
            assert(pending@ =~= orig.characters.skip(0));
        }
        while pending.len() > 0
            invariant
                pending@.len() <= orig.characters.len(),
                pending@ == orig.characters.skip(
                    orig.characters.len() - pending@.len(),
                ),
                self@.characters == orig.characters.take(
                    orig.characters.len() - pending@.len(),
                ).filter(surviving_pred()),
                self@.fragments == orig.fragments + decomposed_fragments(
                    orig.characters.take(orig.characters.len() - pending@.len()),
                ),
                self@.impact_sources == orig.impact_sources,
                self@.meshes == orig.meshes,
                self@.stun_on_character_collision == orig.stun_on_character_collision,
                orig.wf(),
                orig.decompose_ready(),
                forall|a: int|
                    0 <= a < self@.characters.len() ==> exists|j: int|
                        0 <= j < orig.characters.len() - pending@.len() && (
                        #[trigger] self@.characters[a]) == orig.characters[j],
                forall|a: int, b: int|
                    0 <= a < b < self@.characters.len() ==> (#[trigger] self@.characters[a]).id != (
                    #[trigger] self@.characters[b]).id,
            decreases pending@.len(),
        {
            let ghost k = orig.characters.len() - pending@.len();
            let c = pending.remove(0);
            proof {
                assert(c == orig.characters[k]);
                assert(orig.characters.skip(k).remove(0) =~= orig.characters.skip(k + 1));
                lemma_filter_take_step(orig.characters, surviving_pred(), k);
                assert(orig.characters.take(k + 1).drop_last() =~= orig.characters.take(k));
                assert(orig.characters.take(k + 1).last() == orig.characters[k]);
                assert(orig.characters[k].inv());
            }
            if c.death.is_some() && c.bones.len() > 0 {
                proof {
                    assert(should_decompose(orig.characters[k]));
                    assert(spec_meshes_loaded(c, self@.meshes));
                }
                let decomposed = decompose(&c, &self.meshes);
                proof {
                    assert(decomposed is Ok);
                }
                match decomposed {
                    Ok(mut frags) => {
                        proof {
                            assert(frags@ == spec_fragments(c));
                        }
                        self.fragments.append(&mut frags);
                    },
                    Err(_) => {},
                }
                proof {
                    assert(self@.fragments =~= orig.fragments + decomposed_fragments(
                        orig.characters.take(k + 1),
                    ));
                }
            } else {
                self.characters.push(c);
                proof {
                    assert(self@.fragments =~= orig.fragments + decomposed_fragments(
                        orig.characters.take(k + 1),
                    ));
                }
            }
        }
        proof {
            assert(orig.characters.take(orig.characters.len() as int) =~= orig.characters);
            assert forall|a: int| 0 <= a < self@.characters.len() implies (
            #[trigger] self@.characters[a]).inv() by {
                let j = choose|j: int|
                    0 <= j < orig.characters.len() && self@.characters[a] == orig.characters[j];
                assert(orig.characters[j].inv());
            }
        }
    }

    /// The despawn scheduler's pass: batch-collect and remove every
    /// character and fragment whose death stamp has outlived its grace
    /// period at `now`.
    pub fn process_despawns(&mut self, now: u64)
        requires
            old(self)@.wf(),
        ensures
            final(self)@ == old(self)@.despawn_all(now),
            final(self)@.wf(),
    {
        let ghost orig = self@;
        let mut pending: Vec<Character> = Vec::new();
        core::mem::swap(&mut self.characters, &mut pending);
        proof {
            reveal(Seq::filter);
            assert(orig.characters.take(0).filter(live_char_pred(now)) =~= Seq::<
                Character,
            >::empty());
            assert(pending@ =~= orig.characters.skip(0));
        }
        while pending.len() > 0
            invariant
                pending@.len() <= orig.characters.len(),
                pending@ == orig.characters.skip(
                    orig.characters.len() - pending@.len(),
                ),
                self@.characters == orig.characters.take(
                    orig.characters.len() - pending@.len(),
                ).filter(live_char_pred(now)),
                self@.fragments == orig.fragments,
                self@.impact_sources == orig.impact_sources,
                self@.meshes == orig.meshes,
                self@.stun_on_character_collision == orig.stun_on_character_collision,
                orig.wf(),
                forall|a: int|
                    0 <= a < self@.characters.len() ==> exists|j: int|
                        0 <= j < orig.characters.len() - pending@.len() && (
                        #[trigger] self@.characters[a]) == orig.characters[j],
                forall|a: int, b: int|
                    0 <= a < b < self@.characters.len() ==> (#[trigger] self@.characters[a]).id != (
                    #[trigger] self@.characters[b]).id,
            decreases pending@.len(),
        {
            let ghost k = orig.characters.len() - pending@.len();
            let c = pending.remove(0);
            proof {
                assert(c == orig.characters[k]);
                assert(orig.characters.skip(k).remove(0) =~= orig.characters.skip(k + 1));
                lemma_filter_take_step(orig.characters, live_char_pred(now), k);
                assert(orig.characters.take(k + 1).drop_last() =~= orig.characters.take(k));
            }
            let keep = match &c.death {
                Some(d) => !d.expired(now),
                None => true,
            };
            if keep {
                self.characters.push(c);
            }
        }
        let mut old_frags: Vec<Fragment> = Vec::new();
        core::mem::swap(&mut self.fragments, &mut old_frags);
        proof {
            reveal(Seq::filter);
            assert(orig.characters.take(orig.characters.len() as int) =~= orig.characters);
            assert(orig.fragments.take(0).filter(live_frag_pred(now)) =~= Seq::<
                Fragment,
            >::empty());
            assert(old_frags@ =~= orig.fragments.skip(0));
        }
        while old_frags.len() > 0
            invariant
                old_frags@.len() <= orig.fragments.len(),
                old_frags@ == orig.fragments.skip(
                    orig.fragments.len() - old_frags@.len(),
                ),
                self@.fragments == orig.fragments.take(
                    orig.fragments.len() - old_frags@.len(),
                ).filter(live_frag_pred(now)),
                self@.characters == orig.characters.filter(live_char_pred(now)),
                self@.impact_sources == orig.impact_sources,
                self@.meshes == orig.meshes,
                self@.stun_on_character_collision == orig.stun_on_character_collision,
            decreases old_frags@.len(),
        {
            let ghost k = orig.fragments.len() - old_frags@.len();
            let f = old_frags.remove(0);
            proof {
                assert(f == orig.fragments[k]);
                assert(orig.fragments.skip(k).remove(0) =~= orig.fragments.skip(k + 1));
                lemma_filter_take_step(orig.fragments, live_frag_pred(now), k);
                assert(orig.fragments.take(k + 1).drop_last() =~= orig.fragments.take(k));
            }
            if !f.death.expired(now) {
                self.fragments.push(f);
            }
        }
        proof {
            assert(orig.fragments.take(orig.fragments.len() as int) =~= orig.fragments);
            assert forall|a: int| 0 <= a < self@.characters.len() implies (
            #[trigger] self@.characters[a]).inv() by {
                let j = choose|j: int|
                    0 <= j < orig.characters.len() && self@.characters[a] == orig.characters[j];
                assert(orig.characters[j].inv());
            }
        }
    }

    /// Whether every character's stun-expiry stamp would fit at `now`;
    /// callers of [`World::tick`] can test this instead of knowing it.
    pub fn check_stun_fits(&self, now: u64) -> (ok: bool)
        ensures
            ok == self@.all_stun_fits(now),
    {
        let mut i: usize = 0;
        while i < self.characters.len()
            invariant
                0 <= i <= self.characters@.len(),
                forall|j: int| 0 <= j < i ==> (#[trigger] self.characters@[j]).stun_fits(now),
            decreases self.characters@.len() - i,
        {
            match self.characters[i].stun_time {
                Some(d) => {
                    if d > u64::MAX - now {
                        proof {
                            assert(!self@.characters[i as int].stun_fits(now));
                            assert(!self@.all_stun_fits(now));
                        }
                        return false;
                    }
                },
                None => {},
            }
            i += 1;
        }
        true
    }

    /// Whether every visible sub-mesh of every character has a prepared
    /// unskinned copy; callers of [`World::tick`] can test this instead
    /// of knowing it.
    pub fn check_meshes_ready(&self) -> (ok: bool)
        ensures
            ok == self@.meshes_ready(),
    {
        let mut i: usize = 0;
        while i < self.characters.len()
            invariant
                0 <= i <= self.characters@.len(),
                forall|ii: int, b: int|
                    0 <= ii < i && 0 <= b < (#[trigger] self.characters@[ii]).bones@.len()
                        && is_visible(#[trigger] self.characters@[ii].bones@[b])
                        ==> self@.meshes.contains(self.characters@[ii].bones@[b].mesh->Some_0),
            decreases self.characters@.len() - i,
        {
            let mut b: usize = 0;
            let n_bones = self.characters[i].bones.len();
            while b < n_bones
                invariant
                    0 <= b <= n_bones,
                    i < self.characters@.len(),
                    n_bones == self.characters@[i as int].bones@.len(),
                    forall|bb: int|
                        0 <= bb < b && is_visible(
                            #[trigger] self.characters@[i as int].bones@[bb],
                        ) ==> self@.meshes.contains(
                            self.characters@[i as int].bones@[bb].mesh->Some_0,
                        ),
                decreases n_bones - b,
            {
                match self.characters[i].bones[b].mesh {
                    Some(m) => {
                        if !self.meshes.contains(m) {
                            return false;
                        }
                    },
                    None => {},
                }
                b += 1;
            }
            i += 1;
        }
        true
    }

    /// One simulation tick at time `now`: bridge this tick's collision
    /// events into stuns, run the fall detector, then the recovery check,
    /// decompose the dead, and despawn whatever grace period has elapsed
    /// — in that fixed order.
    pub fn tick(&mut self, events: &Vec<CollisionStarted>, now: u64)
        requires
            old(self)@.wf(),
            old(self)@.all_stun_fits(now),
            old(self)@.meshes_ready(),
        ensures
            final(self)@ == old(self)@.spec_tick(events@, now),
            final(self)@.wf(),
    {
        let targets = self.collision_stun_targets(events);
        self.stun_all(&targets, now);
        self.process_knocked_over(now);
        self.process_recovery(now);
        proof {
            assert forall|i: int|
                0 <= i < self@.characters.len() && should_decompose(
                    #[trigger] self@.characters[i],
                ) implies spec_meshes_loaded(self@.characters[i], self@.meshes) by {
                assert forall|b: int|
                    0 <= b < self@.characters[i].bones@.len() && is_visible(
                        #[trigger] self@.characters[i].bones@[b],
                    ) implies self@.meshes.contains(
                    self@.characters[i].bones@[b].mesh->Some_0,
                ) by {
                    assert(self@.meshes_ready());
                }
            }
            assert(self@.decompose_ready());
        }
        self.process_dead();
        self.process_despawns(now);
    }
}

/// Despawn timing for a character: with death timestamp T and grace
/// period D, the despawn pass keeps the character while `now < T + D`
/// and removes it once `now >= T + D` — the boundary is inclusive
/// removal.
pub proof fn lemma_despawn_timing_character(w: WorldView, c: Character, before: u64, after: u64)
    requires
        w.characters.contains(c),
        c.death matches Some(d) && before < d.died_at + d.despawn_delay && after >= d.died_at
            + d.despawn_delay,
    ensures
        w.despawn_all(before).characters.contains(c),
        !w.despawn_all(after).characters.contains(c),
{
    let i = choose|i: int| 0 <= i < w.characters.len() && w.characters[i] == c;
    w.characters.lemma_filter_contains(live_char_pred(before), i);
    if w.despawn_all(after).characters.contains(c) {
        let kept = w.characters.filter(live_char_pred(after));
        let j = choose|j: int| 0 <= j < kept.len() && kept[j] == c;
        w.characters.lemma_filter_pred(live_char_pred(after), j);
    }
}

/// Despawn timing for a fragment: with death timestamp T and grace
/// period D, the despawn pass keeps the fragment while `now < T + D` and
/// removes it once `now >= T + D` — the boundary is inclusive removal.
pub proof fn lemma_despawn_timing_fragment(w: WorldView, f: Fragment, before: u64, after: u64)
    requires
        w.fragments.contains(f),
        before < f.death.died_at + f.death.despawn_delay,
        after >= f.death.died_at + f.death.despawn_delay,
    ensures
        w.despawn_all(before).fragments.contains(f),
        !w.despawn_all(after).fragments.contains(f),
{
    let i = choose|i: int| 0 <= i < w.fragments.len() && w.fragments[i] == f;
    w.fragments.lemma_filter_contains(live_frag_pred(before), i);
    if w.despawn_all(after).fragments.contains(f) {
        let kept = w.fragments.filter(live_frag_pred(after));
        let j = choose|j: int| 0 <= j < kept.len() && kept[j] == f;
        w.fragments.lemma_filter_pred(live_frag_pred(after), j);
    }
}

} // verus!
