//! Lifecycle core for a combatant character in a real-time simulation.
//!
//! The library models, over plain integer values, how a character moves
//! between normal control, a destabilized ("stunned") state, falling over,
//! death, physical fragmentation and scheduled removal.  The surrounding
//! engine (physics, rendering, assets) is a collaborator: it supplies
//! collision events, velocities and ground contact as plain values and
//! applies the structural changes that the library decides on.
//!
//! Conventions: simulation time and durations are milliseconds (`u64`);
//! lengths and speeds are thousandths of a world unit (`i64`); angles are
//! degrees.

pub mod behaviors;
pub mod character;
pub mod enemy;
pub mod fragments;
pub mod snapshot;
pub mod vec;
pub mod vector;
pub mod world;

pub use character::Character;
pub use enemy::Enemy;
pub use fragments::Fragment;
pub use snapshot::Snapshot;
pub use vec::Vec2;
pub use vec::Vec3;
pub use world::CollisionStarted;
pub use world::World;
