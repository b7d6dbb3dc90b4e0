//! Remembering a removed attribute so it can later be reinserted unchanged.
//!
//! While a character is destabilized, its behavioral attributes are taken
//! away so that the systems consuming them simply stop acting.  A
//! [`Snapshot`] is the per-attribute record that keeps the last value seen,
//! ready to be handed back on recovery.

use vstd::prelude::*;

verus! {

/// The remembered last value of one attribute, or `None` when nothing has
/// been recorded.
#[derive(Debug, PartialEq, Eq)]
pub struct Snapshot<T>(pub Option<T>);

impl<T> Snapshot<T> {
    /// An empty record.
    pub fn new() -> (s: Snapshot<T>)
        ensures
            s.0 is None,
    {
        Snapshot(None)
    }

    /// Record `new`, handing back whatever was recorded before.
    pub fn replace(&mut self, new: T) -> (prev: Option<T>)
        ensures
            final(self).0 == Some(new),
            prev == old(self).0,
    {
        let prev = self.0.take();
        self.0 = Some(new);
        prev
    }
}

} // verus!
