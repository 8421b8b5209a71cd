use vstd::prelude::*;

verus! {

/// The shared "dirty" flag of the debounce coordinator: the event collector
/// sets it when a relevant change was seen, and the sync trigger atomically
/// reads and clears it once per poll interval. The caller is responsible for
/// serialising access through a single mutual-exclusion primitive.
pub struct DirtySignal {
    dirty: bool,
}

impl DirtySignal {
    /// Whether at least one relevant change is pending since the last sync.
    pub closed spec fn is_dirty(&self) -> bool {
        self.dirty
    }

    /// A fresh signal starts clean.
    pub fn new() -> (s: DirtySignal)
        ensures
            !s.is_dirty(),
    {
        DirtySignal { dirty: false }
    }

    /// The event collector marks the signal after a relevant change.
    pub fn mark(&mut self)
        ensures
            final(self).is_dirty(),
    {
        self.dirty = true;
    }

    /// The sync trigger reads and clears the signal in one step: a sync pass
    /// runs exactly when the returned value is true.
    pub fn take(&mut self) -> (was: bool)
        ensures
            was == old(self).is_dirty(),
            !final(self).is_dirty(),
    {
        let was = self.dirty;
        self.dirty = false;
        was
    }
}

} // verus!
