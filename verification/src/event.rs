use vstd::prelude::*;

verus! {

/// The quiet period the change event source waits before emitting a logical
/// event, in milliseconds: its own internal coalescing of raw OS
/// notifications, distinct from the engine's dirty-signal debounce.
pub const QUIET_PERIOD_MILLIS: u64 = 100;

/// One logical filesystem change reported by the change event source, after
/// the OS notification layer's own quiet-period coalescing. Paths are
/// carried as plain strings.
pub enum WatchEvent {
    /// A file or directory was created.
    Created(String),
    /// A file's contents were written.
    Modified(String),
    /// A file or directory was removed.
    Removed(String),
    /// A rename; carries the destination path.
    RenamedTo(String),
    /// Permissions or timestamps changed.
    MetadataChanged(String),
    /// The watcher lost track and rescanned the tree; carries no path.
    ScanRestart,
    /// A transient watch error, possibly tied to a path.
    Error(Option<String>),
}

impl WatchEvent {
    /// The path the event is about, if its kind carries one: every kind but
    /// `ScanRestart` does, and `Error` only when the error is tied to a path.
    pub open spec fn spec_path(&self) -> Option<Seq<char>> {
        match self {
            WatchEvent::Created(p) => Some(p@),
            WatchEvent::Modified(p) => Some(p@),
            WatchEvent::Removed(p) => Some(p@),
            WatchEvent::RenamedTo(p) => Some(p@),
            WatchEvent::MetadataChanged(p) => Some(p@),
            WatchEvent::ScanRestart => None,
            WatchEvent::Error(Some(p)) => Some(p@),
            WatchEvent::Error(None) => None,
        }
    }

    /// Extracts the carried path.
    pub fn get_path(&self) -> (r: Option<&String>)
        ensures
            match r {
                Some(p) => self.spec_path() == Some(p@),
                None => self.spec_path() is None,
            },
    {
        match self {
            WatchEvent::Created(p) => Some(p),
            WatchEvent::Modified(p) => Some(p),
            WatchEvent::Removed(p) => Some(p),
            WatchEvent::RenamedTo(p) => Some(p),
            WatchEvent::MetadataChanged(p) => Some(p),
            WatchEvent::ScanRestart => None,
            WatchEvent::Error(Some(p)) => Some(p),
            WatchEvent::Error(None) => None,
        }
    }
}

/// What one blocking receive from the event source yields: an event, or the
/// end of the stream (the delivery channel was closed).
pub enum RecvOutcome {
    Received(WatchEvent),
    Closed,
}

} // verus!
