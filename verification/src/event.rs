//! Change events: the notifications the platform backend produces, reduced
//! to the shape the invalidation dispatcher consumes.

use vstd::prelude::*;

verus! {

/// A debounced filesystem change notification, consumed exactly once by the
/// invalidation dispatcher.
#[derive(Clone, Debug)]
pub enum ChangeEvent {
    /// A file or directory appeared at the path.
    Created(String),
    /// The file at the path was written to.
    Written(String),
    /// The file or directory at the path was removed.
    Removed(String),
    /// The entry was moved; the first path is the source, the second the
    /// destination.
    Renamed(String, String),
    /// The backend reported a failure, described by the payload.
    Error(String),
}

/// The cache key, if any, that the event obliges the dispatcher to
/// invalidate: the affected path for a creation, write or removal, the
/// destination path for a rename, and nothing for an error report. An
/// invalidation of a key that is not cached is a harmless no-op, so the
/// creation and rename cases only take effect when the path happens to
/// match a cached key exactly.
pub open spec fn invalidation_target(e: ChangeEvent) -> Option<Seq<char>> {
    match e {
        ChangeEvent::Created(p) => Some(p@),
        ChangeEvent::Written(p) => Some(p@),
        ChangeEvent::Removed(p) => Some(p@),
        ChangeEvent::Renamed(_, to) => Some(to@),
        ChangeEvent::Error(_) => None,
    }
}

impl ChangeEvent {
    /// The path this event obliges the dispatcher to invalidate, if any.
    pub fn target_path(&self) -> (r: Option<&String>)
        ensures
            match r {
                Some(p) => invalidation_target(*self) == Some(p@),
                None => invalidation_target(*self) is None,
            },
    {
        match self {
            ChangeEvent::Created(p) => Some(p),
            ChangeEvent::Written(p) => Some(p),
            ChangeEvent::Removed(p) => Some(p),
            ChangeEvent::Renamed(_, to) => Some(to),
            ChangeEvent::Error(_) => None,
        }
    }
}

} // verus!
