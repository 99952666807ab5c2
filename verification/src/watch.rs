//! Watch subscriber: the single registration authority for filesystem
//! paths of interest. It encapsulates the platform watch handle, tracks the
//! set of registered paths so that repeated registrations stay idempotent,
//! and surfaces registration failures as structured errors instead of
//! aborting.

use vstd::prelude::*;

verus! {

use vstd::hash_set::StringHashSet;

/// A failed watch registration. Surfaced to the caller, who decides
/// whether to skip, retry or abort; a failure here means the invalidation
/// guarantee cannot be established for that path.
#[derive(Clone, Debug)]
pub enum WatchError {
    /// The path to be registered does not exist.
    PathNotFound,
    /// The backend was asked about a registration it does not hold.
    WatchNotFound,
    /// Any other backend failure, described by its message.
    Backend(String),
}

/// The platform watcher that monitors registered paths and delivers
/// debounced change notifications on its channel.
#[verifier::external_type_specification]
#[verifier::external_body]
pub struct ExRecommendedWatcher(notify::RecommendedWatcher);

/// Relies on notify::Watcher::watch on notify::RecommendedWatcher: asks the
/// platform backend to monitor the path, and everything below it,
/// recursively. Success depends on the state of the filesystem (the path
/// may not exist, permission may be denied), so nothing is promised of the
/// outcome; the backend's error is carried over into the library's error
/// type, one variant each.
#[verifier::external_body]
fn backend_watch(w: &mut notify::RecommendedWatcher, path: &str) -> (r: Result<(), WatchError>) {
    match notify::Watcher::watch(w, path, notify::RecursiveMode::Recursive) {
        Ok(()) => Ok(()),
        Err(notify::Error::PathNotFound) => Err(WatchError::PathNotFound),
        Err(notify::Error::WatchNotFound) => Err(WatchError::WatchNotFound),
        Err(notify::Error::Generic(m)) => Err(WatchError::Backend(m)),
        Err(notify::Error::Io(e)) => Err(WatchError::Backend(format!("{}", e))),
    }
}

/// The registration authority. The raw watch handle never leaves this
/// struct; callers go through `watch`, which serializes registrations by
/// exclusive access.
pub struct WatchSubscriber {
    backend: Option<notify::RecommendedWatcher>,
    registered: StringHashSet,
}

impl WatchSubscriber {
    /// The set of paths registered so far.
    pub closed spec fn registered_paths(&self) -> Set<Seq<char>> {
        self.registered@
    }

    /// Whether a platform backend is attached. Without one, registrations
    /// are recorded locally and nothing is monitored: change events are
    /// then delivered by the caller.
    pub closed spec fn has_backend(&self) -> bool {
        self.backend is Some
    }

    /// A subscriber with no platform backend, for callers that deliver
    /// change events themselves.
    pub fn new() -> (s: WatchSubscriber)
        ensures
            s.registered_paths() == Set::<Seq<char>>::empty(),
            !s.has_backend(),
    {
        WatchSubscriber { backend: None, registered: StringHashSet::new() }
    }

    /// A subscriber that registers paths with the given platform watcher.
    pub fn with_backend(w: notify::RecommendedWatcher) -> (s: WatchSubscriber)
        ensures
            s.registered_paths() == Set::<Seq<char>>::empty(),
            s.has_backend(),
    {
        WatchSubscriber { backend: Some(w), registered: StringHashSet::new() }
    }

    /// Whether `path` has been registered.
    pub fn is_watched(&self, path: &str) -> (b: bool)
        ensures
            b == self.registered_paths().contains(path@),
    {
        self.registered.contains(path)
    }

    /// Idempotently registers `path`, and everything below it, with the
    /// notification backend. Registering an already-registered path is
    /// recognized as redundant: it succeeds without touching the backend.
    /// A fresh registration succeeds unless the backend refuses it; on
    /// failure nothing is recorded, and the error says why.
    pub fn watch(&mut self, path: &str) -> (r: Result<(), WatchError>)
        ensures
            final(self).has_backend() == old(self).has_backend(),
            r is Ok ==> final(self).registered_paths()
                == old(self).registered_paths().insert(path@),
            r is Err ==> final(self).registered_paths() == old(self).registered_paths(),
            old(self).registered_paths().contains(path@) ==> r is Ok
                && final(self).registered_paths() == old(self).registered_paths(),
            !old(self).has_backend() ==> r is Ok,
            r is Err ==> old(self).has_backend()
                && !old(self).registered_paths().contains(path@),
    {
        if self.registered.contains(path) {
            proof {
                assert(old(self).registered_paths().insert(path@)
                    =~= old(self).registered_paths());
            }
            return Ok(());
        }
        let result = match self.backend.as_mut() {
            Some(w) => backend_watch(w, path),
            None => Ok(()),
        };
        match result {
            Ok(()) => {
                self.registered.insert(path.to_owned());
                Ok(())
            },
            Err(e) => Err(e),
        }
    }
}

} // verus!
