//! Query engine: wraps the storage backend with the read/invalidate
//! protocol and keeps the dependency set in sync with what was actually
//! read, by registering every read path with the watch subscriber before
//! the lookup.
//!
//! The filesystem itself is an external collaborator, so a read that
//! misses the cache is a two-step exchange: `read` registers the watch and
//! reports `NeedsContent`, the caller fetches the file, and
//! `complete_read` memoizes whatever the fetch produced (the empty value
//! when the file was missing or unreadable).

use vstd::prelude::*;

verus! {

use crate::storage::Durability;
use crate::storage::Storage;
use crate::watch::WatchError;
use crate::watch::WatchSubscriber;

/// What one call to `read` produced.
pub enum ReadOutcome {
    /// The memoized value; the filesystem was not consulted.
    Cached(String),
    /// No entry is memoized: the caller must fetch the file and hand the
    /// result to `complete_read`.
    NeedsContent,
    /// The path could not be registered with the notification backend, so
    /// the invalidation guarantee cannot be established and nothing was
    /// cached.
    WatchFailed(WatchError),
}

/// What a read resolves to once the filesystem has answered: the fetched
/// contents, or the empty value when the file was missing or unreadable.
pub open spec fn default_contents(fetched: Option<Seq<char>>) -> Seq<char> {
    match fetched {
        Some(c) => c,
        None => Seq::empty(),
    }
}

/// The view of a fetch result handed to `complete_read`.
pub open spec fn fetched_view(fetched: Option<String>) -> Option<Seq<char>> {
    match fetched {
        Some(s) => Some(s@),
        None => None,
    }
}

/// The query engine: the storage backend plus the watch subscriber that
/// tracks which paths the cached results depend on.
pub struct QueryEngine {
    storage: Storage,
    subscriber: WatchSubscriber,
}

impl QueryEngine {
    /// The memoization table: path to memoized contents.
    pub closed spec fn cache(&self) -> Map<Seq<char>, Seq<char>> {
        self.storage@
    }

    /// The set of paths registered with the watch subscriber.
    pub closed spec fn watched(&self) -> Set<Seq<char>> {
        self.subscriber.registered_paths()
    }

    /// Whether a platform notification backend is attached.
    pub closed spec fn has_backend(&self) -> bool {
        self.subscriber.has_backend()
    }

    /// The durability recorded for a cached path; meaningful only while
    /// the path is cached.
    pub closed spec fn durability_of(&self, k: Seq<char>) -> Durability {
        self.storage.durability_of(k)
    }

    /// An engine with no platform backend: change events are delivered by
    /// the caller, through the invalidation dispatcher.
    pub fn new() -> (e: QueryEngine)
        ensures
            e.cache() == Map::<Seq<char>, Seq<char>>::empty(),
            e.watched() == Set::<Seq<char>>::empty(),
            !e.has_backend(),
    {
        QueryEngine { storage: Storage::new(), subscriber: WatchSubscriber::new() }
    }

    /// An engine whose reads register their paths with the given platform
    /// watcher.
    pub fn with_watcher(w: notify::RecommendedWatcher) -> (e: QueryEngine)
        ensures
            e.cache() == Map::<Seq<char>, Seq<char>>::empty(),
            e.watched() == Set::<Seq<char>>::empty(),
            e.has_backend(),
    {
        QueryEngine { storage: Storage::new(), subscriber: WatchSubscriber::with_backend(w) }
    }

    /// Ensures `path` is registered with the watch subscriber, without
    /// reading anything. Idempotent; the cache is untouched.
    pub fn watch(&mut self, path: &str) -> (r: Result<(), WatchError>)
        ensures
            final(self).cache() == old(self).cache(),
            final(self).has_backend() == old(self).has_backend(),
            r is Ok ==> final(self).watched() == old(self).watched().insert(path@),
            r is Err ==> final(self).watched() == old(self).watched(),
            old(self).watched().contains(path@) ==> r is Ok
                && final(self).watched() == old(self).watched(),
            !old(self).has_backend() ==> r is Ok,
            r is Err ==> old(self).has_backend() && !old(self).watched().contains(path@),
    {
        self.subscriber.watch(path)
    }

    /// The derived query over file contents. The path is registered with
    /// the watch subscriber first, so that a write racing with the first
    /// read is still observed by a later event; then the lookup runs
    /// against the storage backend. A hit returns the memoized value and
    /// touches nothing; a miss asks the caller to fetch the file and
    /// complete the read; a registration failure caches nothing.
    pub fn read(&mut self, path: &str) -> (r: ReadOutcome)
        ensures
            final(self).cache() == old(self).cache(),
            final(self).has_backend() == old(self).has_backend(),
            !(r is WatchFailed) ==> final(self).watched()
                == old(self).watched().insert(path@),
            r is WatchFailed ==> final(self).watched() == old(self).watched(),
            match r {
                ReadOutcome::Cached(v) => old(self).cache().contains_key(path@)
                    && v@ == old(self).cache()[path@],
                ReadOutcome::NeedsContent => !old(self).cache().contains_key(path@),
                ReadOutcome::WatchFailed(_) => old(self).has_backend()
                    && !old(self).watched().contains(path@),
            },
            !(r is WatchFailed) ==> ((r is Cached) <==> old(self).cache().contains_key(path@)),
            old(self).watched().contains(path@) || !old(self).has_backend()
                ==> !(r is WatchFailed),
    {
        match self.subscriber.watch(path) {
            Err(e) => ReadOutcome::WatchFailed(e),
            Ok(()) => match self.storage.get(path) {
                Some(v) => ReadOutcome::Cached(v.clone()),
                None => ReadOutcome::NeedsContent,
            },
        }
    }

    /// Completes a read that missed the cache: memoizes what the
    /// filesystem collaborator produced for `path`, substituting the empty
    /// value when the fetch failed (`None`), and returns the memoized
    /// value. The entry carries low durability: a file may change at any
    /// time. A read failure is recovered here, never propagated.
    pub fn complete_read(&mut self, path: &str, fetched: Option<String>) -> (v: String)
        ensures
            v@ == default_contents(fetched_view(fetched)),
            final(self).cache() == old(self).cache().insert(path@, v@),
            final(self).durability_of(path@) == Durability::Low,
            final(self).watched() == old(self).watched(),
            final(self).has_backend() == old(self).has_backend(),
            fetched is None ==> v@ == Seq::<char>::empty(),
    {
        let value = match fetched {
            Some(s) => s,
            None => String::new(),
        };
        let result = value.clone();
        self.storage.store(path.to_owned(), value, Durability::Low);
        result
    }

    /// The invalidation entry point: unconditionally drops the memoized
    /// entry for `path`, if any, so that the next read recomputes. A
    /// silent no-op for a path never read; never itself triggers
    /// recomputation.
    pub fn did_change_file(&mut self, path: &str)
        ensures
            final(self).cache() == old(self).cache().remove(path@),
            !old(self).cache().contains_key(path@) ==> final(self).cache() == old(self).cache(),
            final(self).watched() == old(self).watched(),
            final(self).has_backend() == old(self).has_backend(),
    {
        self.storage.invalidate(path);
    }

    /// The memoized value for `path`, if any, without registering
    /// anything.
    pub fn cached_value<'a>(&'a self, path: &str) -> (r: Option<&'a String>)
        ensures
            match r {
                Some(v) => self.cache().contains_key(path@) && v@ == self.cache()[path@],
                None => !self.cache().contains_key(path@),
            },
    {
        self.storage.get(path)
    }

    /// Whether `path` is registered with the watch subscriber.
    pub fn is_watched(&self, path: &str) -> (b: bool)
        ensures
            b == self.watched().contains(path@),
    {
        self.subscriber.is_watched(path)
    }
}

} // verus!
