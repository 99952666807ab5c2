//! An incremental computation cache for file contents: a memoization table
//! keyed by filesystem path, coupled to a change-notification backend so that
//! memoized results are discarded when the underlying file changes on disk.
//!
//! The storage backend holds memoized values, the query engine wraps it with
//! the read/invalidate protocol, the watch subscriber registers paths with the
//! platform notification backend, and the invalidation dispatcher maps change
//! events to cache invalidations.

pub mod dispatch;
pub mod engine;
pub mod event;
pub mod laws;
pub mod storage;
pub mod watch;
