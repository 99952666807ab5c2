use vfs_cache::engine::QueryEngine;
use vfs_cache::engine::ReadOutcome;
use vfs_cache::event::ChangeEvent;
use vfs_cache::dispatch::dispatch;
use vfs_cache::storage::Durability;
use vfs_cache::storage::Storage;

fn must_need_content(engine: &mut QueryEngine, path: &str) {
    match engine.read(path) {
        ReadOutcome::NeedsContent => (),
        ReadOutcome::Cached(v) => panic!("unexpected cache hit: {}", v),
        ReadOutcome::WatchFailed(_) => panic!("watch failed without a backend"),
    }
}

fn must_hit(engine: &mut QueryEngine, path: &str) -> String {
    match engine.read(path) {
        ReadOutcome::Cached(v) => v,
        ReadOutcome::NeedsContent => panic!("unexpected cache miss"),
        ReadOutcome::WatchFailed(_) => panic!("watch failed without a backend"),
    }
}

#[test]
fn idempotent_reread() {
    let mut engine = QueryEngine::new();
    must_need_content(&mut engine, "a.txt");
    let first = engine.complete_read("a.txt", Some(String::from("hello")));
    assert_eq!(first, "hello");
    let second = must_hit(&mut engine, "a.txt");
    assert_eq!(second, "hello");
    let third = must_hit(&mut engine, "a.txt");
    assert_eq!(second, third);
}

#[test]
fn missing_file_defaults_to_empty() {
    let mut engine = QueryEngine::new();
    must_need_content(&mut engine, "nonexistent.txt");
    let value = engine.complete_read("nonexistent.txt", None);
    assert_eq!(value, "");
    let again = must_hit(&mut engine, "nonexistent.txt");
    assert_eq!(again, "");
}

#[test]
fn overwrite_then_dispatch_returns_new_value() {
    let mut engine = QueryEngine::new();
    must_need_content(&mut engine, "a.txt");
    let v1 = engine.complete_read("a.txt", Some(String::from("hello")));
    assert_eq!(v1, "hello");
    assert_eq!(must_hit(&mut engine, "a.txt"), "hello");

    // An external process overwrites the file; the debounced event arrives.
    let report = dispatch(&mut engine, &ChangeEvent::Written(String::from("a.txt")));
    assert!(report.is_none());

    must_need_content(&mut engine, "a.txt");
    let v2 = engine.complete_read("a.txt", Some(String::from("world")));
    assert_eq!(v2, "world");
    assert_eq!(must_hit(&mut engine, "a.txt"), "world");
}

#[test]
fn noop_invalidation_creates_nothing() {
    let mut engine = QueryEngine::new();
    engine.did_change_file("never-read.txt");
    assert!(engine.cached_value("never-read.txt").is_none());
}

#[test]
fn invalidation_removes_only_that_entry() {
    let mut engine = QueryEngine::new();
    must_need_content(&mut engine, "a.txt");
    engine.complete_read("a.txt", Some(String::from("one")));
    must_need_content(&mut engine, "b.txt");
    engine.complete_read("b.txt", Some(String::from("two")));

    engine.did_change_file("a.txt");
    assert!(engine.cached_value("a.txt").is_none());
    assert_eq!(engine.cached_value("b.txt").unwrap(), "two");
}

#[test]
fn storage_store_and_get() {
    let mut storage = Storage::new();
    assert!(!storage.contains("k"));
    assert!(storage.get("k").is_none());
    storage.store(String::from("k"), String::from("v1"), Durability::Low);
    assert!(storage.contains("k"));
    assert_eq!(storage.get("k").unwrap(), "v1");
}

#[test]
fn storage_store_replaces_previous() {
    let mut storage = Storage::new();
    storage.store(String::from("k"), String::from("v1"), Durability::Low);
    storage.store(String::from("k"), String::from("v2"), Durability::High);
    assert_eq!(storage.get("k").unwrap(), "v2");
}

#[test]
fn storage_invalidate_is_noop_when_absent() {
    let mut storage = Storage::new();
    storage.store(String::from("k"), String::from("v"), Durability::Medium);
    storage.invalidate("other");
    assert_eq!(storage.get("k").unwrap(), "v");
    storage.invalidate("k");
    assert!(storage.get("k").is_none());
    assert!(!storage.contains("k"));
}
