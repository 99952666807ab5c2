use vfs_cache::engine::QueryEngine;
use vfs_cache::engine::ReadOutcome;
use vfs_cache::event::ChangeEvent;
use vfs_cache::dispatch::dispatch;
use vfs_cache::dispatch::dispatch_all;

fn prime(engine: &mut QueryEngine, path: &str, contents: &str) {
    match engine.read(path) {
        ReadOutcome::NeedsContent => (),
        _ => panic!("expected a miss while priming"),
    }
    engine.complete_read(path, Some(String::from(contents)));
}

#[test]
fn written_event_invalidates_exact_path() {
    let mut engine = QueryEngine::new();
    prime(&mut engine, "a.txt", "one");
    prime(&mut engine, "b.txt", "two");
    dispatch(&mut engine, &ChangeEvent::Written(String::from("a.txt")));
    assert!(engine.cached_value("a.txt").is_none());
    assert_eq!(engine.cached_value("b.txt").unwrap(), "two");
}

#[test]
fn removed_event_invalidates_and_next_read_defaults() {
    let mut engine = QueryEngine::new();
    prime(&mut engine, "a.txt", "one");
    dispatch(&mut engine, &ChangeEvent::Removed(String::from("a.txt")));
    assert!(engine.cached_value("a.txt").is_none());
    let value = engine.complete_read("a.txt", None);
    assert_eq!(value, "");
}

#[test]
fn created_event_touches_only_exact_cached_key() {
    let mut engine = QueryEngine::new();
    prime(&mut engine, "a.txt", "one");
    dispatch(&mut engine, &ChangeEvent::Created(String::from("fresh.txt")));
    assert_eq!(engine.cached_value("a.txt").unwrap(), "one");
    dispatch(&mut engine, &ChangeEvent::Created(String::from("a.txt")));
    assert!(engine.cached_value("a.txt").is_none());
}

#[test]
fn renamed_event_invalidates_destination() {
    let mut engine = QueryEngine::new();
    prime(&mut engine, "a.txt", "one");
    prime(&mut engine, "b.txt", "two");
    dispatch(
        &mut engine,
        &ChangeEvent::Renamed(String::from("a.txt"), String::from("b.txt")),
    );
    assert_eq!(engine.cached_value("a.txt").unwrap(), "one");
    assert!(engine.cached_value("b.txt").is_none());
}

#[test]
fn error_event_reports_reason_and_invalidates_nothing() {
    let mut engine = QueryEngine::new();
    prime(&mut engine, "a.txt", "one");
    let report = dispatch(&mut engine, &ChangeEvent::Error(String::from("backend died")));
    assert_eq!(report.unwrap(), "backend died");
    assert_eq!(engine.cached_value("a.txt").unwrap(), "one");
}

#[test]
fn batch_dispatch_last_write_wins() {
    let mut engine = QueryEngine::new();
    prime(&mut engine, "a.txt", "v0");
    let events = vec![
        ChangeEvent::Written(String::from("a.txt")),
        ChangeEvent::Written(String::from("a.txt")),
        ChangeEvent::Written(String::from("a.txt")),
    ];
    dispatch_all(&mut engine, &events);
    assert!(engine.cached_value("a.txt").is_none());
    let value = engine.complete_read("a.txt", Some(String::from("v3")));
    assert_eq!(value, "v3");
    match engine.read("a.txt") {
        ReadOutcome::Cached(v) => assert_eq!(v, "v3"),
        _ => panic!("expected the latest value to be cached"),
    }
}

#[test]
fn batch_dispatch_mixed_paths_in_order() {
    let mut engine = QueryEngine::new();
    prime(&mut engine, "a.txt", "one");
    prime(&mut engine, "b.txt", "two");
    prime(&mut engine, "c.txt", "three");
    let events = vec![
        ChangeEvent::Written(String::from("a.txt")),
        ChangeEvent::Error(String::from("transient")),
        ChangeEvent::Removed(String::from("c.txt")),
    ];
    dispatch_all(&mut engine, &events);
    assert!(engine.cached_value("a.txt").is_none());
    assert_eq!(engine.cached_value("b.txt").unwrap(), "two");
    assert!(engine.cached_value("c.txt").is_none());
}

#[test]
fn target_path_per_variant() {
    assert_eq!(
        ChangeEvent::Created(String::from("p")).target_path().unwrap(),
        "p"
    );
    assert_eq!(
        ChangeEvent::Written(String::from("p")).target_path().unwrap(),
        "p"
    );
    assert_eq!(
        ChangeEvent::Removed(String::from("p")).target_path().unwrap(),
        "p"
    );
    assert_eq!(
        ChangeEvent::Renamed(String::from("from"), String::from("to"))
            .target_path()
            .unwrap(),
        "to"
    );
    assert!(ChangeEvent::Error(String::from("why")).target_path().is_none());
}
