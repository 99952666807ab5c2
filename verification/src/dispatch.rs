//! Invalidation dispatcher: maps each change event to the cache key it
//! obliges the engine to invalidate, and calls the engine's invalidation
//! entry point. The dispatcher is idle between events; one call to
//! `dispatch` is one pass through the dispatching state and back.

use vstd::prelude::*;

verus! {

use crate::engine::QueryEngine;
use crate::event::ChangeEvent;
use crate::event::invalidation_target;

/// The cache after invalidating one target: removing the named key, or
/// nothing when the event names none.
pub open spec fn apply_target(
    m: Map<Seq<char>, Seq<char>>,
    t: Option<Seq<char>>,
) -> Map<Seq<char>, Seq<char>> {
    match t {
        Some(p) => m.remove(p),
        None => m,
    }
}

/// The cache after one event is dispatched.
pub open spec fn dispatch_spec(
    m: Map<Seq<char>, Seq<char>>,
    e: ChangeEvent,
) -> Map<Seq<char>, Seq<char>> {
    apply_target(m, invalidation_target(e))
}

/// The cache after a batch of events is dispatched in arrival order.
pub open spec fn dispatch_seq_spec(
    m: Map<Seq<char>, Seq<char>>,
    events: Seq<ChangeEvent>,
) -> Map<Seq<char>, Seq<char>>
    decreases events.len(),
{
    if events.len() == 0 {
        m
    } else {
        dispatch_spec(dispatch_seq_spec(m, events.drop_last()), events.last())
    }
}

/// Consumes one change event: invalidates the engine's entry for the
/// event's target, if it names one. An error event invalidates nothing;
/// its reason is handed back so the caller can report it.
pub fn dispatch(engine: &mut QueryEngine, event: &ChangeEvent) -> (r: Option<String>)
    ensures
        final(engine).cache() == dispatch_spec(old(engine).cache(), *event),
        final(engine).watched() == old(engine).watched(),
        final(engine).has_backend() == old(engine).has_backend(),
        match *event {
            ChangeEvent::Error(reason) => r matches Some(m) && m@ == reason@,
            _ => r is None,
        },
{
    match event.target_path() {
        Some(p) => {
            engine.did_change_file(p.as_str());
            None
        },
        None => match event {
            ChangeEvent::Error(reason) => Some(reason.clone()),
            _ => None,
        },
    }
}

/// Consumes a batch of events in arrival order, so that the final cache
/// state reflects the most recent event for each path.
pub fn dispatch_all(engine: &mut QueryEngine, events: &Vec<ChangeEvent>)
    ensures
        final(engine).cache() == dispatch_seq_spec(old(engine).cache(), events@),
        final(engine).watched() == old(engine).watched(),
        final(engine).has_backend() == old(engine).has_backend(),
{
    let ghost m0 = engine.cache();
    let ghost w0 = engine.watched();
    let ghost b0 = engine.has_backend();
    let mut i: usize = 0;
    while i < events.len()
        invariant
            i <= events.len(),
            engine.cache() == dispatch_seq_spec(m0, events@.take(i as int)),
            engine.watched() == w0,
            engine.has_backend() == b0,
        decreases events.len() - i,
    {
        let _ = dispatch(engine, &events[i]);
        proof {
            assert(events@.take(i as int + 1).drop_last() =~= events@.take(i as int));
            assert(events@.take(i as int + 1).last() == events@[i as int]);
        }
        i += 1;
    }
    proof {
        assert(events@.take(events@.len() as int) =~= events@);
    }
}

} // verus!
