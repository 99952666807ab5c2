//! The laws the cache obeys, stated over the same spec functions that the
//! engine's and dispatcher's contracts use and proved once and for all.

use vstd::prelude::*;

verus! {

use crate::dispatch::apply_target;
use crate::dispatch::dispatch_spec;
use crate::dispatch::dispatch_seq_spec;
use crate::engine::default_contents;
use crate::event::ChangeEvent;
use crate::event::invalidation_target;

/// Idempotent re-read: whatever a first read of `p` leaves in the cache —
/// a hit leaves it untouched, a miss stores what the fetch resolved to —
/// the cache afterwards holds `p` with the value that read returned. A
/// second read with no intervening invalidation is therefore a hit by the
/// engine's contract: it returns the same value and never consults the
/// filesystem collaborator again.
pub proof fn lemma_idempotent_reread(
    m: Map<Seq<char>, Seq<char>>,
    p: Seq<char>,
    fetched: Option<Seq<char>>,
)
    ensures
        ({
            let after_first = if m.contains_key(p) {
                m
            } else {
                m.insert(p, default_contents(fetched))
            };
            let returned = if m.contains_key(p) {
                m[p]
            } else {
                default_contents(fetched)
            };
            after_first.contains_key(p) && after_first[p] == returned
        }),
{
}

/// Invalidation correctness: once a value is cached for `p`, invalidating
/// `p` removes the entry, and the next completed read for `p` leaves the
/// newly fetched value — not the stale one — as the cached answer.
pub proof fn lemma_invalidation_correctness(
    m: Map<Seq<char>, Seq<char>>,
    p: Seq<char>,
    v1: Seq<char>,
    v2: Seq<char>,
)
    ensures
        ({
            let cached = m.insert(p, v1);
            let invalidated = apply_target(cached, Some(p));
            let reread = invalidated.insert(p, v2);
            !invalidated.contains_key(p) && reread.contains_key(p) && reread[p] == v2
        }),
{
}

/// No-op invalidation: invalidating a path that was never read leaves the
/// cache exactly as it was — no entry is created, nothing else is touched.
pub proof fn lemma_noop_invalidation(m: Map<Seq<char>, Seq<char>>, p: Seq<char>)
    requires
        !m.contains_key(p),
    ensures
        apply_target(m, Some(p)) == m,
{
    assert(m.remove(p) =~= m);
}

/// Dispatching an event never creates a cache entry: a path absent from
/// the cache stays absent.
pub proof fn lemma_dispatch_adds_nothing(
    m: Map<Seq<char>, Seq<char>>,
    e: ChangeEvent,
    p: Seq<char>,
)
    requires
        !m.contains_key(p),
    ensures
        !dispatch_spec(m, e).contains_key(p),
{
}

/// Debounce coalescing, seen from the cache: however many events the
/// debounce window lets through for a path, once the whole batch is
/// dispatched in arrival order the path is absent from the cache, so the
/// next read fetches the current on-disk contents — the last write wins.
pub proof fn lemma_batch_last_write_wins(
    m: Map<Seq<char>, Seq<char>>,
    events: Seq<ChangeEvent>,
    p: Seq<char>,
)
    requires
        exists|i: int|
            0 <= i < events.len() && invalidation_target(#[trigger] events[i]) == Some(p),
    ensures
        !dispatch_seq_spec(m, events).contains_key(p),
    decreases events.len(),
{
    let i = choose|i: int|
        0 <= i < events.len() && invalidation_target(#[trigger] events[i]) == Some(p);
    if i == events.len() - 1 {
        assert(events.last() == events[i]);
    } else {
        assert(events.drop_last()[i] == events[i]);
        lemma_batch_last_write_wins(m, events.drop_last(), p);
        lemma_dispatch_adds_nothing(dispatch_seq_spec(m, events.drop_last()), events.last(), p);
    }
}

/// Dispatch touches only the paths the events name: a cached entry whose
/// path no event in the batch targets survives the whole batch with its
/// value intact.
pub proof fn lemma_dispatch_preserves_untargeted(
    m: Map<Seq<char>, Seq<char>>,
    events: Seq<ChangeEvent>,
    q: Seq<char>,
)
    requires
        m.contains_key(q),
        forall|i: int|
            0 <= i < events.len() ==> invalidation_target(#[trigger] events[i]) != Some(q),
    ensures
        dispatch_seq_spec(m, events).contains_key(q) && dispatch_seq_spec(m, events)[q] == m[q],
    decreases events.len(),
{
    if events.len() > 0 {
        assert forall|i: int| 0 <= i < events.drop_last().len()
            implies invalidation_target(#[trigger] events.drop_last()[i]) != Some(q) by {
            assert(events.drop_last()[i] == events[i]);
        }
        lemma_dispatch_preserves_untargeted(m, events.drop_last(), q);
        assert(invalidation_target(events.last()) != Some(q));
    }
}

} // verus!
