//! Storage backend: the raw key -> value memoization table, with a
//! durability tag on each entry. Pure storage, no policy: entries are
//! created by `store`, looked up by `get`, and removed by `invalidate`.

use vstd::prelude::*;

verus! {

use vstd::hash_map::StringHashMap;

/// How likely an entry's underlying input is to change. A hint to the
/// invalidation policy only, never a correctness requirement.
#[derive(Clone, Copy, Debug, PartialEq, Eq, Structural)]
pub enum Durability {
    /// The input may change at any time; revalidate eagerly.
    Low,
    /// The input changes occasionally.
    Medium,
    /// The input is effectively constant.
    High,
}

/// A memoized result together with its durability tag.
pub struct StoredValue {
    pub contents: String,
    pub durability: Durability,
}

/// The memoization table. Its abstract state is a map from key (the path,
/// as a sequence of characters) to the memoized contents.
pub struct Storage {
    table: StringHashMap<StoredValue>,
}

impl View for Storage {
    type V = Map<Seq<char>, Seq<char>>;

    closed spec fn view(&self) -> Map<Seq<char>, Seq<char>> {
        Map::new(
            |k: Seq<char>| self.table@.contains_key(k),
            |k: Seq<char>| self.table@[k].contents@,
        )
    }
}

impl Storage {
    /// The durability tag recorded for key `k`; meaningful only while the
    /// table holds an entry for `k`.
    pub closed spec fn durability_of(&self, k: Seq<char>) -> Durability {
        self.table@[k].durability
    }

    /// An empty table.
    pub fn new() -> (s: Storage)
        ensures
            s@ == Map::<Seq<char>, Seq<char>>::empty(),
    {
        let s = Storage { table: StringHashMap::new() };
        proof {
            assert(s@ =~= Map::<Seq<char>, Seq<char>>::empty());
        }
        s
    }

    /// Whether an entry for `key` is present.
    pub fn contains(&self, key: &str) -> (b: bool)
        ensures
            b == self@.contains_key(key@),
    {
        self.table.contains_key(key)
    }

    /// The memoized value for `key`, if present.
    pub fn get<'a>(&'a self, key: &str) -> (r: Option<&'a String>)
        ensures
            match r {
                Some(v) => self@.contains_key(key@) && v@ == self@[key@],
                None => !self@.contains_key(key@),
            },
    {
        match self.table.get(key) {
            Some(sv) => Some(&sv.contents),
            None => None,
        }
    }

    /// Stores `value` under `key` with the given durability, replacing any
    /// previous entry for `key`.
    pub fn store(&mut self, key: String, value: String, durability: Durability)
        ensures
            final(self)@ == old(self)@.insert(key@, value@),
            final(self).durability_of(key@) == durability,
    {
        let ghost gk: Seq<char> = key@;
        let ghost gv: Seq<char> = value@;
        self.table.insert(key, StoredValue { contents: value, durability });
        proof {
            assert(self@ =~= old(self)@.insert(gk, gv));
        }
    }

    /// Unconditionally removes the entry for `key`, if present; a silent
    /// no-op if absent. Never triggers recomputation: the next `get` for
    /// `key` simply misses.
    pub fn invalidate(&mut self, key: &str)
        ensures
            final(self)@ == old(self)@.remove(key@),
            !old(self)@.contains_key(key@) ==> final(self)@ == old(self)@,
    {
        self.table.remove(key);
        proof {
            assert(self@ =~= old(self)@.remove(key@));
            if !old(self)@.contains_key(key@) {
                assert(self@ =~= old(self)@);
            }
        }
    }
}

} // verus!
