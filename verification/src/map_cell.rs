use std::collections::HashMap;

use vstd::prelude::*;

use crate::cell::Slock;
use crate::hook::NoHook;
use crate::hook::SlockHook;
use crate::state::CellModel;
use crate::state::CellState;
use crate::state::hook_notified;

verus! {

/// A keyed family of cells: one guarded cell per key, behind one guarded
/// map.  Mutations of different keys contend only for their own inner cell.
pub type SlockMap<V> = Slock<HashMap<u64, Slock<V, NoHook>>, NoHook>;

/// What one [`Slock::insert`] call did, as the states its critical sections
/// observed.
///
/// `Updated` means the lookup section saw the key present: `cell` is the
/// very entry the observed map held, and that inner cell went through one
/// write critical section; on this path the call opens no write section of
/// the outer map at all.  `Inserted` means the lookup section saw the key
/// absent: a fresh cell holding the setter's first value was created, and
/// one write critical section of the outer map added it under the key.  The
/// lookup and the outer write are two separate critical sections: when two
/// insertions of one previously absent key race, both can take the
/// `Inserted` path and the later write wins.
#[verifier::reject_recursive_types(V)]
#[verifier::reject_recursive_types(Wi)]
#[verifier::reject_recursive_types(Wo)]
pub enum UpsertReport<V, Wi: SlockHook<V>, Wo: SlockHook<HashMap<u64, Slock<V, Wi>>>> {
    Updated {
        seen: CellState<HashMap<u64, Slock<V, Wi>>, Wo>,
        cell: Slock<V, Wi>,
        pre: CellState<V, Wi>,
        post: CellState<V, Wi>,
    },
    Inserted {
        seen: CellState<HashMap<u64, Slock<V, Wi>>, Wo>,
        map_pre: CellState<HashMap<u64, Slock<V, Wi>>, Wo>,
        map_post: CellState<HashMap<u64, Slock<V, Wi>>, Wo>,
        cell: Slock<V, Wi>,
        first: V,
    },
}

impl<V, Wi: SlockHook<V>, Wo: SlockHook<HashMap<u64, Slock<V, Wi>>>> Slock<
    HashMap<u64, Slock<V, Wi>>,
    Wo,
> {
    /// Creates a map-valued cell holding no keys.
    pub fn new_map() -> (s: Self)
        ensures
            s.initial().version == 0,
            !s.initial().hooked,
            s.initial().value@ == Map::<u64, Slock<V, Wi>>::empty(),
    {
        Slock::new(HashMap::new())
    }

    /// Looks `key` up inside a shared critical section — a pure read: no
    /// section writes, nobody is notified, no entry is created.  The result
    /// is `Some` exactly when the observed map held the key, and the handle
    /// returned aliases exactly the entry it held there.
    pub fn from_key(&self, key: u64) -> (r: (
        Option<Slock<V, Wi>>,
        Ghost<CellState<HashMap<u64, Slock<V, Wi>>, Wo>>,
    ))
        ensures
            r.1@.intact(),
            r.0 is Some <==> r.1@.model().value@.contains_key(key),
            r.0 matches Some(c) ==> c == r.1@.model().value@[key],
    {
        proof {
            use_type_invariant(self);
        }
        let handle = self.lock.acquire_read();
        let ghost obs = handle.view();
        let found = match handle.borrow().borrow_value().get(&key) {
            Some(cell) => Some(cell.split()),
            None => None,
        };
        handle.release_read();
        (found, Ghost(obs))
    }

    /// Inserts or updates the value under `key`.
    ///
    /// If the lookup section sees the key, the entry's inner cell goes
    /// through one write critical section replacing its value `v` by
    /// `setter(Some(v))`.  If it sees the key absent, a fresh cell holding
    /// `setter(None)` is created and one write critical section of the
    /// outer map adds it under `key`.  The lookup and the outer write are
    /// separate sections, so two racing insertions of one absent key can
    /// both create a cell, and the later outer write silently wins.
    /// `setter` must be callable on every `Option<V>`.
    pub fn insert<F: FnOnce(Option<V>) -> V>(&self, key: u64, setter: F) -> (r: Ghost<
        UpsertReport<V, Wi, Wo>,
    >)
        requires
            forall|ov: Option<V>| call_requires(setter, (ov,)),
        ensures
            match r@ {
                UpsertReport::Updated { seen, cell, pre, post } => {
                    &&& seen.intact() && pre.intact() && post.intact()
                    &&& seen.model().value@.contains_key(key)
                    &&& cell == seen.model().value@[key]
                    &&& pre.model().version < u64::MAX ==> {
                        &&& call_ensures(setter, (Some(pre.model().value),), post.model().value)
                        &&& post.model() == pre.model().after_set(post.model().value)
                        &&& hook_notified(pre.hook_state(), post.hook_state(), post.model().value)
                    }
                    &&& pre.model().version == u64::MAX ==> post == pre
                },
                UpsertReport::Inserted { seen, map_pre, map_post, cell, first } => {
                    &&& seen.intact() && map_pre.intact() && map_post.intact()
                    &&& !seen.model().value@.contains_key(key)
                    &&& call_ensures(setter, (None::<V>,), first)
                    &&& cell.initial() == CellModel::init(first)
                    &&& map_pre.model().version < u64::MAX ==> {
                        &&& map_post.model() == map_pre.model().after_set(map_post.model().value)
                        &&& map_post.model().value@ == map_pre.model().value@.insert(key, cell)
                        &&& hook_notified(
                            map_pre.hook_state(),
                            map_post.hook_state(),
                            map_post.model().value,
                        )
                    }
                    &&& map_pre.model().version == u64::MAX ==> map_post == map_pre
                },
            },
    {
        let (found, seen) = self.from_key(key);
        match found {
            Some(found_cell) => {
                let g = |v: V| -> (nv: V)
                    ensures
                        call_ensures(setter, (Some(v),), nv),
                    {
                        setter(Some(v))
                    };
                let ghost entry = found_cell;
                let inner = found_cell.set(g);
                Ghost(
                    UpsertReport::Updated {
                        seen: seen@,
                        cell: entry,
                        pre: inner@.0,
                        post: inner@.1,
                    },
                )
            },
            None => {
                let first = setter(None);
                let ghost first_val = first;
                let fresh: Slock<V, Wi> = Slock::new(first);
                let ghost fresh_cell = fresh;
                let h = |m: HashMap<u64, Slock<V, Wi>>| -> (m2: HashMap<u64, Slock<V, Wi>>)
                    ensures
                        m2@ == m@.insert(key, fresh_cell),
                    {
                        let mut m2 = m;
                        m2.insert(key, fresh);
                        m2
                    };
                let outer = self.set(h);
                Ghost(
                    UpsertReport::Inserted {
                        seen: seen@,
                        map_pre: outer@.0,
                        map_post: outer@.1,
                        cell: fresh_cell,
                        first: first_val,
                    },
                )
            },
        }
    }
}

} // verus!
