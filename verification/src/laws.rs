use vstd::prelude::*;
use vstd::seq_lib::lemma_multiset_commutative;

use crate::cell::Slock;
use crate::hook::SlockHook;
use crate::state::CellModel;

verus! {

/// How one completed write critical section ended: its mutation step either
/// produced a replacement value, or was skipped because its time budget
/// elapsed.
pub enum WriteOutcome<T> {
    Done(T),
    Lapsed,
}

/// The model transition of one completed write critical section.
pub open spec fn apply_write<T>(m: CellModel<T>, ev: WriteOutcome<T>) -> CellModel<T> {
    match ev {
        WriteOutcome::Done(v) => m.after_set(v),
        WriteOutcome::Lapsed => m.after_elapsed(),
    }
}

/// A run of completed write critical sections, oldest first.  Writers to one
/// cell are totally ordered by the exclusive lock, so any history of a cell
/// is such a run.
pub open spec fn apply_writes<T>(m: CellModel<T>, evs: Seq<WriteOutcome<T>>) -> CellModel<T>
    decreases evs.len(),
{
    if evs.len() == 0 {
        m
    } else {
        apply_writes(apply_write(m, evs[0]), evs.drop_first())
    }
}

/// A run of successful mutations writing the given values, oldest first.
pub open spec fn apply_sets<T>(m: CellModel<T>, vs: Seq<T>) -> CellModel<T>
    decreases vs.len(),
{
    if vs.len() == 0 {
        m
    } else {
        apply_sets(m.after_set(vs[0]), vs.drop_first())
    }
}

/// A run of mutations each incrementing an integer cell by one.
pub open spec fn apply_increments(m: CellModel<u64>, n: nat) -> CellModel<u64>
    decreases n,
{
    if n == 0 {
        m
    } else {
        apply_increments(m.after_set((m.value + 1) as u64), (n - 1) as nat)
    }
}

/// A run of mutations each appending one of `items`, in order, to a
/// sequence-valued cell.
pub open spec fn apply_appends<T>(m: CellModel<Seq<T>>, items: Seq<T>) -> CellModel<Seq<T>>
    decreases items.len(),
{
    if items.len() == 0 {
        m
    } else {
        apply_appends(m.after_set(m.value.push(items[0])), items.drop_first())
    }
}

/// Monotonic-count law: every completed write critical section bumps the
/// version by exactly one, whether its mutation step produced a value or its
/// time budget elapsed.  After any run of K completed writes the version is
/// the initial version plus K, and whether a hook is installed is untouched
/// by writes.
pub proof fn lemma_version_counts_every_write<T>(m: CellModel<T>, evs: Seq<WriteOutcome<T>>)
    requires
        m.version + evs.len() <= u64::MAX,
    ensures
        apply_writes(m, evs).version == m.version + evs.len(),
        apply_writes(m, evs).hooked == m.hooked,
    decreases evs.len(),
{
    if evs.len() > 0 {
        lemma_version_counts_every_write(apply_write(m, evs[0]), evs.drop_first());
    }
}

/// Serialization law: the exclusive lock totally orders mutations, so N
/// increments of an integer cell — in whatever order the write critical
/// sections were granted — leave the cell at its initial value plus N, and
/// its version greater by N.
pub proof fn lemma_increments_serialize(m: CellModel<u64>, n: nat)
    requires
        m.value + n <= u64::MAX,
        m.version + n <= u64::MAX,
    ensures
        apply_increments(m, n).value == m.value + n,
        apply_increments(m, n).version == m.version + n,
    decreases n,
{
    if n > 0 {
        lemma_increments_serialize(m.after_set((m.value + 1) as u64), (n - 1) as nat);
    }
}

/// Notification law: with a hook installed, a run of M successful mutations
/// notifies the hook exactly M times, each time with the value that mutation
/// wrote — the notification history grows by exactly the written values, in
/// write order.
pub proof fn lemma_hook_sees_every_set<T>(m: CellModel<T>, vs: Seq<T>)
    requires
        m.hooked,
    ensures
        apply_sets(m, vs).notes == m.notes + vs,
        apply_sets(m, vs).notes.len() == m.notes.len() + vs.len(),
    decreases vs.len(),
{
    if vs.len() == 0 {
        assert(apply_sets(m, vs).notes =~= m.notes + vs);
    } else {
        lemma_hook_sees_every_set(m.after_set(vs[0]), vs.drop_first());
        assert(m.notes.push(vs[0]) + vs.drop_first() =~= m.notes + vs);
    }
}

/// Sequence law: appending N items leaves the cell holding its old sequence
/// followed by the appended items — nothing is lost, nothing else appears.
pub proof fn lemma_appends_keep_every_item<T>(m: CellModel<Seq<T>>, items: Seq<T>)
    ensures
        apply_appends(m, items).value == m.value + items,
        apply_appends(m, items).value.len() == m.value.len() + items.len(),
    decreases items.len(),
{
    if items.len() == 0 {
        assert(apply_appends(m, items).value =~= m.value + items);
    } else {
        lemma_appends_keep_every_item(m.after_set(m.value.push(items[0])), items.drop_first());
        assert(m.value.push(items[0]) + items.drop_first() =~= m.value + items);
    }
}

/// Sequence law, concurrent reading: when N appends race, the lock
/// serializes them in some scheduling order; whatever that order was, the
/// final sequence holds exactly the old items and the appended items — as a
/// multiset, the outcome does not depend on the order.
pub proof fn lemma_append_order_immaterial<T>(
    m: CellModel<Seq<T>>,
    items1: Seq<T>,
    items2: Seq<T>,
)
    requires
        items1.to_multiset() == items2.to_multiset(),
    ensures
        apply_appends(m, items1).value.to_multiset() == apply_appends(
            m,
            items2,
        ).value.to_multiset(),
{
    lemma_appends_keep_every_item(m, items1);
    lemma_appends_keep_every_item(m, items2);
    lemma_multiset_commutative(m.value, items1);
    lemma_multiset_commutative(m.value, items2);
}

/// A vector-valued cell model read at the view level: version, hook flag
/// and history positions are unchanged, and every vector is read as the
/// sequence it holds.
pub open spec fn vec_model<T>(m: CellModel<Vec<T>>) -> CellModel<Seq<T>> {
    CellModel {
        version: m.version,
        value: m.value@,
        hooked: m.hooked,
        notes: m.notes.map_values(|v: Vec<T>| v@),
    }
}

/// The bridge from vector cells to the sequence laws: writing a vector
/// steps the view-level model exactly as `after_set` steps the sequence
/// model.  `push`'s contract says each append writes `old vector + item`,
/// so through this bridge the append laws above speak of the vector cells
/// the library exposes.
pub proof fn lemma_vec_set_is_seq_set<T>(m: CellModel<Vec<T>>, new_value: Vec<T>)
    ensures
        vec_model(m.after_set(new_value)) == vec_model(m).after_set(new_value@),
{
    assert(vec_model(m.after_set(new_value)) =~= vec_model(m).after_set(new_value@));
}

/// The same bridge for a write whose mutation step lapsed.
pub proof fn lemma_vec_elapsed_is_seq_elapsed<T>(m: CellModel<Vec<T>>)
    ensures
        vec_model(m.after_elapsed()) == vec_model(m).after_elapsed(),
{
    assert(vec_model(m.after_elapsed()) =~= vec_model(m).after_elapsed());
}

/// Keyed-map law: inserting a fresh cell under a previously absent key
/// creates exactly one new entry — the key becomes present and maps to that
/// cell, the map grows by one, and every other key's entry is untouched.
pub proof fn lemma_upsert_creates_one_entry<V, Wi: SlockHook<V>>(
    m: Map<u64, Slock<V, Wi>>,
    key: u64,
    cell: Slock<V, Wi>,
)
    requires
        !m.contains_key(key),
        m.dom().finite(),
    ensures
        m.insert(key, cell).contains_key(key),
        m.insert(key, cell)[key] == cell,
        m.insert(key, cell).dom() =~= m.dom().insert(key),
        m.insert(key, cell).len() == m.len() + 1,
        forall|k: u64| k != key ==> (m.insert(key, cell).contains_key(k) <==> m.contains_key(k)),
        forall|k: u64|
            k != key && m.contains_key(k) ==> m.insert(key, cell)[k] == m[k],
{
    broadcast use vstd::set::axiom_set_insert_len;

    assert(m.insert(key, cell).dom() =~= m.dom().insert(key));
}

} // verus!
