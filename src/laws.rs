use vstd::prelude::*;
use vstd::laws_eq::obeys_concrete_eq;

use crate::flag::{KeyedMutTracker, MutTracker};
use crate::sentinel::{offset_between, MoveMutSentinel, MoveRelMutSentinel};

verus! {

/// Every wrapper starts dirty, whatever the value and key types: a fresh
/// absolute sentinel is dirty wherever it lives, a fresh relative sentinel is
/// dirty for every key at every distance, and both dirty flags start set.
pub proof fn fresh_wrappers_are_dirty<T, K, R: PartialEq + Copy>(
    value: T,
    here: usize,
    anchor: usize,
    key_at: usize,
    key: R,
)
    ensures
        MoveMutSentinel::<K>::fresh().dirty_at(here),
        !MoveRelMutSentinel::<R>::fresh().paired_at(anchor, key_at),
        MoveRelMutSentinel::<R>::fresh().dirty_at(anchor, key_at, key),
        MutTracker::fresh(value).dirty(),
        KeyedMutTracker::<T, K>::fresh(value).dirty(),
{
    MoveMutSentinel::<K>::lemma_fresh_anchor();
    MoveRelMutSentinel::<R>::lemma_fresh_pairing();
    MutTracker::<T>::lemma_fresh_dirty(value);
    KeyedMutTracker::<T, K>::lemma_fresh_dirty(value);
}

/// An absolute sentinel marked clean at `here` stays clean there, and reports
/// dirty at every other address it is moved to.
pub proof fn clean_until_moved<K>(s: MoveMutSentinel<K>, here: usize, there: usize)
    requires
        s.anchor() == Some(here),
    ensures
        !s.dirty_at(here),
        there != here ==> s.dirty_at(there),
{
}

/// Two relative sentinels, each marked clean beside its own key, both report
/// dirty once swapped, whenever the two records differ in the distance from
/// key to sentinel or in the key itself.
pub proof fn swapped_sentinels_are_dirty<K: PartialEq + Copy>(
    a: MoveRelMutSentinel<K>,
    a_at: usize,
    a_key_at: usize,
    a_key: K,
    b: MoveRelMutSentinel<K>,
    b_at: usize,
    b_key_at: usize,
    b_key: K,
)
    requires
        obeys_concrete_eq::<K>(),
        a.pairing() == Some((offset_between(a_at, a_key_at), a_key)),
        b.pairing() == Some((offset_between(b_at, b_key_at), b_key)),
        offset_between(a_at, a_key_at) != offset_between(b_at, b_key_at) || a_key != b_key,
    ensures
        a.dirty_at(b_at, b_key_at, b_key),
        b.dirty_at(a_at, a_key_at, a_key),
{
    reveal(obeys_concrete_eq);
}

/// A relative sentinel marked clean beside its key stays clean when the
/// sentinel and the key are moved by the same distance, as when the record
/// holding both is moved.
pub proof fn moved_together_stays_clean<K: PartialEq + Copy>(
    s: MoveRelMutSentinel<K>,
    anchor: usize,
    key_at: usize,
    key: K,
    new_anchor: usize,
    new_key_at: usize,
)
    requires
        obeys_concrete_eq::<K>(),
        s.pairing() == Some((offset_between(anchor, key_at), key)),
        new_anchor - anchor == new_key_at - key_at,
    ensures
        s.paired_at(new_anchor, new_key_at),
        !s.dirty_at(new_anchor, new_key_at, key),
{
    reveal(obeys_concrete_eq);
}

} // verus!
