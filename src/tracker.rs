use std::ops::{Deref, DerefMut};
use vstd::prelude::*;
use vstd::std_specs::cmp::PartialEqSpec;

use crate::sentinel::{MoveMutSentinel, MoveRelMutSentinel};

verus! {

/// A value together with a sentinel that notices both writes through the
/// tracker and moves of the tracker.
///
/// Reading goes through `Deref` and leaves the state alone; every `DerefMut`
/// makes the tracker dirty. Only a holder of a `K` can mark it clean.
pub struct MoveMutTracker<T, K> {
    value: T,
    sentinel: MoveMutSentinel<K>,
}

impl<T, K> MoveMutTracker<T, K> {
    /// The tracked value.
    pub closed spec fn value(&self) -> T {
        self.value
    }

    /// The state of the tracker's sentinel.
    pub closed spec fn sentinel(&self) -> MoveMutSentinel<K> {
        self.sentinel
    }

    /// Wraps `value`; the new tracker is dirty.
    pub fn new(value: T) -> (r: Self)
        ensures
            r.value() == value,
            r.sentinel() == MoveMutSentinel::<K>::fresh(),
            r.sentinel().anchor() is None,
    {
        MoveMutTracker { value, sentinel: MoveMutSentinel::mutated() }
    }

    /// Whether the value was written, or the tracker moved, since it was last
    /// marked clean.
    pub fn was_moved_or_mutated(this: &Self) -> (r: bool)
        ensures
            this.sentinel().anchor() is None ==> r,
    {
        this.sentinel.was_moved_or_mutated()
    }

    /// Marks the tracker clean where it lives now.
    pub fn set_unmutated(this: &mut Self, key: K)
        ensures
            final(this).value() == old(this).value(),
            final(this).sentinel().anchor() is Some,
    {
        this.sentinel.set_unmutated(key);
    }

    /// The same tracker, cleared from now on by a token of type `NK`.
    pub fn change_key<NK>(this: Self) -> (r: MoveMutTracker<T, NK>)
        ensures
            r.value() == this.value(),
            r.sentinel().anchor() == this.sentinel().anchor(),
    {
        MoveMutTracker { value: this.value, sentinel: this.sentinel.change_key() }
    }
}

impl<T, K> Deref for MoveMutTracker<T, K> {
    type Target = T;

    fn deref(&self) -> (r: &T)
        ensures
            *r == self.value(),
    {
        &self.value
    }
}

impl<T, K> DerefMut for MoveMutTracker<T, K> {
    fn deref_mut(&mut self) -> (r: &mut T)
        ensures
            *r == old(self).value(),
            final(self).value() == *final(r),
            final(self).sentinel().anchor() is None,
    {
        self.sentinel.set_mutated();
        &mut self.value
    }
}

impl<T, K> From<T> for MoveMutTracker<T, K> {
    /// The same as `new`: the tracker holds `value` and is dirty.
    fn from(value: T) -> (r: Self)
        ensures
            r.value() == value,
            r.sentinel().anchor() is None,
    {
        MoveMutTracker::new(value)
    }
}

impl<T, K> vstd::std_specs::convert::FromSpecImpl<T> for MoveMutTracker<T, K> {
    open spec fn obeys_from_spec() -> bool {
        true
    }

    closed spec fn from_spec(value: T) -> Self {
        MoveMutTracker { value, sentinel: MoveMutSentinel::fresh() }
    }
}

impl<T: Clone, K> Clone for MoveMutTracker<T, K> {
    /// A copy of the value and of the recorded address; the copy lives
    /// elsewhere, so it reports dirty.
    fn clone(&self) -> (r: Self)
        ensures
            cloned(self.value(), r.value()),
            r.sentinel().anchor() == self.sentinel().anchor(),
    {
        MoveMutTracker { value: self.value.clone(), sentinel: self.sentinel.clone() }
    }

    /// Overwriting the value is a write: the tracker becomes dirty.
    fn clone_from(&mut self, source: &Self)
        ensures
            cloned(source.value(), final(self).value()),
            final(self).sentinel().anchor() is None,
    {
        self.sentinel.set_mutated();
        self.value = source.value.clone();
    }
}

/// A value together with a sentinel that notices writes through the tracker
/// and moves of the tracker apart from the key it is paired with.
///
/// Meant to sit beside its key in one record: moving the whole record keeps
/// the tracker clean, while swapping the tracker into another record, or
/// changing the key, makes it dirty. Every `DerefMut` makes it dirty.
pub struct MoveRelMutTracker<T, K: PartialEq + Copy> {
    value: T,
    sentinel: MoveRelMutSentinel<K>,
}

impl<T, K: PartialEq + Copy> MoveRelMutTracker<T, K> {
    /// The tracked value.
    pub closed spec fn value(&self) -> T {
        self.value
    }

    /// The state of the tracker's sentinel.
    pub closed spec fn sentinel(&self) -> MoveRelMutSentinel<K> {
        self.sentinel
    }

    /// Wraps `value`; the new tracker is dirty for every key.
    pub fn new(value: T) -> (r: Self)
        ensures
            r.value() == value,
            r.sentinel() == MoveRelMutSentinel::<K>::fresh(),
            r.sentinel().pairing() is None,
    {
        MoveRelMutTracker { value, sentinel: MoveRelMutSentinel::mutated() }
    }

    /// Whether the value was written, or the tracker moved apart from `key`,
    /// since it was last marked clean.
    pub fn was_moved_or_mutated(this: &Self, key: &K) -> (r: bool)
        ensures
            this.sentinel().pairing() is None ==> r,
            K::obeys_eq_spec() && this.sentinel().recorded_other_than(*key) ==> r,
    {
        this.sentinel.was_moved_or_mutated(key)
    }

    /// Marks the tracker clean with respect to `key`, where both live now.
    pub fn set_unmutated(this: &mut Self, key: &K)
        ensures
            final(this).value() == old(this).value(),
            final(this).sentinel().pairing() matches Some((_, k)) && k == *key,
    {
        this.sentinel.set_unmutated(key);
    }
}

impl<T, K: PartialEq + Copy> Deref for MoveRelMutTracker<T, K> {
    type Target = T;

    fn deref(&self) -> (r: &T)
        ensures
            *r == self.value(),
    {
        &self.value
    }
}

impl<T, K: PartialEq + Copy> DerefMut for MoveRelMutTracker<T, K> {
    fn deref_mut(&mut self) -> (r: &mut T)
        ensures
            *r == old(self).value(),
            final(self).value() == *final(r),
            final(self).sentinel().pairing() is None,
    {
        self.sentinel.set_mutated();
        &mut self.value
    }
}

impl<T: Clone, K: PartialEq + Copy> Clone for MoveRelMutTracker<T, K> {
    /// A copy of the value and of the sentinel's record.
    fn clone(&self) -> (r: Self)
        ensures
            cloned(self.value(), r.value()),
            r.sentinel().pairing() == self.sentinel().pairing(),
    {
        MoveRelMutTracker { value: self.value.clone(), sentinel: self.sentinel.clone() }
    }

    /// Overwriting the value is a write: the tracker becomes dirty.
    fn clone_from(&mut self, source: &Self)
        ensures
            cloned(source.value(), final(self).value()),
            final(self).sentinel().pairing() is None,
    {
        self.sentinel.set_mutated();
        self.value = source.value.clone();
    }
}

} // verus!
