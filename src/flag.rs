use std::marker::PhantomData;
use std::ops::{Deref, DerefMut};
use vstd::prelude::*;

verus! {

/// A value together with a dirty flag.
///
/// Reading goes through `Deref` and leaves the flag alone. Every `DerefMut`
/// sets the flag, whether or not the value then changes. Moves are not
/// noticed. The flag is cleared only by `reset`.
pub struct MutTracker<T> {
    value: T,
    dirty: bool,
}

impl<T> MutTracker<T> {
    /// The tracked value.
    pub closed spec fn value(&self) -> T {
        self.value
    }

    /// The dirty flag.
    pub closed spec fn dirty(&self) -> bool {
        self.dirty
    }

    /// The state of a tracker just made from `value`.
    pub closed spec fn fresh(value: T) -> Self {
        MutTracker { value, dirty: true }
    }

    /// A fresh tracker has its flag set.
    pub(crate) proof fn lemma_fresh_dirty(value: T)
        ensures
            Self::fresh(value).dirty(),
    {
    }

    /// Wraps `value`; the new tracker is dirty.
    pub fn new(value: T) -> (r: Self)
        ensures
            r == Self::fresh(value),
            r.value() == value,
            r.dirty(),
    {
        MutTracker { value, dirty: true }
    }

    /// Whether the value may have been written since the last `reset`.
    pub fn was_mutated(this: &Self) -> (r: bool)
        ensures
            r == this.dirty(),
    {
        this.dirty
    }

    /// Clears the flag. The caller vouches that it has dealt with the current
    /// value: nothing checks that, and code that trusts the flag relies on it.
    pub fn reset(this: &mut Self)
        ensures
            final(this).value() == old(this).value(),
            !final(this).dirty(),
    {
        this.dirty = false;
    }
}

impl<T> Deref for MutTracker<T> {
    type Target = T;

    fn deref(&self) -> (r: &T)
        ensures
            *r == self.value(),
    {
        &self.value
    }
}

impl<T> DerefMut for MutTracker<T> {
    fn deref_mut(&mut self) -> (r: &mut T)
        ensures
            *r == old(self).value(),
            final(self).value() == *final(r),
            final(self).dirty(),
    {
        self.dirty = true;
        &mut self.value
    }
}

/// A value together with a dirty flag that only a holder of a `K` can clear.
///
/// `K` is meant to be a type that only trusted code can name or build: the
/// token is checked by the compiler and holds no data.
pub struct KeyedMutTracker<T, K> {
    value: T,
    dirty: bool,
    _key: PhantomData<K>,
}

impl<T, K> KeyedMutTracker<T, K> {
    /// The tracked value.
    pub closed spec fn value(&self) -> T {
        self.value
    }

    /// The dirty flag.
    pub closed spec fn dirty(&self) -> bool {
        self.dirty
    }

    /// The state of a tracker just made from `value`.
    pub closed spec fn fresh(value: T) -> Self {
        KeyedMutTracker { value, dirty: true, _key: PhantomData }
    }

    /// A fresh tracker has its flag set.
    pub(crate) proof fn lemma_fresh_dirty(value: T)
        ensures
            Self::fresh(value).dirty(),
    {
    }

    /// Wraps `value`; the new tracker is dirty.
    pub fn new(value: T) -> (r: Self)
        ensures
            r == Self::fresh(value),
            r.value() == value,
            r.dirty(),
    {
        KeyedMutTracker { value, dirty: true, _key: PhantomData }
    }

    /// Whether the value may have been written since the last `reset`.
    pub fn was_mutated(this: &Self) -> (r: bool)
        ensures
            r == this.dirty(),
    {
        this.dirty
    }

    /// Clears the flag on presenting a `K`.
    pub fn reset(this: &mut Self, _key: K)
        ensures
            final(this).value() == old(this).value(),
            !final(this).dirty(),
    {
        this.dirty = false;
    }

    /// The same tracker, with its flag, cleared from now on by an `NK`.
    pub fn change_key<NK>(this: Self) -> (r: KeyedMutTracker<T, NK>)
        ensures
            r.value() == this.value(),
            r.dirty() == this.dirty(),
    {
        KeyedMutTracker { value: this.value, dirty: this.dirty, _key: PhantomData }
    }
}

impl<T, K> Deref for KeyedMutTracker<T, K> {
    type Target = T;

    fn deref(&self) -> (r: &T)
        ensures
            *r == self.value(),
    {
        &self.value
    }
}

impl<T, K> DerefMut for KeyedMutTracker<T, K> {
    fn deref_mut(&mut self) -> (r: &mut T)
        ensures
            *r == old(self).value(),
            final(self).value() == *final(r),
            final(self).dirty(),
    {
        self.dirty = true;
        &mut self.value
    }
}

} // verus!
