use std::marker::PhantomData;
use vstd::prelude::*;
use vstd::std_specs::cmp::PartialEqSpec;

use crate::location::location_of;

verus! {

/// The signed distance from the key's location to the sentinel's anchor.
pub open spec fn offset_between(anchor: usize, key_at: usize) -> int {
    anchor as int - key_at as int
}

/// Detects mutation and relocation by remembering its own address.
///
/// The sentinel is clean exactly while the address recorded by the last
/// `set_unmutated` equals the address it lives at now. Moving the sentinel
/// copies the recorded address unchanged, so a moved sentinel reports dirty
/// without being told. `K` is the type of the token that clearing asks for.
pub struct MoveMutSentinel<K> {
    anchor: Option<usize>,
    _key: PhantomData<K>,
}

impl<K> MoveMutSentinel<K> {
    /// The address recorded when the sentinel was last marked clean, or `None`
    /// when it has been dirty since.
    pub closed spec fn anchor(&self) -> Option<usize> {
        self.anchor
    }

    /// Whether a sentinel that now lives at `here` reports itself dirty.
    pub open spec fn dirty_at(&self, here: usize) -> bool {
        self.anchor() != Some(here)
    }

    /// The state of a sentinel that was never marked clean.
    pub closed spec fn fresh() -> Self {
        MoveMutSentinel { anchor: None, _key: PhantomData }
    }

    /// A fresh sentinel has recorded no address.
    pub(crate) proof fn lemma_fresh_anchor()
        ensures
            Self::fresh().anchor() is None,
    {
    }

    /// A sentinel in the dirty state: it reports dirty wherever it lives.
    pub fn mutated() -> (s: Self)
        ensures
            s.anchor() is None,
            s == Self::fresh(),
    {
        MoveMutSentinel { anchor: None, _key: PhantomData }
    }

    /// The answer of the sentinel if it lives at `here`.
    pub fn moved_or_mutated_at(&self, here: usize) -> (r: bool)
        ensures
            r == self.dirty_at(here),
    {
        match self.anchor {
            Some(a) => a != here,
            None => true,
        }
    }

    /// Whether the sentinel was mutated, or moved, since it was last marked
    /// clean. A sentinel that is not marked clean always answers `true`; one
    /// that is answers by comparing the recorded address with its own.
    pub fn was_moved_or_mutated(&self) -> (r: bool)
        ensures
            self.anchor() is None ==> r,
    {
        let here = location_of(self);
        self.moved_or_mutated_at(here)
    }

    /// `"MovedOrMutated"` or `"Unmutated"`, as `was_moved_or_mutated` answers.
    pub fn status(&self) -> (r: String)
        ensures
            r@ == "MovedOrMutated"@ || r@ == "Unmutated"@,
            self.anchor() is None ==> r@ == "MovedOrMutated"@,
    {
        if self.was_moved_or_mutated() {
            "MovedOrMutated".to_owned()
        } else {
            "Unmutated".to_owned()
        }
    }

    /// Forces the dirty state.
    pub fn set_mutated(&mut self)
        ensures
            final(self).anchor() is None,
    {
        self.anchor = None;
    }

    /// Marks the sentinel clean for as long as it lives at `here`.
    pub fn set_unmutated_at(&mut self, here: usize)
        ensures
            final(self).anchor() == Some(here),
    {
        self.anchor = Some(here);
    }

    /// Marks the sentinel clean at the address it lives at now; presenting a
    /// `K` is what entitles the caller to do so. Call it only where the
    /// sentinel will stay: a later move makes it dirty again.
    pub fn set_unmutated(&mut self, _key: K)
        ensures
            final(self).anchor() is Some,
    {
        let here = location_of(self);
        self.set_unmutated_at(here);
    }

    /// The same sentinel, cleared from now on by a token of type `NK`.
    pub fn change_key<NK>(self) -> (r: MoveMutSentinel<NK>)
        ensures
            r.anchor() == self.anchor(),
    {
        MoveMutSentinel { anchor: self.anchor, _key: PhantomData }
    }
}

/// Detects mutation and relocation relative to a key stored beside it.
///
/// When marked clean the sentinel records the distance from the key's location
/// to its own, and a copy of the key. It stays clean while both agree with the
/// key it is asked about: moving the sentinel together with its key keeps the
/// distance, while moving either one alone changes the distance or the key.
pub struct MoveRelMutSentinel<K: PartialEq + Copy> {
    pairing: Option<(i128, K)>,
}

impl<K: PartialEq + Copy> MoveRelMutSentinel<K> {
    /// The distance and the key recorded when the sentinel was last marked
    /// clean, or `None` when it has been dirty since.
    pub closed spec fn pairing(&self) -> Option<(int, K)> {
        match self.pairing {
            Some((d, k)) => Some((d as int, k)),
            None => None,
        }
    }

    /// Whether the recorded distance is the one between `anchor` and `key_at`.
    pub open spec fn paired_at(&self, anchor: usize, key_at: usize) -> bool {
        &&& self.pairing() is Some
        &&& self.pairing().unwrap().0 == offset_between(anchor, key_at)
    }

    /// Whether the sentinel recorded a key that does not compare equal to `key`.
    pub open spec fn recorded_other_than(&self, key: K) -> bool {
        &&& self.pairing() is Some
        &&& !self.pairing().unwrap().1.eq_spec(&key)
    }

    /// Whether a sentinel at `anchor`, asked about `key` stored at `key_at`,
    /// reports itself dirty.
    pub open spec fn dirty_at(&self, anchor: usize, key_at: usize, key: K) -> bool {
        !self.paired_at(anchor, key_at) || !self.pairing().unwrap().1.eq_spec(&key)
    }

    /// The state of a sentinel that was never marked clean.
    pub closed spec fn fresh() -> Self {
        MoveRelMutSentinel { pairing: None }
    }

    /// A fresh sentinel has recorded no distance and no key.
    pub(crate) proof fn lemma_fresh_pairing()
        ensures
            Self::fresh().pairing() is None,
    {
    }

    /// A sentinel in the dirty state: it reports dirty for every key.
    pub fn mutated() -> (s: Self)
        ensures
            s.pairing() is None,
            s == Self::fresh(),
    {
        MoveRelMutSentinel { pairing: None }
    }

    /// The answer of the sentinel if it lives at `anchor` and is asked about
    /// `key`, stored at `key_at`. The recorded key is only compared once the
    /// distance agrees.
    pub fn moved_or_mutated_at(&self, anchor: usize, key_at: usize, key: &K) -> (r: bool)
        ensures
            !self.paired_at(anchor, key_at) ==> r,
            K::obeys_eq_spec() ==> r == self.dirty_at(anchor, key_at, *key),
    {
        match self.pairing {
            Some((d, k)) => {
                if d != anchor as i128 - key_at as i128 {
                    true
                } else {
                    !(k == *key)
                }
            },
            None => true,
        }
    }

    /// Whether the sentinel was mutated, or moved apart from `key`, since it
    /// was last marked clean.
    pub fn was_moved_or_mutated(&self, key: &K) -> (r: bool)
        ensures
            self.pairing() is None ==> r,
            K::obeys_eq_spec() && self.recorded_other_than(*key) ==> r,
    {
        let anchor = location_of(self);
        let key_at = location_of(key);
        self.moved_or_mutated_at(anchor, key_at, key)
    }

    /// Forces the dirty state.
    pub fn set_mutated(&mut self)
        ensures
            final(self).pairing() is None,
    {
        self.pairing = None;
    }

    /// Marks the sentinel clean for as long as it lives at `anchor` and is
    /// asked about a key equal to `key`, stored at `key_at`.
    pub fn set_unmutated_at(&mut self, anchor: usize, key_at: usize, key: &K)
        ensures
            final(self).pairing() == Some((offset_between(anchor, key_at), *key)),
    {
        self.pairing = Some((anchor as i128 - key_at as i128, *key));
    }

    /// Marks the sentinel clean with respect to `key` where both live now.
    pub fn set_unmutated(&mut self, key: &K)
        ensures
            final(self).pairing() matches Some((_, k)) && k == *key,
    {
        let anchor = location_of(self);
        let key_at = location_of(key);
        self.set_unmutated_at(anchor, key_at, key);
    }
}

impl<K> Clone for MoveMutSentinel<K> {
    /// Copies the recorded address; the copy lives elsewhere, so it reports
    /// dirty.
    fn clone(&self) -> (r: Self)
        ensures
            r.anchor() == self.anchor(),
    {
        MoveMutSentinel { anchor: self.anchor, _key: PhantomData }
    }
}

impl<K: PartialEq + Copy> Clone for MoveRelMutSentinel<K> {
    /// Copies the recorded distance and key.
    fn clone(&self) -> (r: Self)
        ensures
            r.pairing() == self.pairing(),
    {
        MoveRelMutSentinel { pairing: self.pairing }
    }
}

} // verus!
