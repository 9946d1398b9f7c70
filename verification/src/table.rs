//! Keyed tables: ordered lists of records in which no key occurs twice.
//!
//! Every sub-store of the registry (tokens by index, indices by id, inventories by
//! owner, grants by grantee, ...) is one of these. The view of a table is the
//! sequence of the views of its records, in the order in which their keys were
//! first stored.

use vstd::prelude::*;

verus! {

/// A value with a mathematical view that can be copied: the copy has the same view.
pub trait Value: View + Sized {
    /// A fresh copy of the value.
    fn copy(&self) -> (r: Self)
        ensures
            r@ == self@,
    ;
}

/// A value that can serve as a key: two keys are the same key exactly when their
/// views are equal.
pub trait Key: Value {
    /// Whether `self` and `other` are the same key.
    fn same(&self, other: &Self) -> (r: bool)
        ensures
            r == (self@ == other@),
    ;
}

/// A value that is stored under a key of its own.
pub trait Record: View + Sized {
    type Key: Key;

    /// The key of a record, read from the record's view.
    spec fn key_of(v: Self::V) -> <Self::Key as View>::V;

    /// The key of this record.
    fn key(&self) -> (k: &Self::Key)
        ensures
            k@ == Self::key_of(self@),
    ;
}

impl Value for bool {
    fn copy(&self) -> (r: bool) {
        *self
    }
}

impl Value for u32 {
    fn copy(&self) -> (r: u32) {
        *self
    }
}

impl Key for u32 {
    fn same(&self, other: &u32) -> (r: bool) {
        *self == *other
    }
}

/// An index is a record under itself: a table of indices is a set of them.
impl Record for u32 {
    type Key = u32;

    open spec fn key_of(v: u32) -> u32 {
        v
    }

    fn key(&self) -> (k: &u32) {
        self
    }
}

impl Value for u64 {
    fn copy(&self) -> (r: u64) {
        *self
    }
}

impl Key for u64 {
    fn same(&self, other: &u64) -> (r: bool) {
        *self == *other
    }
}

impl Value for String {
    fn copy(&self) -> (r: String) {
        self.clone()
    }
}

impl Key for String {
    fn same(&self, other: &String) -> (r: bool) {
        *self == *other
    }
}

/// No key occurs at two positions of `s`.
pub open spec fn keys_distinct<R: Record>(s: Seq<R::V>) -> bool {
    forall|i: int, j: int|
        0 <= i < j < s.len() ==> R::key_of(#[trigger] s[i]) != R::key_of(#[trigger] s[j])
}

/// Some record of `s` has the key `k`.
pub open spec fn has_key<R: Record>(s: Seq<R::V>, k: <R::Key as View>::V) -> bool {
    exists|i: int| 0 <= i < s.len() && R::key_of(#[trigger] s[i]) == k
}

/// A position of `s` that holds the key `k` (the only one, where keys are distinct).
pub open spec fn slot_of<R: Record>(s: Seq<R::V>, k: <R::Key as View>::V) -> int {
    choose|i: int| 0 <= i < s.len() && R::key_of(#[trigger] s[i]) == k
}

/// The record stored under `k`, if there is one.
pub open spec fn lookup<R: Record>(s: Seq<R::V>, k: <R::Key as View>::V) -> Option<R::V> {
    if has_key::<R>(s, k) {
        Some(s[slot_of::<R>(s, k)])
    } else {
        None
    }
}

/// `s` after storing `v`: in place where its key is present, at the end where it
/// is not.
pub open spec fn stored<R: Record>(s: Seq<R::V>, v: R::V) -> Seq<R::V> {
    if has_key::<R>(s, R::key_of(v)) {
        s.update(slot_of::<R>(s, R::key_of(v)), v)
    } else {
        s.push(v)
    }
}

/// `s` without the record of key `k`; the other records keep their order.
pub open spec fn erased<R: Record>(s: Seq<R::V>, k: <R::Key as View>::V) -> Seq<R::V> {
    if has_key::<R>(s, k) {
        s.remove(slot_of::<R>(s, k))
    } else {
        s
    }
}

/// Where keys are distinct, a position that holds `k` is the slot of `k`.
pub proof fn lemma_slot_unique<R: Record>(s: Seq<R::V>, k: <R::Key as View>::V, i: int)
    requires
        keys_distinct::<R>(s),
        0 <= i < s.len(),
        R::key_of(s[i]) == k,
    ensures
        has_key::<R>(s, k),
        slot_of::<R>(s, k) == i,
        lookup::<R>(s, k) == Some(s[i]),
{
    let j = slot_of::<R>(s, k);
    if j < i {
        assert(R::key_of(s[j]) != R::key_of(s[i]));
    } else if i < j {
        assert(R::key_of(s[i]) != R::key_of(s[j]));
    }
}

/// Storing a record keeps the keys distinct, makes its key present with the
/// stored record, and leaves every other key as it was.
pub proof fn lemma_stored<R: Record>(s: Seq<R::V>, v: R::V)
    requires
        keys_distinct::<R>(s),
    ensures
        keys_distinct::<R>(stored::<R>(s, v)),
        lookup::<R>(stored::<R>(s, v), R::key_of(v)) == Some(v),
        forall|o: <R::Key as View>::V|
            o != R::key_of(v) ==> #[trigger] lookup::<R>(stored::<R>(s, v), o) == lookup::<R>(s, o),
{
    let t = stored::<R>(s, v);
    let k = R::key_of(v);
    if has_key::<R>(s, k) {
        let p = slot_of::<R>(s, k);
        assert forall|i: int, j: int| 0 <= i < j < t.len() implies R::key_of(#[trigger] t[i])
            != R::key_of(#[trigger] t[j]) by {
            assert(R::key_of(s[i]) != R::key_of(s[j]));
        }
        lemma_slot_unique::<R>(t, k, p);
        assert forall|o: <R::Key as View>::V| o != k implies #[trigger] lookup::<R>(t, o)
            == lookup::<R>(s, o) by {
            if has_key::<R>(s, o) {
                let q = slot_of::<R>(s, o);
                assert(t[q] == s[q]);
                lemma_slot_unique::<R>(t, o, q);
            } else if has_key::<R>(t, o) {
                let q = slot_of::<R>(t, o);
                assert(s[q] == t[q]);
            }
        }
    } else {
        assert forall|i: int, j: int| 0 <= i < j < t.len() implies R::key_of(#[trigger] t[i])
            != R::key_of(#[trigger] t[j]) by {
            if j < s.len() {
                assert(R::key_of(s[i]) != R::key_of(s[j]));
            } else {
                assert(t[i] == s[i]);
            }
        }
        lemma_slot_unique::<R>(t, k, s.len() as int);
        assert forall|o: <R::Key as View>::V| o != k implies #[trigger] lookup::<R>(t, o)
            == lookup::<R>(s, o) by {
            if has_key::<R>(s, o) {
                let q = slot_of::<R>(s, o);
                assert(t[q] == s[q]);
                lemma_slot_unique::<R>(t, o, q);
            } else if has_key::<R>(t, o) {
                let q = slot_of::<R>(t, o);
                assert(s[q] == t[q]);
            }
        }
    }
}

/// Erasing a key keeps the keys distinct, makes the key absent, and leaves every
/// other key as it was.
pub proof fn lemma_erased<R: Record>(s: Seq<R::V>, k: <R::Key as View>::V)
    requires
        keys_distinct::<R>(s),
    ensures
        keys_distinct::<R>(erased::<R>(s, k)),
        lookup::<R>(erased::<R>(s, k), k) is None,
        forall|o: <R::Key as View>::V|
            o != k ==> #[trigger] lookup::<R>(erased::<R>(s, k), o) == lookup::<R>(s, o),
{
    let t = erased::<R>(s, k);
    if has_key::<R>(s, k) {
        let p = slot_of::<R>(s, k);
        assert forall|i: int, j: int| 0 <= i < j < t.len() implies R::key_of(#[trigger] t[i])
            != R::key_of(#[trigger] t[j]) by {
            let a = if i < p { i } else { i + 1 };
            let b = if j < p { j } else { j + 1 };
            assert(t[i] == s[a]);
            assert(t[j] == s[b]);
            assert(R::key_of(s[a]) != R::key_of(s[b]));
        }
        if has_key::<R>(t, k) {
            let q = slot_of::<R>(t, k);
            let a = if q < p { q } else { q + 1 };
            assert(t[q] == s[a]);
            lemma_slot_unique::<R>(s, k, a);
        }
        assert forall|o: <R::Key as View>::V| o != k implies #[trigger] lookup::<R>(t, o)
            == lookup::<R>(s, o) by {
            if has_key::<R>(s, o) {
                let q = slot_of::<R>(s, o);
                let a = if q < p { q } else { q - 1 };
                assert(t[a] == s[q]);
                lemma_slot_unique::<R>(t, o, a);
            } else if has_key::<R>(t, o) {
                let q = slot_of::<R>(t, o);
                let a = if q < p { q } else { q + 1 };
                assert(t[q] == s[a]);
            }
        }
    }
}

/// An ordered list of records with distinct keys.
#[derive(Debug)]
pub struct Table<R: Record> {
    entries: Vec<R>,
}

impl<R: Record> View for Table<R> {
    type V = Seq<R::V>;

    closed spec fn view(&self) -> Seq<R::V> {
        self.entries@.map_values(|r: R| r@)
    }
}

impl<R: Record> Table<R> {
    #[verifier::type_invariant]
    spec fn inv(&self) -> bool {
        keys_distinct::<R>(self.entries@.map_values(|r: R| r@))
    }

    /// The empty table.
    pub fn new() -> (t: Self)
        ensures
            t@ == Seq::<R::V>::empty(),
    {
        let t = Table { entries: Vec::new() };
        assert(t@ =~= Seq::<R::V>::empty());
        t
    }

    /// The number of records.
    pub fn len(&self) -> (n: usize)
        ensures
            n == self@.len(),
            keys_distinct::<R>(self@),
    {
        proof {
            use_type_invariant(self);
        }
        self.entries.len()
    }

    /// The record at position `i`.
    pub fn entry(&self, i: usize) -> (e: &R)
        requires
            i < self@.len(),
        ensures
            e@ == self@[i as int],
            keys_distinct::<R>(self@),
    {
        proof {
            use_type_invariant(self);
        }
        &self.entries[i]
    }

    /// The position of the key `k`, if it is present.
    pub fn position(&self, k: &R::Key) -> (r: Option<usize>)
        ensures
            keys_distinct::<R>(self@),
            match r {
                Some(i) => has_key::<R>(self@, k@) && i == slot_of::<R>(self@, k@) && i < self@.len()
                    && R::key_of(self@[i as int]) == k@,
                None => !has_key::<R>(self@, k@),
            },
    {
        proof {
            use_type_invariant(self);
        }
        let mut i: usize = 0;
        while i < self.entries.len()
            invariant
                i <= self.entries@.len(),
                self@ == self.entries@.map_values(|r: R| r@),
                keys_distinct::<R>(self@),
                forall|j: int| 0 <= j < i ==> R::key_of(#[trigger] self@[j]) != k@,
            decreases self.entries@.len() - i,
        {
            if self.entries[i].key().same(k) {
                proof {
                    lemma_slot_unique::<R>(self@, k@, i as int);
                }
                return Some(i);
            }
            i += 1;
        }
        None
    }

    /// Whether the key `k` is present.
    pub fn contains(&self, k: &R::Key) -> (r: bool)
        ensures
            r == has_key::<R>(self@, k@),
            keys_distinct::<R>(self@),
    {
        self.position(k).is_some()
    }

    /// The record stored under `k`, if there is one.
    pub fn get(&self, k: &R::Key) -> (r: Option<&R>)
        ensures
            keys_distinct::<R>(self@),
            match r {
                Some(v) => lookup::<R>(self@, k@) == Some(v@),
                None => lookup::<R>(self@, k@) is None,
            },
    {
        match self.position(k) {
            Some(i) => Some(&self.entries[i]),
            None => None,
        }
    }

    /// Stores `v`: replaces the record of its key where the key is present,
    /// appends it where it is not.
    pub fn put(&mut self, v: R)
        ensures
            final(self)@ == stored::<R>(old(self)@, v@),
            keys_distinct::<R>(old(self)@),
            keys_distinct::<R>(final(self)@),
    {
        proof {
            use_type_invariant(&*self);
            lemma_stored::<R>(self@, v@);
        }
        let at = self.position(v.key());
        let mut taken = Table { entries: Vec::new() };
        assert(taken@ =~= Seq::<R::V>::empty());
        core::mem::swap(self, &mut taken);
        let mut entries = taken.entries;
        let ghost before = entries@;
        match at {
            Some(i) => {
                entries[i] = v;
                assert(entries@.map_values(|r: R| r@) =~= before.map_values(|r: R| r@).update(
                    i as int,
                    v@,
                ));
            },
            None => {
                entries.push(v);
                assert(entries@.map_values(|r: R| r@) =~= before.map_values(|r: R| r@).push(v@));
            },
        }
        *self = Table { entries };
    }

    /// Removes the record of key `k` and returns it, if the key is present.
    pub fn remove(&mut self, k: &R::Key) -> (r: Option<R>)
        ensures
            final(self)@ == erased::<R>(old(self)@, k@),
            match r {
                Some(v) => lookup::<R>(old(self)@, k@) == Some(v@),
                None => lookup::<R>(old(self)@, k@) is None,
            },
            keys_distinct::<R>(old(self)@),
            keys_distinct::<R>(final(self)@),
    {
        proof {
            use_type_invariant(&*self);
            lemma_erased::<R>(self@, k@);
        }
        let at = self.position(k);
        let mut taken = Table { entries: Vec::new() };
        assert(taken@ =~= Seq::<R::V>::empty());
        core::mem::swap(self, &mut taken);
        let mut entries = taken.entries;
        let ghost before = entries@;
        let r = match at {
            Some(i) => {
                let e = entries.remove(i);
                assert(entries@.map_values(|r: R| r@) =~= before.map_values(|r: R| r@).remove(
                    i as int,
                ));
                Some(e)
            },
            None => None,
        };
        *self = Table { entries };
        r
    }
}

impl<R: Record + Value> Value for Table<R> {
    fn copy(&self) -> (t: Self) {
        proof {
            use_type_invariant(self);
        }
        let mut entries: Vec<R> = Vec::new();
        let mut i: usize = 0;
        while i < self.entries.len()
            invariant
                i <= self.entries@.len(),
                entries@.len() == i,
                forall|j: int| 0 <= j < i ==> (#[trigger] entries@[j])@ == self.entries@[j]@,
            decreases self.entries@.len() - i,
        {
            entries.push(self.entries[i].copy());
            i += 1;
        }
        assert(entries@.map_values(|r: R| r@) =~= self.entries@.map_values(|r: R| r@));
        Table { entries }
    }
}

} // verus!
