//! A string-keyed association map with first-match lookup.
//!
//! Scopes key variables, functions and types by name.  The map is a vector of
//! pairs; its model is the sequence of (key view, value model) pairs, and
//! lookups find the first entry with the key.  Entries added through `put`
//! are checked absent first, so keys built through the interface stay unique.

use vstd::prelude::*;
use vstd::string::StringExecFns;

verus! {

/// A clone whose result has the same mathematical model as the original.
pub trait DeepClone: DeepView + Sized {
    fn deep_clone(&self) -> (r: Self)
        ensures
            r.deep_view() == self.deep_view(),
    ;
}

impl DeepClone for String {
    fn deep_clone(&self) -> (r: Self)
        ensures
            r.deep_view() == self.deep_view(),
    {
        self.clone()
    }
}

impl DeepClone for crate::ast::Node {
    fn deep_clone(&self) -> (r: Self)
        ensures
            r.deep_view() == self.deep_view(),
    {
        self.clone()
    }
}

/// The first value recorded under key `k` at or after position `i`.
pub open spec fn assoc_find_from<V>(s: Seq<(Seq<char>, V)>, k: Seq<char>, i: int) -> Option<V>
    decreases s.len() - i,
{
    if i < 0 || i >= s.len() {
        None
    } else if s[i].0 == k {
        Some(s[i].1)
    } else {
        assoc_find_from(s, k, i + 1)
    }
}

/// The first value recorded under key `k`.
pub open spec fn assoc_find<V>(s: Seq<(Seq<char>, V)>, k: Seq<char>) -> Option<V> {
    assoc_find_from(s, k, 0)
}

/// Whether some entry has key `k`.
pub open spec fn assoc_has<V>(s: Seq<(Seq<char>, V)>, k: Seq<char>) -> bool {
    assoc_find(s, k) is Some
}

/// The position of the first entry with key `k` at or after `i`, or -1.
pub open spec fn assoc_idx_from<V>(s: Seq<(Seq<char>, V)>, k: Seq<char>, i: int) -> int
    decreases s.len() - i,
{
    if i < 0 || i >= s.len() {
        -1
    } else if s[i].0 == k {
        i
    } else {
        assoc_idx_from(s, k, i + 1)
    }
}

/// The position of the first entry with key `k`, or -1.
pub open spec fn assoc_idx<V>(s: Seq<(Seq<char>, V)>, k: Seq<char>) -> int {
    assoc_idx_from(s, k, 0)
}

/// How `assoc_idx` and `assoc_find` relate, from position `i` on.
pub proof fn lemma_assoc_idx_from<V>(s: Seq<(Seq<char>, V)>, k: Seq<char>, i: int)
    requires
        0 <= i <= s.len(),
    ensures
        assoc_idx_from(s, k, i) == -1 <==> assoc_find_from(s, k, i) is None,
        assoc_idx_from(s, k, i) != -1 ==> i <= assoc_idx_from(s, k, i) < s.len()
            && s[assoc_idx_from(s, k, i)].0 == k && assoc_find_from(s, k, i) == Some(
            s[assoc_idx_from(s, k, i)].1,
        ),
        assoc_idx_from(s, k, i) != -1 ==> forall|j: int|
            i <= j < assoc_idx_from(s, k, i) ==> s[j].0 != k,
    decreases s.len() - i,
{
    if i < s.len() && s[i].0 != k {
        lemma_assoc_idx_from(s, k, i + 1);
    }
}

/// How `assoc_idx` and `assoc_find` relate.
pub proof fn lemma_assoc_idx<V>(s: Seq<(Seq<char>, V)>, k: Seq<char>)
    ensures
        assoc_idx(s, k) == -1 <==> assoc_find(s, k) is None,
        assoc_idx(s, k) != -1 ==> 0 <= assoc_idx(s, k) < s.len() && s[assoc_idx(s, k)].0 == k
            && assoc_find(s, k) == Some(s[assoc_idx(s, k)].1),
{
    lemma_assoc_idx_from(s, k, 0);
}

/// A lookup is unaffected by entries after the one it finds, and an update
/// elsewhere leaves it alone.
pub proof fn lemma_assoc_find_update<V>(s: Seq<(Seq<char>, V)>, k: Seq<char>, j: int, v: V, i: int)
    requires
        0 <= i <= s.len(),
        0 <= j < s.len(),
        s[j].0 != k,
    ensures
        assoc_find_from(s.update(j, (s[j].0, v)), k, i) == assoc_find_from(s, k, i),
    decreases s.len() - i,
{
    if i < s.len() {
        lemma_assoc_find_update(s, k, j, v, i + 1);
    }
}


/// Pushing an entry for `k` makes `k` present.
pub proof fn lemma_assoc_push_has<V>(s: Seq<(Seq<char>, V)>, k: Seq<char>, v: V, i: int)
    requires
        0 <= i <= s.len(),
    ensures
        assoc_find_from(s.push((k, v)), k, i) is Some,
    decreases s.len() - i,
{
    let s2 = s.push((k, v));
    if i < s.len() {
        if s2[i].0 == k {
        } else {
            lemma_assoc_push_has(s, k, v, i + 1);
        }
    } else {
        assert(s2[i].0 == k);
    }
}

/// Replacing the first entry for `k` makes lookup yield the new value.
pub proof fn lemma_assoc_update_find<V>(s: Seq<(Seq<char>, V)>, k: Seq<char>, v: V, i: int)
    requires
        0 <= i <= s.len(),
        assoc_idx_from(s, k, i) != -1,
    ensures
        assoc_find_from(s.update(assoc_idx_from(s, k, i), (k, v)), k, i) == Some(v),
    decreases s.len() - i,
{
    lemma_assoc_idx_from(s, k, i);
    let idx = assoc_idx_from(s, k, i);
    let s2 = s.update(idx, (k, v));
    if s[i].0 == k {
        assert(s2[i].0 == k);
    } else {
        lemma_assoc_update_find(s, k, v, i + 1);
    }
}

/// A string-keyed map of values; lookup returns the first entry for a key.
#[derive(Debug)]
pub struct StrMap<T> {
    pub pairs: Vec<(String, T)>,
}

impl<T: DeepView> DeepView for StrMap<T> {
    type V = Seq<(Seq<char>, T::V)>;

    open spec fn deep_view(&self) -> Seq<(Seq<char>, T::V)> {
        self.pairs.deep_view()
    }
}

impl<T: DeepView> StrMap<T> {
    /// The empty map.
    pub fn new() -> (r: Self)
        ensures
            r.deep_view() == Seq::<(Seq<char>, T::V)>::empty(),
    {
        let r = StrMap { pairs: Vec::new() };
        proof {
            assert(r.deep_view() =~= Seq::<(Seq<char>, T::V)>::empty());
        }
        r
    }

    /// How many entries the map holds.
    pub fn len(&self) -> (r: usize)
        ensures
            r == self.deep_view().len(),
    {
        self.pairs.len()
    }

    /// The key of the entry at position `i`.
    pub fn key_at(&self, i: usize) -> (r: &String)
        requires
            i < self.deep_view().len(),
        ensures
            r@ == self.deep_view()[i as int].0,
    {
        &self.pairs[i].0
    }

    /// The value of the entry at position `i`.
    pub fn val_at(&self, i: usize) -> (r: &T)
        requires
            i < self.deep_view().len(),
        ensures
            r.deep_view() == self.deep_view()[i as int].1,
    {
        &self.pairs[i].1
    }

    fn idx(&self, k: &str) -> (r: Option<usize>)
        ensures
            match r {
                Some(i) => i == assoc_idx(self.deep_view(), k@),
                None => assoc_idx(self.deep_view(), k@) == -1,
            },
    {
        let key = k.to_owned();
        let mut i: usize = 0;
        while i < self.pairs.len()
            invariant
                i <= self.pairs.len(),
                key@ == k@,
                self.deep_view().len() == self.pairs.len(),
                forall|j: int| 0 <= j < self.pairs.len() ==> self.deep_view()[j].0
                    == self.pairs@[j].0@,
                assoc_idx_from(self.deep_view(), k@, 0) == assoc_idx_from(
                    self.deep_view(),
                    k@,
                    i as int,
                ),
            decreases self.pairs.len() - i,
        {
            if self.pairs[i].0 == key {
                return Some(i);
            }
            i = i + 1;
        }
        None
    }

    /// Whether the map holds an entry for `k`.
    pub fn contains_key(&self, k: &str) -> (r: bool)
        ensures
            r == assoc_has(self.deep_view(), k@),
    {
        proof {
            lemma_assoc_idx(self.deep_view(), k@);
        }
        self.idx(k).is_some()
    }

    /// The first value recorded under `k`, if any.
    pub fn get(&self, k: &str) -> (r: Option<&T>)
        ensures
            r.deep_view() == assoc_find(self.deep_view(), k@),
    {
        proof {
            lemma_assoc_idx(self.deep_view(), k@);
        }
        match self.idx(k) {
            Some(i) => Some(&self.pairs[i].1),
            None => None,
        }
    }

    /// Adds an entry for a key not yet present.
    pub fn put(&mut self, k: String, v: T)
        requires
            !assoc_has(old(self).deep_view(), k@),
        ensures
            final(self).deep_view() == old(self).deep_view().push((k@, v.deep_view())),
    {
        let ghost old_view = self.deep_view();
        let ghost kv = k@;
        let ghost vv = v.deep_view();
        self.pairs.push((k, v));
        proof {
            assert(self.deep_view() =~= old_view.push((kv, vv)));
        }
    }

    /// Replaces the first entry recorded under `k`, which must be present.
    pub fn set(&mut self, k: &str, v: T)
        requires
            assoc_has(old(self).deep_view(), k@),
        ensures
            final(self).deep_view() == old(self).deep_view().update(
                assoc_idx(old(self).deep_view(), k@),
                (k@, v.deep_view()),
            ),
    {
        proof {
            lemma_assoc_idx(self.deep_view(), k@);
        }
        let i = match self.idx(k) {
            Some(i) => i,
            None => {
                proof {
                    assert(false);
                }
                0
            },
        };
        let ghost old_view = self.deep_view();
        let key = k.to_owned();
        let ghost vv = v.deep_view();
        self.pairs.remove(i);
        self.pairs.insert(i, (key, v));
        proof {
            assert(self.deep_view() =~= old_view.update(
                assoc_idx(old_view, k@),
                (k@, vv),
            ));
        }
    }

    /// Replaces the first entry for `k` or appends a new one.
    pub fn upsert(&mut self, k: &str, v: T)
        ensures
            final(self).deep_view() == assoc_put(old(self).deep_view(), k@, v.deep_view()),
    {
        if self.contains_key(k) {
            self.set(k, v);
        } else {
            self.put(k.to_owned(), v);
        }
    }
}


/// An insert-or-replace: the first entry for `k` is replaced in place, or a
/// new entry is appended.
pub open spec fn assoc_put<V>(s: Seq<(Seq<char>, V)>, k: Seq<char>, v: V) -> Seq<(Seq<char>, V)> {
    if assoc_has(s, k) {
        s.update(assoc_idx(s, k), (k, v))
    } else {
        s.push((k, v))
    }
}

impl<T: DeepClone> DeepClone for StrMap<T> {
    fn deep_clone(&self) -> (r: Self)
        ensures
            r.deep_view() == self.deep_view(),
    {
        let mut pairs: Vec<(String, T)> = Vec::new();
        let mut i: usize = 0;
        while i < self.pairs.len()
            invariant
                i <= self.pairs.len(),
                pairs.deep_view().len() == i as int,
                forall|j: int| 0 <= j < i as int ==> pairs.deep_view()[j]
                    == self.deep_view()[j],
            decreases self.pairs.len() - i,
        {
            let (k, v) = &self.pairs[i];
            pairs.push((k.clone(), v.deep_clone()));
            i = i + 1;
        }
        let r = StrMap { pairs };
        proof {
            assert(r.deep_view() =~= self.deep_view());
        }
        r
    }
}

} // verus!
