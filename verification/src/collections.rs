//! The two containers that hold the minter's stored sets and tables: a set
//! that remembers the order of insertion, and a table from keys to values.

use crate::types::Key;
use vstd::prelude::*;

verus! {

/// `s` with the value `v` taken out, where `v` occurs in it.
pub open spec fn without<T>(s: Seq<T>, v: T) -> Seq<T> {
    if s.contains(v) {
        s.remove(s.index_of(v))
    } else {
        s
    }
}

/// In a sequence without duplicates a value stands at one index only.
pub proof fn lemma_index_of_unique<T>(s: Seq<T>, i: int)
    requires
        s.no_duplicates(),
        0 <= i < s.len(),
    ensures
        s.contains(s[i]),
        s.index_of(s[i]) == i,
{
    let j = s.index_of(s[i]);
    assert(0 <= j < s.len() && s[j] == s[i]);
}

/// Taking a value out of a sequence without duplicates leaves the others, in
/// their order, and nothing else.
pub proof fn lemma_without<T>(s: Seq<T>, v: T)
    requires
        s.no_duplicates(),
    ensures
        without(s, v).no_duplicates(),
        !without(s, v).contains(v),
        forall|x: T| x != v ==> (#[trigger] without(s, v).contains(x) <==> s.contains(x)),
        s.contains(v) ==> without(s, v).len() == s.len() - 1,
        !s.contains(v) ==> without(s, v) == s,
{
    if s.contains(v) {
        let i = s.index_of(v);
        let r = s.remove(i);
        assert(0 <= i < s.len() && s[i] == v);
        assert forall|a: int, b: int| 0 <= a < r.len() && 0 <= b < r.len() && a != b implies r[a]
            != r[b] by {
            let a2 = if a < i { a } else { a + 1 };
            let b2 = if b < i { b } else { b + 1 };
            assert(r[a] == s[a2] && r[b] == s[b2]);
        }
        if r.contains(v) {
            let a = choose|a: int| 0 <= a < r.len() && r[a] == v;
            let a2 = if a < i { a } else { a + 1 };
            assert(r[a] == s[a2]);
            assert(false);
        }
        assert forall|x: T| x != v implies (#[trigger] r.contains(x) <==> s.contains(x)) by {
            if r.contains(x) {
                let a = choose|a: int| 0 <= a < r.len() && r[a] == x;
                let a2 = if a < i { a } else { a + 1 };
                assert(r[a] == s[a2]);
            }
            if s.contains(x) {
                let b = choose|b: int| 0 <= b < s.len() && s[b] == x;
                let b2 = if b < i { b } else { b - 1 };
                assert(r[b2] == s[b]);
            }
        }
    }
}

/// Adding a new value at the end of a sequence without duplicates leaves it
/// without duplicates.
pub proof fn lemma_push_fresh<T>(s: Seq<T>, v: T)
    requires
        s.no_duplicates(),
        !s.contains(v),
    ensures
        s.push(v).no_duplicates(),
{
    let r = s.push(v);
    assert forall|a: int, b: int| 0 <= a < r.len() && 0 <= b < r.len() && a != b implies r[a]
        != r[b] by {
        if a < s.len() {
            assert(s.contains(r[a]));
        }
        if b < s.len() {
            assert(s.contains(r[b]));
        }
    }
}

/// `s` with every value of `items` taken out, one after the other.
pub open spec fn without_all<T>(s: Seq<T>, items: Seq<T>) -> Seq<T>
    decreases items.len(),
{
    if items.len() == 0 {
        s
    } else {
        without(without_all(s, items.drop_last()), items.last())
    }
}

/// Taking values out of a sequence without duplicates leaves those that
/// were not taken out, and nothing else.
pub proof fn lemma_without_all<T>(s: Seq<T>, items: Seq<T>)
    requires
        s.no_duplicates(),
    ensures
        without_all(s, items).no_duplicates(),
        forall|x: T| #[trigger]
            without_all(s, items).contains(x) <==> s.contains(x) && !items.contains(x),
    decreases items.len(),
{
    if items.len() > 0 {
        let rest = items.drop_last();
        let v = items.last();
        lemma_without_all(s, rest);
        lemma_without(without_all(s, rest), v);
        assert forall|x: T| #[trigger]
            without_all(s, items).contains(x) <==> s.contains(x) && !items.contains(x) by {
            if x != v {
                assert(without_all(s, items).contains(x) <==> without_all(s, rest).contains(x));
                if items.contains(x) {
                    let i = choose|i: int| 0 <= i < items.len() && items[i] == x;
                    assert(rest[i] == x);
                }
                if rest.contains(x) {
                    let i = choose|i: int| 0 <= i < rest.len() && rest[i] == x;
                    assert(items[i] == x);
                }
            } else {
                assert(items[items.len() - 1] == v);
            }
        }
    }
}

/// A set that keeps its members in the order in which they came.
pub struct ListSet<K> {
    items: Vec<K>,
}

impl<K: Key> View for ListSet<K> {
    type V = Seq<K::V>;

    closed spec fn view(&self) -> Seq<K::V> {
        self.items@.map_values(|k: K| k@)
    }
}

impl<K: Key> ListSet<K> {
    /// No member occurs twice.
    pub open spec fn wf(&self) -> bool {
        self@.no_duplicates()
    }

    pub fn new() -> (s: Self)
        ensures
            s.wf(),
            s@ == Seq::<K::V>::empty(),
    {
        let s = ListSet { items: Vec::new() };
        assert(s@ =~= Seq::<K::V>::empty());
        s
    }

    pub fn len(&self) -> (n: usize)
        ensures
            n == self@.len(),
    {
        self.items.len()
    }

    pub fn is_empty(&self) -> (r: bool)
        ensures
            r == (self@.len() == 0),
    {
        self.items.len() == 0
    }

    /// The member at index `i`, in order of insertion.
    pub fn get(&self, i: usize) -> (k: &K)
        requires
            i < self@.len(),
        ensures
            k@ == self@[i as int],
    {
        &self.items[i]
    }

    fn position(&self, k: &K) -> (r: Option<usize>)
        ensures
            match r {
                Some(i) => i < self@.len() && self@[i as int] == k@,
                None => !self@.contains(k@),
            },
    {
        let mut i: usize = 0;
        while i < self.items.len()
            invariant
                i <= self.items.len(),
                forall|j: int| 0 <= j < i ==> self@[j] != k@,
            decreases self.items.len() - i,
        {
            if self.items[i].same(k) {
                return Some(i);
            }
            i = i + 1;
        }
        None
    }

    pub fn contains(&self, k: &K) -> (r: bool)
        ensures
            r == self@.contains(k@),
    {
        self.position(k).is_some()
    }

    /// Adds `k` at the end unless it is a member already; says whether it
    /// was added.
    pub fn insert(&mut self, k: K) -> (fresh: bool)
        requires
            old(self).wf(),
        ensures
            final(self).wf(),
            fresh == !old(self)@.contains(k@),
            final(self)@ == if fresh {
                old(self)@.push(k@)
            } else {
                old(self)@
            },
    {
        if self.contains(&k) {
            false
        } else {
            let ghost kv = k@;
            self.items.push(k);
            proof {
                assert(self@ =~= old(self)@.push(kv));
                lemma_push_fresh(old(self)@, kv);
            }
            true
        }
    }

    /// Takes `k` out if it is a member; says whether it was.
    pub fn remove(&mut self, k: &K) -> (found: bool)
        requires
            old(self).wf(),
        ensures
            final(self).wf(),
            found == old(self)@.contains(k@),
            final(self)@ == without(old(self)@, k@),
    {
        match self.position(k) {
            Some(i) => {
                let _ = self.items.remove(i);
                proof {
                    lemma_index_of_unique(old(self)@, i as int);
                    assert(self@ =~= old(self)@.remove(i as int));
                    lemma_without(old(self)@, k@);
                }
                true
            },
            None => {
                proof {
                    lemma_without(old(self)@, k@);
                }
                false
            },
        }
    }
}

/// A table from keys to values, one value for a key.
pub struct ListMap<K, V> {
    keys: Vec<K>,
    values: Vec<V>,
}

impl<K: Key, V> View for ListMap<K, V> {
    type V = Map<K::V, V>;

    closed spec fn view(&self) -> Map<K::V, V> {
        Map::new(
            |k: K::V| self.key_views().contains(k),
            |k: K::V| self.values@[self.key_views().index_of(k)],
        )
    }
}

impl<K: Key, V> ListMap<K, V> {
    spec fn key_views(&self) -> Seq<K::V> {
        self.keys@.map_values(|k: K| k@)
    }

    /// Every key has its value, and no key occurs twice.
    pub closed spec fn wf(&self) -> bool {
        &&& self.keys@.len() == self.values@.len()
        &&& self.key_views().no_duplicates()
    }

    pub fn new() -> (m: Self)
        ensures
            m.wf(),
            m@ == Map::<K::V, V>::empty(),
    {
        let m = ListMap { keys: Vec::new(), values: Vec::new() };
        assert(m@ =~= Map::<K::V, V>::empty());
        m
    }

    fn position(&self, k: &K) -> (r: Option<usize>)
        requires
            self.wf(),
        ensures
            match r {
                Some(i) => i < self.keys@.len() && self.key_views()[i as int] == k@
                    && self.key_views().index_of(k@) == i,
                None => !self.key_views().contains(k@),
            },
    {
        let mut i: usize = 0;
        while i < self.keys.len()
            invariant
                self.wf(),
                i <= self.keys.len(),
                forall|j: int| 0 <= j < i ==> self.key_views()[j] != k@,
            decreases self.keys.len() - i,
        {
            if self.keys[i].same(k) {
                proof {
                    lemma_index_of_unique(self.key_views(), i as int);
                }
                return Some(i);
            }
            i = i + 1;
        }
        None
    }

    /// The value of `k`, if it has one.
    pub fn get(&self, k: &K) -> (r: Option<&V>)
        requires
            self.wf(),
        ensures
            match r {
                Some(v) => self@.contains_key(k@) && *v == self@[k@],
                None => !self@.contains_key(k@),
            },
    {
        match self.position(k) {
            Some(i) => Some(&self.values[i]),
            None => None,
        }
    }

    /// Gives `k` the value `v`, in place of the one it had, if any.
    pub fn set(&mut self, k: K, v: V)
        requires
            old(self).wf(),
        ensures
            final(self).wf(),
            final(self)@ == old(self)@.insert(k@, v),
    {
        let ghost kv = k@;
        match self.position(&k) {
            Some(i) => {
                self.values[i] = v;
                proof {
                    assert(self.key_views() == old(self).key_views());
                    assert forall|x: K::V| self.key_views().contains(x) implies #[trigger] self@[x]
                        == old(self)@.insert(kv, v)[x] by {
                        let j = self.key_views().index_of(x);
                        assert(0 <= j < self.key_views().len() && self.key_views()[j] == x);
                    }
                    assert(self@ =~= old(self)@.insert(kv, v));
                }
            },
            None => {
                self.keys.push(k);
                self.values.push(v);
                proof {
                    let before = old(self).key_views();
                    assert(self.key_views() =~= before.push(kv));
                    lemma_push_fresh(before, kv);
                    lemma_index_of_unique(self.key_views(), before.len() as int);
                    assert forall|x: K::V| self.key_views().contains(x) implies #[trigger] self@[x]
                        == old(self)@.insert(kv, v)[x] by {
                        let j = self.key_views().index_of(x);
                        assert(0 <= j < self.key_views().len() && self.key_views()[j] == x);
                        if x != kv {
                            assert(before[j] == x);
                            lemma_index_of_unique(before, j);
                        }
                    }
                    assert forall|x: K::V| before.contains(x) implies self.key_views().contains(
                        x,
                    ) by {
                        let j = before.index_of(x);
                        assert(0 <= j < before.len() && before[j] == x);
                        assert(self.key_views()[j] == x);
                    }
                    assert(self@ =~= old(self)@.insert(kv, v));
                }
            },
        }
    }

    /// Takes `k` and its value out of the table and hands the value over.
    pub fn take(&mut self, k: &K) -> (r: Option<V>)
        requires
            old(self).wf(),
        ensures
            final(self).wf(),
            final(self)@ == old(self)@.remove(k@),
            r == if old(self)@.contains_key(k@) {
                Some(old(self)@[k@])
            } else {
                None
            },
    {
        match self.position(k) {
            Some(i) => {
                let _ = self.keys.remove(i);
                let v = self.values.remove(i);
                proof {
                    let before = old(self).key_views();
                    let after = self.key_views();
                    assert(after =~= before.remove(i as int));
                    assert(after == without(before, k@));
                    lemma_without(before, k@);
                    assert forall|x: K::V| after.contains(x) implies #[trigger] self@[x] == old(
                        self,
                    )@.remove(k@)[x] by {
                        let j = after.index_of(x);
                        assert(0 <= j < after.len() && after[j] == x);
                        let j2 = if j < i { j } else { j + 1 };
                        assert(before[j2] == x);
                        lemma_index_of_unique(before, j2);
                    }
                    assert(self@ =~= old(self)@.remove(k@));
                }
                Some(v)
            },
            None => {
                proof {
                    assert(self@ =~= old(self)@.remove(k@));
                }
                None
            },
        }
    }
}

} // verus!
