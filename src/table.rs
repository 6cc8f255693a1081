//! A small association table: a vector of entries with distinct keys, viewed as a map.
use vstd::prelude::*;

use crate::bytes::same_array;
use crate::ledger::OutputRef;

verus! {

/// A key that a table can hold: copyable, with an exact comparison.
pub trait TableKey: Copy {
    type KeyView;

    spec fn key_view(&self) -> Self::KeyView;

    fn same_key(&self, other: &Self) -> (r: bool)
        ensures
            r == (self.key_view() == other.key_view()),
    ;
}

impl TableKey for OutputRef {
    type KeyView = OutputRef;

    open spec fn key_view(&self) -> OutputRef {
        *self
    }

    fn same_key(&self, other: &Self) -> (r: bool) {
        self.same_as(other)
    }
}

impl TableKey for [u8; 61] {
    type KeyView = Seq<u8>;

    open spec fn key_view(&self) -> Seq<u8> {
        self@
    }

    fn same_key(&self, other: &Self) -> (r: bool) {
        let r = same_array(self, other);
        proof {
            if self@ == other@ {
                assert forall|i: int| 0 <= i < 61 implies self[i] == other[i] by {
                    assert(self@[i] == other@[i]);
                }
                assert(*self =~= *other);
            }
        }
        r
    }
}

pub open spec fn to_map<K: TableKey, V>(s: Seq<(K, V)>) -> Map<K::KeyView, V>
    decreases s.len(),
{
    if s.len() == 0 {
        Map::empty()
    } else {
        to_map(s.drop_last()).insert(s.last().0.key_view(), s.last().1)
    }
}

pub open spec fn keys_distinct<K: TableKey, V>(s: Seq<(K, V)>) -> bool {
    forall|i: int, j: int|
        0 <= i < j < s.len() ==> (#[trigger] s[i]).0.key_view() != (#[trigger] s[j]).0.key_view()
}

proof fn lemma_to_map_dom<K: TableKey, V>(s: Seq<(K, V)>, k: K::KeyView)
    ensures
        to_map(s).contains_key(k) <==> exists|i: int| 0 <= i < s.len() && (#[trigger] s[i]).0.key_view() == k,
    decreases s.len(),
{
    if s.len() > 0 {
        lemma_to_map_dom(s.drop_last(), k);
        if to_map(s).contains_key(k) && s.last().0.key_view() != k {
            let i = choose|i: int| 0 <= i < s.drop_last().len() && (#[trigger] s.drop_last()[i]).0.key_view() == k;
            assert(s[i] == s.drop_last()[i]);
        }
        if exists|i: int| 0 <= i < s.len() && (#[trigger] s[i]).0.key_view() == k {
            let i = choose|i: int| 0 <= i < s.len() && (#[trigger] s[i]).0.key_view() == k;
            if i < s.len() - 1 {
                assert(s.drop_last()[i] == s[i]);
            }
        }
    }
}

proof fn lemma_to_map_value<K: TableKey, V>(s: Seq<(K, V)>, i: int)
    requires
        keys_distinct(s),
        0 <= i < s.len(),
    ensures
        to_map(s).contains_key(s[i].0.key_view()),
        to_map(s)[s[i].0.key_view()] == s[i].1,
    decreases s.len(),
{
    lemma_to_map_dom(s, s[i].0.key_view());
    if i < s.len() - 1 {
        assert(s.drop_last()[i] == s[i]);
        assert(keys_distinct(s.drop_last())) by {
            assert forall|a: int, b: int| 0 <= a < b < s.drop_last().len() implies (#[trigger] s.drop_last()[a]).0.key_view()
                != (#[trigger] s.drop_last()[b]).0.key_view() by {
                assert(s.drop_last()[a] == s[a] && s.drop_last()[b] == s[b]);
            }
        }
        lemma_to_map_value(s.drop_last(), i);
        assert(s[i].0.key_view() != s[s.len() - 1].0.key_view());
    }
}

/// Two entry lists with distinct keys that agree on their keys and values view as one map.
proof fn lemma_to_map_ext<K: TableKey, V>(s: Seq<(K, V)>, m: Map<K::KeyView, V>)
    requires
        keys_distinct(s),
        forall|k: K::KeyView| m.contains_key(k) <==> exists|i: int| 0 <= i < s.len() && (#[trigger] s[i]).0.key_view() == k,
        forall|i: int| 0 <= i < s.len() ==> m[(#[trigger] s[i]).0.key_view()] == s[i].1,
    ensures
        to_map(s) == m,
{
    assert forall|k: K::KeyView| #[trigger] to_map(s).contains_key(k) == m.contains_key(k) by {
        lemma_to_map_dom(s, k);
        if m.contains_key(k) {
            let i = choose|i: int| 0 <= i < s.len() && (#[trigger] s[i]).0.key_view() == k;
            assert(s[i].0.key_view() == k);
        }
        if to_map(s).contains_key(k) {
            let i = choose|i: int| 0 <= i < s.len() && (#[trigger] s[i]).0.key_view() == k;
            assert(s[i].0.key_view() == k);
        }
    }
    assert forall|k: K::KeyView| #[trigger] m.contains_key(k) implies to_map(s)[k] == m[k] by {
        lemma_to_map_dom(s, k);
        let i = choose|i: int| 0 <= i < s.len() && (#[trigger] s[i]).0.key_view() == k;
        lemma_to_map_value(s, i);
    }
    assert(to_map(s) =~= m);
}

/// Entries with distinct keys.
pub struct Table<K, V> {
    entries: Vec<(K, V)>,
}

impl<K: TableKey, V> Table<K, V> {
    pub closed spec fn view(&self) -> Map<K::KeyView, V> {
        to_map(self.entries@)
    }

    pub closed spec fn wf(&self) -> bool {
        keys_distinct(self.entries@)
    }

    pub fn new() -> (r: Table<K, V>)
        ensures
            r.wf(),
            r.view() == Map::<K::KeyView, V>::empty(),
    {
        Table { entries: Vec::new() }
    }

    fn find(&self, k: &K) -> (r: Option<usize>)
        requires
            self.wf(),
        ensures
            match r {
                Some(i) => i < self.entries@.len() && self.entries@[i as int].0.key_view() == k.key_view(),
                None => !self.view().contains_key(k.key_view()),
            },
    {
        let mut i: usize = 0;
        while i < self.entries.len()
            invariant
                i <= self.entries@.len(),
                forall|j: int| 0 <= j < i ==> (#[trigger] self.entries@[j]).0.key_view() != k.key_view(),
            decreases self.entries@.len() - i,
        {
            if self.entries[i].0.same_key(k) {
                return Some(i);
            }
            i = i + 1;
        }
        proof {
            lemma_to_map_dom(self.entries@, k.key_view());
        }
        None
    }

    pub fn get(&self, k: &K) -> (r: Option<&V>)
        requires
            self.wf(),
        ensures
            r is Some == self.view().contains_key(k.key_view()),
            r is Some ==> *(r->Some_0) == self.view()[k.key_view()],
    {
        match self.find(k) {
            Some(i) => {
                proof {
                    lemma_to_map_value(self.entries@, i as int);
                }
                Some(&self.entries[i].1)
            },
            None => None,
        }
    }

    pub fn contains_key(&self, k: &K) -> (r: bool)
        requires
            self.wf(),
        ensures
            r == self.view().contains_key(k.key_view()),
    {
        match self.find(k) {
            Some(i) => {
                proof {
                    lemma_to_map_value(self.entries@, i as int);
                }
                true
            },
            None => false,
        }
    }

    pub fn insert(&mut self, k: K, v: V)
        requires
            old(self).wf(),
        ensures
            final(self).wf(),
            final(self).view() == old(self).view().insert(k.key_view(), v),
    {
        let ghost s0 = self.entries@;
        let ghost m = to_map(s0).insert(k.key_view(), v);
        match self.find(&k) {
            Some(i) => {
                self.entries.set(i, (k, v));
                let ghost s = self.entries@;
                assert(keys_distinct(s)) by {
                    assert forall|a: int, b: int| 0 <= a < b < s.len() implies (#[trigger] s[a]).0.key_view()
                        != (#[trigger] s[b]).0.key_view() by {
                        assert(s0[a].0.key_view() != s0[b].0.key_view());
                    }
                }
                assert forall|kk: K::KeyView| m.contains_key(kk) <==> exists|j: int| 0 <= j < s.len() && (#[trigger] s[j]).0.key_view() == kk by {
                    lemma_to_map_dom(s0, kk);
                    if m.contains_key(kk) && kk != k.key_view() {
                        let j = choose|j: int| 0 <= j < s0.len() && (#[trigger] s0[j]).0.key_view() == kk;
                        assert(s[j] == s0[j]);
                    }
                    if kk == k.key_view() {
                        assert(s[i as int].0.key_view() == kk);
                    }
                    if exists|j: int| 0 <= j < s.len() && (#[trigger] s[j]).0.key_view() == kk {
                        let j = choose|j: int| 0 <= j < s.len() && (#[trigger] s[j]).0.key_view() == kk;
                        if j != i {
                            assert(s[j] == s0[j]);
                        }
                    }
                }
                assert forall|j: int| 0 <= j < s.len() implies m[(#[trigger] s[j]).0.key_view()] == s[j].1 by {
                    if j != i {
                        lemma_to_map_value(s0, j);
                        assert(s0[j].0.key_view() != s0[i as int].0.key_view());
                    }
                }
                proof {
                    lemma_to_map_ext(s, m);
                }
            },
            None => {
                self.entries.push((k, v));
                let ghost s = self.entries@;
                assert(s.drop_last() =~= s0);
                assert(keys_distinct(s)) by {
                    assert forall|a: int, b: int| 0 <= a < b < s.len() implies (#[trigger] s[a]).0.key_view()
                        != (#[trigger] s[b]).0.key_view() by {
                        if b == s.len() - 1 {
                            lemma_to_map_dom(s0, k.key_view());
                            assert(s[a] == s0[a]);
                        } else {
                            assert(s[a] == s0[a] && s[b] == s0[b]);
                        }
                    }
                }
            },
        }
    }

    pub fn remove(&mut self, k: &K)
        requires
            old(self).wf(),
        ensures
            final(self).wf(),
            final(self).view() == old(self).view().remove(k.key_view()),
    {
        let ghost s0 = self.entries@;
        let ghost m = to_map(s0).remove(k.key_view());
        match self.find(k) {
            Some(i) => {
                self.entries.remove(i);
                let ghost s = self.entries@;
                assert(s =~= s0.remove(i as int));
                assert(keys_distinct(s)) by {
                    assert forall|a: int, b: int| 0 <= a < b < s.len() implies (#[trigger] s[a]).0.key_view()
                        != (#[trigger] s[b]).0.key_view() by {
                        let a0 = if a < i { a } else { a + 1 };
                        let b0 = if b < i { b } else { b + 1 };
                        assert(s[a] == s0[a0] && s[b] == s0[b0]);
                        assert(s0[a0].0.key_view() != s0[b0].0.key_view());
                    }
                }
                assert forall|kk: K::KeyView| #[trigger] m.contains_key(kk) implies exists|j: int| 0 <= j < s.len() && (#[trigger] s[j]).0.key_view() == kk by {
                    lemma_to_map_dom(s0, kk);
                    assert(to_map(s0).contains_key(kk) && kk != k.key_view());
                    let j0 = choose|j: int| 0 <= j < s0.len() && (#[trigger] s0[j]).0.key_view() == kk;
                    assert(j0 != i);
                    let j = if j0 < i { j0 } else { j0 - 1 };
                    assert(s[j] == s0[j0]);
                    assert(0 <= j < s.len() && s[j].0.key_view() == kk);
                }
                assert forall|j: int| 0 <= j < s.len() implies m.contains_key((#[trigger] s[j]).0.key_view()) by {
                    let kk = s[j].0.key_view();
                    lemma_to_map_dom(s0, kk);
                    let j0 = if j < i { j } else { j + 1 };
                    assert(s[j] == s0[j0]);
                    assert(s0[j0].0.key_view() != s0[i as int].0.key_view());
                    assert(0 <= j0 < s0.len() && s0[j0].0.key_view() == kk);
                }
                assert forall|j: int| 0 <= j < s.len() implies m[(#[trigger] s[j]).0.key_view()] == s[j].1 by {
                    let j0 = if j < i { j } else { j + 1 };
                    assert(s[j] == s0[j0]);
                    lemma_to_map_value(s0, j0);
                    assert(s0[j0].0.key_view() != s0[i as int].0.key_view());
                }
                proof {
                    lemma_to_map_ext(s, m);
                }
            },
            None => {
                assert(m =~= to_map(s0));
            },
        }
    }
}

} // verus!
