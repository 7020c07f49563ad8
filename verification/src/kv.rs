use vstd::prelude::*;

verus! {

/// Key types of the store: their executable equality test decides
/// equality of the mathematical views.
pub trait StoreKey: View + Sized {
    fn key_eq(&self, other: &Self) -> (r: bool)
        ensures
            r == (self@ == other@),
    ;
}

/// A key/value table backed by an association list without duplicate
/// keys, abstracted as a `Map` from key views to value views.
#[derive(Debug)]
pub struct KvTable<K: StoreKey, V: View> {
    entries: Vec<(K, V)>,
}

/// The map described by an association list: later entries win,
/// though a well-formed table never holds a key twice.
pub open spec fn table_view<K: View, V: View>(s: Seq<(K, V)>) -> Map<K::V, V::V>
    decreases s.len(),
{
    if s.len() == 0 {
        Map::empty()
    } else {
        table_view(s.drop_last()).insert(s.last().0@, s.last().1@)
    }
}

/// No two entries share a key view.
pub open spec fn distinct_keys<K: View, V>(s: Seq<(K, V)>) -> bool {
    forall|i: int, j: int| 0 <= i < j < s.len() ==> s[i].0@ != s[j].0@
}

pub proof fn lemma_table_view_absent<K: View, V: View>(s: Seq<(K, V)>, k: K::V)
    requires
        forall|i: int| 0 <= i < s.len() ==> s[i].0@ != k,
    ensures
        !table_view(s).contains_key(k),
    decreases s.len(),
{
    if s.len() > 0 {
        assert(s.last() == s[s.len() - 1]);
        lemma_table_view_absent(s.drop_last(), k);
    }
}

pub proof fn lemma_table_view_present<K: View, V: View>(s: Seq<(K, V)>, i: int)
    requires
        distinct_keys(s),
        0 <= i < s.len(),
    ensures
        table_view(s).contains_key(s[i].0@),
        table_view(s)[s[i].0@] == s[i].1@,
    decreases s.len(),
{
    if i == s.len() - 1 {
        assert(s.last() == s[i]);
    } else {
        assert(s.drop_last()[i] == s[i]);
        lemma_table_view_present(s.drop_last(), i);
        assert(s.last().0@ != s[i].0@);
    }
}

pub proof fn lemma_table_view_remove<K: View, V: View>(s: Seq<(K, V)>, i: int)
    requires
        distinct_keys(s),
        0 <= i < s.len(),
    ensures
        table_view(s.remove(i)) == table_view(s).remove(s[i].0@),
    decreases s.len(),
{
    let k = s[i].0@;
    if i == s.len() - 1 {
        assert(s.remove(i) =~= s.drop_last());
        lemma_table_view_absent::<K, V>(s.drop_last(), k);
        assert(table_view(s.remove(i)) =~= table_view(s).remove(k));
    } else {
        let t = s.remove(i);
        assert(t.drop_last() =~= s.drop_last().remove(i));
        assert(t.last() == s.last());
        lemma_table_view_remove(s.drop_last(), i);
        assert(s.drop_last()[i] == s[i]);
        assert(s.last().0@ != k);
        assert(table_view(t) =~= table_view(s).remove(k));
    }
}

impl<K: StoreKey, V: View> KvTable<K, V> {
    /// The association list behind the table, for callers that walk it.
    pub closed spec fn entries_seq(&self) -> Seq<(K, V)> {
        self.entries@
    }

    /// Holds of every table by construction; name it with
    /// `use_type_invariant` before calling the proof functions below.
    #[verifier::type_invariant]
    pub closed spec fn inv(&self) -> bool {
        distinct_keys(self.entries@)
    }

    pub closed spec fn view_spec(&self) -> Map<K::V, V::V> {
        table_view(self.entries@)
    }

    /// Every entry of a well-formed table is a pair of the map.
    pub proof fn lemma_entry_in_view(&self, i: int)
        requires
            self.inv(),
            0 <= i < self.entries_seq().len(),
        ensures
            self@.contains_key(self.entries_seq()[i].0@),
            self@[self.entries_seq()[i].0@] == self.entries_seq()[i].1@,
    {
        lemma_table_view_present(self.entries@, i);
    }

    /// Every key of the map stands at some entry of the list.
    pub proof fn lemma_view_has_entry(&self, k: K::V)
        requires
            self.inv(),
            self@.contains_key(k),
        ensures
            exists|i: int|
                0 <= i < self.entries_seq().len() && self.entries_seq()[i].0@ == k,
    {
        if forall|i: int| 0 <= i < self.entries_seq().len() ==> self.entries_seq()[i].0@ != k {
            lemma_table_view_absent::<K, V>(self.entries@, k);
        }
    }

    /// Two entries of a table never share a key.
    pub proof fn lemma_entries_distinct(&self, i: int, j: int)
        requires
            self.inv(),
            0 <= i < self.entries_seq().len(),
            0 <= j < self.entries_seq().len(),
            i != j,
        ensures
            self.entries_seq()[i].0@ != self.entries_seq()[j].0@,
    {
    }

    pub fn new() -> (r: Self)
        ensures
            r@ == Map::<K::V, V::V>::empty(),
    {
        KvTable { entries: Vec::new() }
    }

    pub fn num_entries(&self) -> (r: usize)
        ensures
            r == self.entries_seq().len(),
    {
        self.entries.len()
    }

    pub fn entry(&self, i: usize) -> (r: &(K, V))
        requires
            i < self.entries_seq().len(),
        ensures
            *r == self.entries_seq()[i as int],
    {
        &self.entries[i]
    }

    pub fn get(&self, k: &K) -> (r: Option<&V>)
        ensures
            match r {
                Some(v) => self@.contains_key(k@) && v@ == self@[k@],
                None => !self@.contains_key(k@),
            },
    {
        proof {
            use_type_invariant(&*self);
        }
        let n = self.entries.len();
        let mut i: usize = 0;
        while i < n
            invariant
                distinct_keys(self.entries@),
                n == self.entries@.len(),
                i <= n,
                forall|j: int| 0 <= j < i ==> self.entries@[j].0@ != k@,
            decreases n - i,
        {
            if self.entries[i].0.key_eq(k) {
                proof {
                    lemma_table_view_present(self.entries@, i as int);
                }
                return Some(&self.entries[i].1);
            }
            i = i + 1;
        }
        proof {
            lemma_table_view_absent::<K, V>(self.entries@, k@);
        }
        None
    }

    pub fn contains(&self, k: &K) -> (r: bool)
        ensures
            r == self@.contains_key(k@),
    {
        self.get(k).is_some()
    }

    /// Removes the binding of `k`, if any, and hands its value out.
    pub fn take(&mut self, k: &K) -> (r: Option<V>)
        ensures
            final(self)@ == old(self)@.remove(k@),
            match r {
                Some(v) => old(self)@.contains_key(k@) && v@ == old(self)@[k@],
                None => !old(self)@.contains_key(k@),
            },
    {
        proof {
            use_type_invariant(&*self);
        }
        let ghost orig = self.entries@;
        let mut entries: Vec<(K, V)> = Vec::new();
        core::mem::swap(&mut entries, &mut self.entries);
        let n = entries.len();
        let mut i: usize = 0;
        while i < n && !entries[i].0.key_eq(k)
            invariant
                entries@ == orig,
                distinct_keys(orig),
                n == orig.len(),
                i <= n,
                forall|j: int| 0 <= j < i ==> orig[j].0@ != k@,
            decreases n - i,
        {
            i = i + 1;
        }
        if i < n {
            proof {
                lemma_table_view_present(orig, i as int);
                lemma_table_view_remove(orig, i as int);
                assert forall|a: int, b: int|
                    0 <= a < b < orig.remove(i as int).len() implies orig.remove(i as int)[a].0@
                    != orig.remove(i as int)[b].0@ by {
                    assert(orig.remove(i as int)[a] == orig[if a < i { a } else { a + 1 }]);
                    assert(orig.remove(i as int)[b] == orig[if b < i { b } else { b + 1 }]);
                }
            }
            let pair = entries.remove(i);
            self.entries = entries;
            Some(pair.1)
        } else {
            proof {
                lemma_table_view_absent::<K, V>(orig, k@);
                assert(table_view(orig) =~= table_view(orig).remove(k@));
            }
            self.entries = entries;
            None
        }
    }

    /// Removes the binding of `k`, if any.
    pub fn delete(&mut self, k: &K)
        ensures
            final(self)@ == old(self)@.remove(k@),
    {
        let _ = self.take(k);
    }

    /// Binds `k` to `v`, replacing any earlier binding.
    pub fn insert(&mut self, k: K, v: V)
        ensures
            final(self)@ == old(self)@.insert(k@, v@),
    {
        self.delete(&k);
        proof {
            use_type_invariant(&*self);
            if exists|i: int| 0 <= i < self.entries@.len() && self.entries@[i].0@ == k@ {
                let i = choose|i: int|
                    0 <= i < self.entries@.len() && self.entries@[i].0@ == k@;
                lemma_table_view_present(self.entries@, i);
            }
        }
        let ghost pre = self.entries@;
        proof {
            assert forall|a: int, b: int|
                0 <= a < b < pre.push((k, v)).len() implies pre.push((k, v))[a].0@ != pre.push(
                (k, v),
            )[b].0@ by {
                if b < pre.push((k, v)).len() - 1 {
                    assert(pre.push((k, v))[a] == pre[a] && pre.push((k, v))[b] == pre[b]);
                } else {
                    assert(pre.push((k, v))[b] == (k, v));
                    if a < pre.len() {
                        assert(pre.push((k, v))[a] == pre[a]);
                    }
                }
            }
        }
        let mut entries: Vec<(K, V)> = Vec::new();
        core::mem::swap(&mut entries, &mut self.entries);
        entries.push((k, v));
        self.entries = entries;
        proof {
            assert(self.entries@.drop_last() =~= pre);
            assert(self@ =~= old(self)@.insert(self.entries@.last().0@, self.entries@.last().1@));
        }
    }
}

impl<K: StoreKey, V: View> View for KvTable<K, V> {
    type V = Map<K::V, V::V>;

    open spec fn view(&self) -> Map<K::V, V::V> {
        self.view_spec()
    }
}

} // verus!
