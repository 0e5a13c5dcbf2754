//! A small map, kept as a list of entries with distinct keys.

use vstd::prelude::*;

verus! {

/// A type whose values can be told apart by what they stand for.
pub trait Key: View + Sized {
    /// Whether the two keys stand for the same thing.
    fn same(&self, other: &Self) -> (r: bool)
        ensures
            r == (self@ == other@),
    ;
}

impl Key for String {
    fn same(&self, other: &Self) -> (r: bool) {
        *self == *other
    }
}

/// A test that picks out keys.
pub trait KeyFilter<K: Key> {
    /// Whether the filter picks out a key that stands for `k`.
    spec fn picks(&self, k: K::V) -> bool;

    /// Applies the test to a key.
    fn test(&self, key: &K) -> (r: bool)
        ensures
            r == self.picks(key@),
    ;
}

/// A map from keys to values. No key occurs twice.
pub struct Table<K: Key, T: View> {
    entries: Vec<(K, T)>,
}

/// The map that a list of entries holds; a later entry for a key replaces an earlier one.
spec fn entries_map<K: Key, T: View>(s: Seq<(K, T)>) -> Map<K::V, T::V>
    decreases s.len(),
{
    if s.len() == 0 {
        Map::empty()
    } else {
        entries_map(s.drop_last()).insert(s.last().0@, s.last().1@)
    }
}

spec fn distinct<K: Key, T: View>(s: Seq<(K, T)>) -> bool {
    forall|i: int, j: int| 0 <= i < j < s.len() ==> s[i].0@ != s[j].0@
}

proof fn lemma_entries<K: Key, T: View>(s: Seq<(K, T)>)
    requires
        distinct(s),
    ensures
        forall|i: int|
            #![trigger s[i]]
            0 <= i < s.len() ==> entries_map(s).contains_key(s[i].0@) && entries_map(s)[s[i].0@]
                == s[i].1@,
        forall|k: K::V| #[trigger]
            entries_map(s).contains_key(k) ==> exists|i: int|
                0 <= i < s.len() && #[trigger] s[i].0@ == k,
    decreases s.len(),
{
    if s.len() > 0 {
        let t = s.drop_last();
        assert(distinct(t));
        lemma_entries(t);
        assert forall|i: int|
            #![trigger s[i]]
            0 <= i < s.len() implies entries_map(s).contains_key(s[i].0@) && entries_map(s)[s[i].0@]
            == s[i].1@ by {
            if i < t.len() {
                assert(t[i] == s[i]);
                assert(entries_map(t).contains_key(t[i].0@));
            }
        }
        assert forall|k: K::V| #[trigger] entries_map(s).contains_key(k) implies exists|i: int|
            0 <= i < s.len() && #[trigger] s[i].0@ == k by {
            if k == s.last().0@ {
                assert(s[s.len() - 1].0@ == k);
            } else {
                assert(entries_map(t).contains_key(k));
                let i = choose|i: int| 0 <= i < t.len() && #[trigger] t[i].0@ == k;
                assert(s[i].0@ == k);
            }
        }
    }
}

impl<K: Key, T: View> View for Table<K, T> {
    type V = Map<K::V, T::V>;

    closed spec fn view(&self) -> Map<K::V, T::V> {
        entries_map(self.entries@)
    }
}

impl<K: Key, T: View> Table<K, T> {
    #[verifier::type_invariant]
    spec fn wf(self) -> bool {
        distinct(self.entries@)
    }

    /// The empty map.
    pub fn new() -> (r: Self)
        ensures
            r@ == Map::<K::V, T::V>::empty(),
    {
        Table { entries: Vec::new() }
    }

    /// The place of `key` among the entries.
    fn position(&self, key: &K) -> (r: Option<usize>)
        ensures
            r matches Some(i) ==> i < self.entries@.len() && self.entries@[i as int].0@ == key@,
            r is None ==> forall|i: int| 0 <= i < self.entries@.len() ==> self.entries@[i].0@ != key@,
    {
        let mut i: usize = 0;
        while i < self.entries.len()
            invariant
                i <= self.entries@.len(),
                forall|j: int| 0 <= j < i ==> self.entries@[j].0@ != key@,
            decreases self.entries@.len() - i,
        {
            if self.entries[i].0.same(key) {
                return Some(i);
            }
            i += 1;
        }
        None
    }

    /// Whether the map has a value for `key`.
    pub fn contains(&self, key: &K) -> (r: bool)
        ensures
            r == self@.contains_key(key@),
    {
        proof {
            use_type_invariant(self);
            lemma_entries(self.entries@);
        }
        self.position(key).is_some()
    }

    /// The value for `key`.
    pub fn get(&self, key: &K) -> (r: Option<&T>)
        ensures
            r is Some <==> self@.contains_key(key@),
            r matches Some(v) ==> v@ == self@[key@],
    {
        proof {
            use_type_invariant(self);
            lemma_entries(self.entries@);
        }
        match self.position(key) {
            Some(i) => Some(&self.entries[i].1),
            None => None,
        }
    }

    /// The entries, in the order in which they are kept.
    pub closed spec fn entry_seq(&self) -> Seq<(K, T)> {
        self.entries@
    }

    /// The number of entries. Each key has one entry.
    pub fn len(&self) -> (r: usize)
        ensures
            r == self.entry_seq().len(),
            forall|i: int, j: int|
                0 <= i < j < r ==> (#[trigger] self.entry_seq()[i]).0@ != (
                #[trigger] self.entry_seq()[j]).0@,
            forall|i: int|
                0 <= i < r ==> self@.contains_key((#[trigger] self.entry_seq()[i]).0@)
                    && self@[self.entry_seq()[i].0@] == self.entry_seq()[i].1@,
            forall|k: K::V| #[trigger]
                self@.contains_key(k) ==> exists|i: int|
                    0 <= i < r && (#[trigger] self.entry_seq()[i]).0@ == k,
    {
        proof {
            use_type_invariant(self);
            lemma_entries(self.entries@);
            assert forall|k: K::V| #[trigger] self@.contains_key(k) implies exists|i: int|
                0 <= i < self.entries@.len() && (#[trigger] self.entry_seq()[i]).0@ == k by {
                let i = choose|i: int|
                    0 <= i < self.entries@.len() && #[trigger] self.entries@[i].0@ == k;
                assert(self.entry_seq()[i].0@ == k);
            }
        }
        self.entries.len()
    }

    /// The entry in the given place.
    pub fn entry(&self, i: usize) -> (r: (&K, &T))
        requires
            i < self.entry_seq().len(),
        ensures
            *r.0 == self.entry_seq()[i as int].0,
            *r.1 == self.entry_seq()[i as int].1,
    {
        (&self.entries[i].0, &self.entries[i].1)
    }

    /// Takes the value for `key` out of the map.
    pub fn remove(&mut self, key: &K) -> (r: Option<T>)
        ensures
            r is Some <==> old(self)@.contains_key(key@),
            r matches Some(v) ==> v@ == old(self)@[key@],
            final(self)@ == old(self)@.remove(key@),
    {
        proof {
            use_type_invariant(&*self);
            lemma_entries(self.entries@);
        }
        match self.position(key) {
            Some(i) => {
                let ghost before = self.entries@;
                let mut entries: Vec<(K, T)> = Vec::new();
                core::mem::swap(&mut self.entries, &mut entries);
                let entry = entries.remove(i);
                proof {
                    let after = before.remove(i as int);
                    assert(entries@ =~= after);
                    assert forall|a: int, b: int| 0 <= a < b < after.len() implies after[a].0@
                        != after[b].0@ by {
                        let x = if a < i {
                            a
                        } else {
                            a + 1
                        };
                        let y = if b < i {
                            b
                        } else {
                            b + 1
                        };
                        assert(after[a] == before[x] && after[b] == before[y]);
                    }
                    assert(distinct(after));
                    lemma_entries(after);
                    lemma_removed(before, i as int);
                }
                core::mem::swap(&mut self.entries, &mut entries);
                Some(entry.1)
            },
            None => {
                assert(self@ =~= old(self)@.remove(key@));
                None
            },
        }
    }

    /// Sets the value for `key`, in place of the one that the map had.
    pub fn insert(&mut self, key: K, value: T) -> (r: Option<T>)
        ensures
            r is Some <==> old(self)@.contains_key(key@),
            r matches Some(v) ==> v@ == old(self)@[key@],
            final(self)@ == old(self)@.insert(key@, value@),
    {
        let r = self.remove(&key);
        proof {
            use_type_invariant(&*self);
            lemma_entries(self.entries@);
        }
        let ghost before = self.entries@;
        let mut entries: Vec<(K, T)> = Vec::new();
        core::mem::swap(&mut self.entries, &mut entries);
        entries.push((key, value));
        proof {
            assert(entries@.drop_last() =~= before);
            assert forall|a: int, b: int| 0 <= a < b < entries@.len() implies entries@[a].0@
                != entries@[b].0@ by {
                if b == entries@.len() - 1 {
                    assert(entries_map(before).contains_key(before[a].0@));
                }
            }
        }
        core::mem::swap(&mut self.entries, &mut entries);
        assert(self@ =~= old(self)@.insert(key@, value@));
        r
    }

    /// Drops every entry whose key the filter picks out.
    pub fn remove_picked<F: KeyFilter<K>>(&mut self, filter: &F)
        ensures
            final(self)@ == old(self)@.remove_keys(old(self)@.dom().filter(|k: K::V| filter.picks(k))),
    {
        proof {
            use_type_invariant(&*self);
            lemma_entries(self.entries@);
        }
        let ghost before = self.entries@;
        let mut entries: Vec<(K, T)> = Vec::new();
        core::mem::swap(&mut self.entries, &mut entries);
        let mut i: usize = 0;
        let ghost mut m = entries_map(before);
        while i < entries.len()
            invariant
                i <= entries@.len(),
                distinct(before),
                distinct(entries@),
                m == entries_map(entries@),
                forall|j: int| 0 <= j < i ==> !filter.picks(#[trigger] entries@[j].0@),
                forall|k: K::V| #[trigger]
                    m.contains_key(k) ==> entries_map(before).contains_key(k) && m[k]
                        == entries_map(before)[k],
                forall|k: K::V|
                    !#[trigger] m.contains_key(k) && entries_map(before).contains_key(k)
                        ==> filter.picks(k),
            decreases entries@.len() - i,
        {
            if filter.test(&entries[i].0) {
                proof {
                    let now = entries@;
                    let after = now.remove(i as int);
                    assert forall|a: int, b: int| 0 <= a < b < after.len() implies after[a].0@
                        != after[b].0@ by {
                        let x = if a < i {
                            a
                        } else {
                            a + 1
                        };
                        let y = if b < i {
                            b
                        } else {
                            b + 1
                        };
                        assert(after[a] == now[x] && after[b] == now[y]);
                    }
                    lemma_removed(now, i as int);
                    m = entries_map(after);
                }
                let removed = entries.remove(i);
            } else {
                i += 1;
            }
        }
        proof {
            lemma_entries(entries@);
            let target = entries_map(before).remove_keys(
                entries_map(before).dom().filter(|k: K::V| filter.picks(k)),
            );
            assert forall|k: K::V| m.contains_key(k) implies !filter.picks(k) by {
                let j = choose|j: int| 0 <= j < entries@.len() && #[trigger] entries@[j].0@ == k;
                assert(!filter.picks(entries@[j].0@));
            }
            assert(m =~= target);
        }
        core::mem::swap(&mut self.entries, &mut entries);
    }
}

proof fn lemma_removed<K: Key, T: View>(s: Seq<(K, T)>, i: int)
    requires
        distinct(s),
        0 <= i < s.len(),
        distinct(s.remove(i)),
    ensures
        entries_map(s.remove(i)) == entries_map(s).remove(s[i].0@),
{
    let t = s.remove(i);
    lemma_entries(s);
    lemma_entries(t);
    let a = entries_map(t);
    let b = entries_map(s).remove(s[i].0@);
    assert forall|k: K::V| a.contains_key(k) implies b.contains_key(k) && a[k] == b[k] by {
        let j = choose|j: int| 0 <= j < t.len() && #[trigger] t[j].0@ == k;
        let x = if j < i {
            j
        } else {
            j + 1
        };
        assert(t[j] == s[x]);
        assert(s[x].0@ != s[i].0@);
        assert(entries_map(s).contains_key(s[x].0@));
    }
    assert forall|k: K::V| b.contains_key(k) implies a.contains_key(k) by {
        let x = choose|x: int| 0 <= x < s.len() && #[trigger] s[x].0@ == k;
        assert(x != i);
        let j = if x < i {
            x
        } else {
            x - 1
        };
        assert(t[j] == s[x]);
        assert(a.contains_key(t[j].0@));
    }
    assert(a =~= b);
}

} // verus!
