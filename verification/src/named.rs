use vstd::prelude::*;

use crate::text::str_eq;

verus! {

/// The keys of a sequence of named values.
pub open spec fn entry_keys<V>(s: Seq<(String, V)>) -> Seq<Seq<char>> {
    s.map_values(|p: (String, V)| p.0@)
}

/// The view of the last value named `k` in `s`.
pub open spec fn value_of<V: View>(s: Seq<(String, V)>, k: Seq<char>) -> V::V
    decreases s.len(),
{
    if s.len() == 0 {
        arbitrary()
    } else if s.last().0@ == k {
        s.last().1@
    } else {
        value_of(s.drop_last(), k)
    }
}

/// The map from names to values that a sequence of named values with
/// distinct names stands for.
pub open spec fn entries_view<V: View>(s: Seq<(String, V)>) -> Map<Seq<char>, V::V> {
    Map::new(|k: Seq<char>| entry_keys(s).contains(k), |k: Seq<char>| value_of(s, k))
}

/// In a sequence with distinct names, the value of the name at position
/// `i` is the value at position `i`.
proof fn lemma_value_at<V: View>(s: Seq<(String, V)>, i: int)
    requires
        entry_keys(s).no_duplicates(),
        0 <= i < s.len(),
    ensures
        value_of(s, s[i].0@) == s[i].1@,
    decreases s.len(),
{
    if i < s.len() - 1 {
        let t = s.drop_last();
        assert(entry_keys(t) == entry_keys(s).drop_last());
        assert(entry_keys(s)[i] != entry_keys(s)[s.len() - 1]);
        assert(t[i] == s[i]);
        lemma_value_at(t, i);
    }
}

/// Reading a name just set gives the value set; reading another name gives
/// the value it had before.
pub proof fn law_read_after_insert<W>(m: Map<Seq<char>, W>, k: Seq<char>, v: W, other: Seq<char>)
    requires
        other != k,
    ensures
        m.insert(k, v).contains_key(k),
        m.insert(k, v)[k] == v,
        m.insert(k, v).contains_key(other) == m.contains_key(other),
        m.contains_key(other) ==> m.insert(k, v)[other] == m[other],
{
}

/// A collection of values with distinct names, viewed as a map from names
/// to the views of the values. Setting the value of a name that is already
/// present replaces its value.
#[derive(Debug)]
pub struct NamedMap<V> {
    entries: Vec<(String, V)>,
}

impl<V: View> View for NamedMap<V> {
    type V = Map<Seq<char>, V::V>;

    closed spec fn view(&self) -> Map<Seq<char>, V::V> {
        entries_view(self.entries@)
    }
}

impl<V> NamedMap<V> {
    #[verifier::type_invariant]
    spec fn distinct_keys(self) -> bool {
        entry_keys(self.entries@).no_duplicates()
    }
}

impl<V: View> NamedMap<V> {
    /// Creates an empty collection.
    pub fn new() -> (r: Self)
        ensures
            r@ == Map::<Seq<char>, V::V>::empty(),
    {
        let r = NamedMap { entries: Vec::new() };
        assert(r@ =~= Map::<Seq<char>, V::V>::empty());
        r
    }

    /// Returns the number of names.
    pub fn len(&self) -> (r: usize)
        ensures
            r == self@.len(),
    {
        proof {
            use_type_invariant(self);
            let keys = entry_keys(self.entries@);
            keys.unique_seq_to_set();
            assert(self@.dom() =~= keys.to_set());
        }
        self.entries.len()
    }

    /// Returns the name and the value of the entry at position `index`; the
    /// positions run from zero to the number of names.
    pub fn entry(&self, index: usize) -> (r: (&String, &V))
        requires
            index < self@.len(),
        ensures
            self@.contains_key(r.0@),
            self@[r.0@] == r.1@,
    {
        proof {
            use_type_invariant(self);
            let s = self.entries@;
            let keys = entry_keys(s);
            keys.unique_seq_to_set();
            assert(self@.dom() =~= keys.to_set());
            assert(keys[index as int] == s[index as int].0@);
            lemma_value_at(s, index as int);
        }
        let e = &self.entries[index];
        (&e.0, &e.1)
    }

    /// Returns the value of `name`, if any.
    pub fn get(&self, name: &str) -> (r: Option<&V>)
        ensures
            match r {
                Some(v) => self@.contains_key(name@) && v@ == self@[name@],
                None => !self@.contains_key(name@),
            },
    {
        proof {
            use_type_invariant(self);
        }
        let mut i: usize = 0;
        while i < self.entries.len()
            invariant
                0 <= i <= self.entries@.len(),
                entry_keys(self.entries@).no_duplicates(),
                forall|j: int| 0 <= j < i ==> self.entries@[j].0@ != name@,
            decreases self.entries@.len() - i,
        {
            if str_eq(self.entries[i].0.as_str(), name) {
                proof {
                    let s = self.entries@;
                    assert(entry_keys(s)[i as int] == name@);
                    lemma_value_at(s, i as int);
                }
                return Some(&self.entries[i].1);
            }
            i = i + 1;
        }
        proof {
            let keys = entry_keys(self.entries@);
            if keys.contains(name@) {
                let k = choose|k: int| 0 <= k < keys.len() && keys[k] == name@;
                assert(self.entries@[k].0@ == name@);
            }
        }
        None
    }

    /// Sets the value of `name`, replacing the one it had.
    pub fn insert(&mut self, name: String, value: V)
        ensures
            final(self)@ == old(self)@.insert(name@, value@),
    {
        proof {
            use_type_invariant(&*self);
        }
        let ghost before = self.entries@;
        let ghost k = name@;
        let ghost v = value@;
        let mut entries: Vec<(String, V)> = Vec::new();
        std::mem::swap(&mut entries, &mut self.entries);
        let mut i: usize = 0;
        let mut found: Option<usize> = None;
        while i < entries.len()
            invariant
                0 <= i <= entries@.len(),
                entries@ == before,
                entry_keys(before).no_duplicates(),
                found is None ==> forall|j: int| 0 <= j < i ==> before[j].0@ != k,
                found matches Some(p) ==> p < before.len() && before[p as int].0@ == k,
                k == name@,
            decreases entries@.len() - i,
        {
            if found.is_none() && str_eq(entries[i].0.as_str(), name.as_str()) {
                found = Some(i);
            }
            i = i + 1;
        }
        match found {
            Some(p) => {
                entries.set(p, (name, value));
                proof {
                    let s = entries@;
                    let keys = entry_keys(before);
                    assert(entry_keys(s) =~= keys);
                    assert forall|key: Seq<char>| #[trigger] entries_view(s).contains_key(key)
                        == entries_view(before).insert(k, v).contains_key(key) by {
                        if key == k {
                            assert(keys[p as int] == k);
                        }
                    }
                    assert forall|key: Seq<char>| entries_view(s).contains_key(key) implies
                        #[trigger] entries_view(s)[key] == entries_view(before).insert(k, v)[key] by {
                        let a = choose|a: int| 0 <= a < keys.len() && keys[a] == key;
                        assert(s[a].0@ == key);
                        lemma_value_at(s, a);
                        if key == k {
                            if a != p {
                                assert(keys[a] != keys[p as int]);
                            }
                        } else {
                            assert(s[a] == before[a]);
                            lemma_value_at(before, a);
                        }
                    }
                    assert(entries_view(s) =~= entries_view(before).insert(k, v));
                }
            },
            None => {
                entries.push((name, value));
                proof {
                    let s = entries@;
                    let keys = entry_keys(s);
                    let bkeys = entry_keys(before);
                    assert(keys =~= bkeys.push(k));
                    assert(keys.no_duplicates()) by {
                        assert forall|a: int, b: int|
                            0 <= a < keys.len() && 0 <= b < keys.len() && a != b
                            implies keys[a] != keys[b] by {
                            if a == keys.len() - 1 {
                                assert(keys[b] == before[b].0@);
                            } else if b == keys.len() - 1 {
                                assert(keys[a] == before[a].0@);
                            } else {
                                assert(keys[a] == bkeys[a] && keys[b] == bkeys[b]);
                            }
                        }
                    }
                    assert forall|key: Seq<char>| #[trigger] entries_view(s).contains_key(key)
                        == entries_view(before).insert(k, v).contains_key(key) by {
                        if bkeys.contains(key) {
                            let b = choose|b: int| 0 <= b < bkeys.len() && bkeys[b] == key;
                            assert(keys[b] == key);
                        }
                        if keys.contains(key) && key != k {
                            let a = choose|a: int| 0 <= a < keys.len() && keys[a] == key;
                            assert(a != keys.len() - 1);
                            assert(bkeys[a] == key);
                        }
                        if key == k {
                            assert(keys[keys.len() - 1] == k);
                        }
                    }
                    assert forall|key: Seq<char>| entries_view(s).contains_key(key) implies
                        #[trigger] entries_view(s)[key] == entries_view(before).insert(k, v)[key] by {
                        let a = choose|a: int| 0 <= a < keys.len() && keys[a] == key;
                        assert(s[a].0@ == key);
                        lemma_value_at(s, a);
                        if key != k {
                            assert(a != keys.len() - 1);
                            assert(s[a] == before[a]);
                            lemma_value_at(before, a);
                        } else if a != keys.len() - 1 {
                            assert(keys[a] != keys[keys.len() - 1]);
                        }
                    }
                    assert(entries_view(s) =~= entries_view(before).insert(k, v));
                }
            },
        }
        self.entries = entries;
    }
}

}
