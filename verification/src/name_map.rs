//! A name-keyed collection of values. The document graph stores symbols,
//! components, variants and whole libraries under unique string names; this
//! collection is its backing store, and its abstract value is the map from
//! key views to value views.

use vstd::prelude::*;

verus! {

/// One key-value pair of a `NameMap`.
#[derive(Debug, PartialEq)]
struct MapEntry<V> {
    key: String,
    value: V,
}

/// A name-keyed collection of values with pairwise distinct keys.
#[derive(Debug, PartialEq)]
pub struct NameMap<V> {
    entries: Vec<MapEntry<V>>,
}

/// True when no two entries share a key.
spec fn unique_keys<V>(s: Seq<MapEntry<V>>) -> bool {
    forall|i: int, j: int|
        0 <= i < j < s.len() ==> s[i].key@ != s[j].key@
}

/// The map described by a sequence of entries; later entries win.
spec fn assoc_map<V: View>(s: Seq<MapEntry<V>>) -> Map<Seq<char>, V::V>
    decreases s.len(),
{
    if s.len() == 0 {
        Map::empty()
    } else {
        assoc_map(s.drop_last()).insert(s.last().key@, s.last().value@)
    }
}

/// The described map holds a key exactly when some entry holds it.
proof fn lemma_assoc_contains<V: View>(s: Seq<MapEntry<V>>, k: Seq<char>)
    ensures
        assoc_map(s).contains_key(k) <==> exists|i: int| 0 <= i < s.len() && s[i].key@ == k,
    decreases s.len(),
{
    if s.len() > 0 {
        lemma_assoc_contains(s.drop_last(), k);
        if s.last().key@ == k {
            assert(s[s.len() - 1].key@ == k);
        } else {
            if assoc_map(s).contains_key(k) {
                let i = choose|i: int| 0 <= i < s.drop_last().len() && s.drop_last()[i].key@ == k;
                assert(s[i].key@ == k);
            }
            if exists|i: int| 0 <= i < s.len() && s[i].key@ == k {
                let i = choose|i: int| 0 <= i < s.len() && s[i].key@ == k;
                assert(s.drop_last()[i].key@ == k);
            }
        }
    }
}

/// Under unique keys, each entry is found in the described map.
proof fn lemma_assoc_index<V: View>(s: Seq<MapEntry<V>>, i: int)
    requires
        unique_keys(s),
        0 <= i < s.len(),
    ensures
        assoc_map(s).contains_key(s[i].key@),
        assoc_map(s)[s[i].key@] == s[i].value@,
    decreases s.len(),
{
    if i < s.len() - 1 {
        assert(s.drop_last()[i] == s[i]);
        lemma_assoc_index(s.drop_last(), i);
        assert(s[i].key@ != s.last().key@);
    }
}

/// Under unique keys, removing the entry that holds a key removes the key.
proof fn lemma_assoc_remove<V: View>(s: Seq<MapEntry<V>>, i: int)
    requires
        unique_keys(s),
        0 <= i < s.len(),
    ensures
        assoc_map(s.remove(i)) =~= assoc_map(s).remove(s[i].key@),
    decreases s.len(),
{
    let k = s[i].key@;
    if i == s.len() - 1 {
        assert(s.remove(i) =~= s.drop_last());
        lemma_assoc_contains(s.drop_last(), k);
        assert(!assoc_map(s.drop_last()).contains_key(k));
    } else {
        let t = s.remove(i);
        assert(t.drop_last() =~= s.drop_last().remove(i));
        assert(t.last() == s.last());
        lemma_assoc_remove(s.drop_last(), i);
        assert(s.drop_last()[i] == s[i]);
    }
}

/// A sequence with one entry removed keeps its keys pairwise distinct.
proof fn lemma_unique_remove<V>(s: Seq<MapEntry<V>>, i: int)
    requires
        unique_keys(s),
        0 <= i < s.len(),
    ensures
        unique_keys(s.remove(i)),
{
    let t = s.remove(i);
    assert forall|a: int, b: int| 0 <= a < b < t.len() implies t[a].key@ != t[b].key@ by {
        let a0 = if a < i { a } else { a + 1 };
        let b0 = if b < i { b } else { b + 1 };
        assert(t[a] == s[a0] && t[b] == s[b0]);
    }
}

impl<V: View> View for NameMap<V> {
    type V = Map<Seq<char>, V::V>;

    closed spec fn view(&self) -> Map<Seq<char>, V::V> {
        assoc_map(self.entries@)
    }
}

impl<V> NameMap<V> {
    #[verifier::type_invariant]
    spec fn wf(self) -> bool {
        unique_keys(self.entries@)
    }
}

impl<V: View> NameMap<V> {
    /// An empty collection.
    pub fn new() -> (r: Self)
        ensures
            r@ == Map::<Seq<char>, V::V>::empty(),
    {
        NameMap { entries: Vec::new() }
    }

    /// The number of entries.
    pub fn len(&self) -> (r: usize)
        ensures
            r == self@.dom().len(),
    {
        proof {
            use_type_invariant(&*self);
            lemma_assoc_len(self.entries@);
        }
        self.entries.len()
    }

    /// Whether a value is stored under the name.
    pub fn contains_key(&self, name: &String) -> (r: bool)
        ensures
            r == self@.contains_key(name@),
    {
        self.get(name).is_some()
    }

    /// The value stored under the name, if any.
    pub fn get(&self, name: &String) -> (r: Option<&V>)
        ensures
            match r {
                Some(v) => self@.contains_key(name@) && v@ == self@[name@],
                None => !self@.contains_key(name@),
            },
    {
        proof {
            use_type_invariant(&*self);
        }
        let n = self.entries.len();
        let mut i: usize = 0;
        while i < n
            invariant
                n == self.entries@.len(),
                unique_keys(self.entries@),
                0 <= i <= n,
                forall|j: int| 0 <= j < i ==> self.entries@[j].key@ != name@,
            decreases n - i,
        {
            if self.entries[i].key == *name {
                proof {
                    lemma_assoc_index(self.entries@, i as int);
                }
                return Some(&self.entries[i].value);
            }
            i = i + 1;
        }
        proof {
            lemma_assoc_contains(self.entries@, name@);
        }
        None
    }

    /// Store a value under a name, replacing any previous value there.
    pub fn insert(&mut self, name: String, value: V)
        ensures
            final(self)@ == old(self)@.insert(name@, value@),
    {
        proof {
            use_type_invariant(&*self);
        }
        let ghost m0 = self@;
        let _ = self.remove(&name);
        proof {
            use_type_invariant(&*self);
            assert(self@ =~= m0.remove(name@));
        }
        let ghost s1 = self.entries@;
        let mut entries = Vec::new();
        std::mem::swap(&mut entries, &mut self.entries);
        entries.push(MapEntry { key: name, value });
        proof {
            lemma_assoc_contains(s1, entries@.last().key@);
            assert(unique_keys(entries@));
            assert(entries@.drop_last() =~= s1);
        }
        self.entries = entries;
        proof {
            assert(self@ =~= old(self)@.insert(entries@.last().key@, entries@.last().value@));
        }
    }

    /// Take the value stored under a name out of the collection.
    pub fn remove(&mut self, name: &String) -> (r: Option<V>)
        ensures
            final(self)@ == old(self)@.remove(name@),
            match r {
                Some(v) => old(self)@.contains_key(name@) && v@ == old(self)@[name@],
                None => !old(self)@.contains_key(name@) && final(self)@ == old(self)@,
            },
    {
        proof {
            use_type_invariant(&*self);
        }
        let ghost s0 = self.entries@;
        let n = self.entries.len();
        let mut i: usize = 0;
        while i < n
            invariant
                n == self.entries@.len(),
                unique_keys(s0),
                0 <= i <= n,
                self.entries@ == s0,
                old(self).entries@ == s0,
                forall|j: int| 0 <= j < i ==> self.entries@[j].key@ != name@,
            decreases n - i,
        {
            if self.entries[i].key == *name {
                proof {
                    lemma_assoc_index(s0, i as int);
                    lemma_assoc_remove(s0, i as int);
                    lemma_unique_remove(s0, i as int);
                }
                let mut entries = Vec::new();
                std::mem::swap(&mut entries, &mut self.entries);
                let e = entries.remove(i);
                proof {
                    assert(e == s0[i as int]);
                }
                self.entries = entries;
                proof {
                    assert(self.entries@ =~= s0.remove(i as int));
                    assert(self@ =~= old(self)@.remove(name@));
                }
                return Some(e.value);
            }
            i = i + 1;
        }
        proof {
            lemma_assoc_contains(s0, name@);
            assert(self@ =~= self@.remove(name@));
        }
        None
    }

    /// The name and value of one entry, by position. The order of positions
    /// is not part of the collection's abstract value.
    pub fn entry_at(&self, i: usize) -> (r: (&String, &V))
        requires
            i < self@.dom().len(),
        ensures
            self@.contains_key(r.0@),
            r.1@ == self@[r.0@],
    {
        proof {
            use_type_invariant(&*self);
            lemma_assoc_len(self.entries@);
            lemma_assoc_index(self.entries@, i as int);
        }
        let e = &self.entries[i];
        (&e.key, &e.value)
    }
}

/// Under unique keys, the described map has one key for each entry.
proof fn lemma_assoc_len<V: View>(s: Seq<MapEntry<V>>)
    requires
        unique_keys(s),
    ensures
        assoc_map(s).dom().finite(),
        assoc_map(s).dom().len() == s.len(),
    decreases s.len(),
{
    if s.len() > 0 {
        lemma_assoc_len(s.drop_last());
        lemma_assoc_contains(s.drop_last(), s.last().key@);
        assert(!assoc_map(s.drop_last()).contains_key(s.last().key@));
        assert(assoc_map(s).dom() =~= assoc_map(s.drop_last()).dom().insert(s.last().key@));
        vstd::set::axiom_set_insert_finite(assoc_map(s.drop_last()).dom(), s.last().key@);
        vstd::set::axiom_set_insert_len(assoc_map(s.drop_last()).dom(), s.last().key@);
    }
}

} // verus!
