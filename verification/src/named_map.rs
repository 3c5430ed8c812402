//! A string-keyed map that keeps each key once, in insertion order.
use vstd::prelude::*;

use crate::text::str_eq;

verus! {

/// Values that can be copied into an equal value.
pub trait Duplicate: Sized {
    fn duplicate(&self) -> (r: Self)
        ensures
            r == *self,
    ;
}

impl Duplicate for String {
    fn duplicate(&self) -> (r: String) {
        self.clone()
    }
}

/// The map that a list of entries denotes; a later entry for a key wins.
pub open spec fn entries_map<V>(s: Seq<(String, V)>) -> Map<Seq<char>, V>
    decreases s.len(),
{
    if s.len() == 0 {
        Map::empty()
    } else {
        entries_map(s.drop_last()).insert(s.last().0@, s.last().1)
    }
}

/// No key occurs twice among the entries.
pub open spec fn keys_distinct<V>(s: Seq<(String, V)>) -> bool {
    forall|i: int, j: int| 0 <= i < j < s.len() ==> s[i].0@ != s[j].0@
}

/// A map from names to values, keyed by the characters of the name.
pub struct NamedMap<V> {
    entries: Vec<(String, V)>,
}

/// Each key of the entries is in the map, bound to its entry's value; no other key is.
pub proof fn lemma_entries_map<V>(s: Seq<(String, V)>)
    requires
        keys_distinct(s),
    ensures
        forall|k: Seq<char>|
            #[trigger] entries_map(s).contains_key(k) <==> exists|i: int| 0 <= i < s.len() && s[i].0@ == k,
        forall|i: int| 0 <= i < s.len() ==> #[trigger] entries_map(s)[s[i].0@] == s[i].1,
        entries_map(s).dom().finite(),
        entries_map(s).dom().len() == s.len(),
    decreases s.len(),
{
    if s.len() > 0 {
        let t = s.drop_last();
        assert(keys_distinct(t));
        lemma_entries_map(t);
        let n = s.len() - 1;
        assert(!entries_map(t).contains_key(s[n].0@)) by {
            if entries_map(t).contains_key(s[n].0@) {
                let i = choose|i: int| 0 <= i < t.len() && t[i].0@ == s[n].0@;
                assert(s[i].0@ == s[n].0@);
            }
        }
        assert forall|k: Seq<char>|
            #[trigger] entries_map(s).contains_key(k) <==> exists|i: int| 0 <= i < s.len() && s[i].0@ == k by {
            if entries_map(t).contains_key(k) {
                let i = choose|i: int| 0 <= i < t.len() && t[i].0@ == k;
                assert(s[i].0@ == k);
            }
            if exists|i: int| 0 <= i < s.len() && s[i].0@ == k {
                let i = choose|i: int| 0 <= i < s.len() && s[i].0@ == k;
                if i < n {
                    assert(t[i].0@ == k);
                }
            }
        }
        assert forall|i: int| 0 <= i < s.len() implies #[trigger] entries_map(s)[s[i].0@] == s[i].1 by {
            if i < n {
                assert(t[i] == s[i]);
                assert(s[i].0@ != s[n].0@);
            }
        }
    }
}

impl<V> View for NamedMap<V> {
    type V = Map<Seq<char>, V>;

    closed spec fn view(&self) -> Map<Seq<char>, V> {
        entries_map(self.entries@)
    }
}

impl<V> NamedMap<V> {
    #[verifier::type_invariant]
    spec fn inv(self) -> bool {
        keys_distinct(self.entries@)
    }

    /// An empty map.
    pub fn new() -> (r: Self)
        ensures
            r@ == Map::<Seq<char>, V>::empty(),
    {
        NamedMap { entries: Vec::new() }
    }

    /// Number of keys.
    pub fn len(&self) -> (r: usize)
        ensures
            r == self@.dom().len(),
    {
        proof {
            use_type_invariant(self);
            lemma_entries_map(self.entries@);
        }
        self.entries.len()
    }

    /// The entries, each key once, in insertion order.
    pub fn entries(&self) -> (r: &Vec<(String, V)>)
        ensures
            keys_distinct(r@),
            entries_map(r@) == self@,
    {
        proof {
            use_type_invariant(self);
        }
        &self.entries
    }

    fn find(&self, key: &str) -> (r: Option<usize>)
        ensures
            match r {
                Some(i) => i < self.entries@.len() && self.entries@[i as int].0@ == key@,
                None => forall|i: int| 0 <= i < self.entries@.len() ==> self.entries@[i].0@ != key@,
            },
    {
        let mut i: usize = 0;
        while i < self.entries.len()
            invariant
                i <= self.entries@.len(),
                forall|j: int| 0 <= j < i ==> self.entries@[j].0@ != key@,
            decreases self.entries@.len() - i,
        {
            if str_eq(self.entries[i].0.as_str(), key) {
                return Some(i);
            }
            i = i + 1;
        }
        None
    }

    /// The value bound to `key`, if any.
    pub fn get(&self, key: &str) -> (r: Option<&V>)
        ensures
            match r {
                Some(v) => self@.contains_key(key@) && *v == self@[key@],
                None => !self@.contains_key(key@),
            },
    {
        proof {
            use_type_invariant(self);
            lemma_entries_map(self.entries@);
        }
        match self.find(key) {
            Some(i) => Some(&self.entries[i].1),
            None => None,
        }
    }

    /// Binds `key` to `value`, replacing an earlier binding of the key.
    pub fn insert(&mut self, key: String, value: V)
        ensures
            final(self)@ == old(self)@.insert(key@, value),
    {
        proof {
            use_type_invariant(&*self);
            lemma_entries_map(self.entries@);
        }
        let ghost k = key@;
        let ghost v = value;
        let ghost old_map = self@;
        match self.find(key.as_str()) {
            Some(i) => {
                let ghost before = self.entries@;
                let mut entries: Vec<(String, V)> = Vec::new();
                std::mem::swap(&mut entries, &mut self.entries);
                entries.set(i, (key, value));
                let ghost after = entries@;
                assert(keys_distinct(after)) by {
                    assert forall|a: int, b: int| 0 <= a < b < after.len() implies after[a].0@ != after[b].0@ by {
                        assert(before[a].0@ != before[b].0@);
                    }
                }
                proof {
                    lemma_entries_map(after);
                    assert(after[i as int].0@ == k);
                    assert(entries_map(after).contains_key(k));
                    assert forall|kk: Seq<char>| #[trigger] entries_map(after).contains_key(kk) <==> old_map.insert(k, v).contains_key(kk) by {
                        if old_map.contains_key(kk) && kk != k {
                            let j = choose|j: int| 0 <= j < before.len() && before[j].0@ == kk;
                            assert(after[j].0@ == kk);
                        }
                        if entries_map(after).contains_key(kk) && kk != k {
                            let j = choose|j: int| 0 <= j < after.len() && after[j].0@ == kk;
                            assert(before[j].0@ == kk);
                        }
                    }
                    assert forall|kk: Seq<char>| #[trigger] entries_map(after).contains_key(kk) implies entries_map(after)[kk] == old_map.insert(k, v)[kk] by {
                        let j = choose|j: int| 0 <= j < after.len() && after[j].0@ == kk;
                        assert(entries_map(after)[after[j].0@] == after[j].1);
                        if j != i {
                            assert(old_map[before[j].0@] == before[j].1);
                        }
                    }
                    assert(entries_map(after) =~= old_map.insert(k, v));
                }
                self.entries = entries;
            },
            None => {
                let ghost before = self.entries@;
                let mut entries: Vec<(String, V)> = Vec::new();
                std::mem::swap(&mut entries, &mut self.entries);
                entries.push((key, value));
                assert(entries@.drop_last() =~= before);
                assert(keys_distinct(entries@)) by {
                    assert forall|a: int, b: int| 0 <= a < b < entries@.len() implies entries@[a].0@ != entries@[b].0@ by {
                        if b < before.len() {
                            assert(before[a].0@ != before[b].0@);
                        }
                    }
                }
                self.entries = entries;
            },
        }
    }

    /// Binds every key of `other` to its value there, overriding this map's bindings.
    pub fn extend_from(&mut self, other: &NamedMap<V>) where V: Duplicate
        ensures
            final(self)@ == old(self)@.union_prefer_right(other@),
    {
        proof {
            use_type_invariant(other);
        }
        let ghost start = self@;
        let ghost src = other.entries@;
        let mut i: usize = 0;
        assert(entries_map(src.take(0)) =~= Map::<Seq<char>, V>::empty());
        assert(start.union_prefer_right(Map::<Seq<char>, V>::empty()) =~= start);
        while i < other.entries.len()
            invariant
                src == other.entries@,
                i <= src.len(),
                self@ == start.union_prefer_right(entries_map(src.take(i as int))),
            decreases src.len() - i,
        {
            let key = other.entries[i].0.clone();
            let value = other.entries[i].1.duplicate();
            let ghost before = self@;
            self.insert(key, value);
            proof {
                assert(src.take(i + 1).drop_last() =~= src.take(i as int));
                assert(src.take(i + 1).last() == src[i as int]);
                assert(self@ =~= start.union_prefer_right(entries_map(src.take(i + 1))));
            }
            i = i + 1;
        }
        assert(src.take(src.len() as int) =~= src);
    }
}

} // verus!
