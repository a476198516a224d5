//! A map from texts to values, kept as a list without repeated keys.

use vstd::prelude::*;

use crate::text::same;

verus! {

/// The keys of `entries` are pairwise different.
pub open spec fn keys_differ<V>(entries: Seq<(String, V)>) -> bool {
    forall|i: int, j: int|
        0 <= i < j < entries.len() ==> (#[trigger] entries[i]).0@ != (#[trigger] entries[j]).0@
}

/// The map that a list of entries with different keys describes.
pub open spec fn map_of<V>(entries: Seq<(String, V)>) -> Map<Seq<char>, V> {
    Map::new(
        |k: Seq<char>| exists|i: int| 0 <= i < entries.len() && (#[trigger] entries[i]).0@ == k,
        |k: Seq<char>|
            entries[choose|i: int| 0 <= i < entries.len() && (#[trigger] entries[i]).0@ == k].1,
    )
}

pub proof fn lemma_map_of_entry<V>(entries: Seq<(String, V)>, i: int)
    requires
        keys_differ(entries),
        0 <= i < entries.len(),
    ensures
        map_of(entries).contains_key(entries[i].0@),
        map_of(entries)[entries[i].0@] == entries[i].1,
{
    let k = entries[i].0@;
    let c = choose|c: int| 0 <= c < entries.len() && (#[trigger] entries[c]).0@ == k;
    assert(entries[i].0@ == k);
    assert(c == i);
}

pub struct Table<V> {
    entries: Vec<(String, V)>,
}

impl<V> View for Table<V> {
    type V = Map<Seq<char>, V>;

    closed spec fn view(&self) -> Map<Seq<char>, V> {
        map_of(self.entries@)
    }
}

impl<V: DeepView> DeepView for Table<V> {
    type V = Map<Seq<char>, V::V>;

    open spec fn deep_view(&self) -> Map<Seq<char>, V::V> {
        self@.map_values(|v: V| v.deep_view())
    }
}

impl<V> Table<V> {
    #[verifier::type_invariant]
    spec fn wf(self) -> bool {
        keys_differ(self.entries@)
    }

    /// The entries, in the order in which the table keeps them.
    pub closed spec fn listing(self) -> Seq<(String, V)> {
        self.entries@
    }

    pub fn new() -> (r: Self)
        ensures
            r@ == Map::<Seq<char>, V>::empty(),
            r.listing() == Seq::<(String, V)>::empty(),
    {
        let r = Table { entries: Vec::new() };
        assert(map_of(r.entries@) =~= Map::<Seq<char>, V>::empty());
        r
    }

    /// All entries: each key once.
    pub fn entries(&self) -> (r: &Vec<(String, V)>)
        ensures
            r@ == self.listing(),
            keys_differ(r@),
            map_of(r@) == self@,
    {
        proof {
            use_type_invariant(self);
        }
        &self.entries
    }

    /// The position of `key`, if it has an entry.
    fn position(&self, key: &str) -> (r: Option<usize>)
        ensures
            match r {
                Some(i) => i < self.entries@.len() && self.entries@[i as int].0@ == key@
                    && self@.contains_key(key@) && self@[key@] == self.entries@[i as int].1,
                None => !self@.contains_key(key@) && forall|j: int|
                    0 <= j < self.entries@.len() ==> (#[trigger] self.entries@[j]).0@ != key@,
            },
    {
        proof {
            use_type_invariant(self);
        }
        let mut i: usize = 0;
        while i < self.entries.len()
            invariant
                keys_differ(self.entries@),
                i <= self.entries@.len(),
                forall|j: int| 0 <= j < i ==> (#[trigger] self.entries@[j]).0@ != key@,
            decreases self.entries@.len() - i,
        {
            if same(self.entries[i].0.as_str(), key) {
                proof {
                    lemma_map_of_entry(self.entries@, i as int);
                }
                return Some(i);
            }
            i += 1;
        }
        None
    }

    pub fn get(&self, key: &str) -> (r: Option<&V>)
        ensures
            r == if self@.contains_key(key@) {
                Some(&self@[key@])
            } else {
                None
            },
    {
        match self.position(key) {
            Some(i) => Some(&self.entries[i].1),
            None => None,
        }
    }

    pub fn insert(&mut self, key: String, value: V)
        ensures
            final(self)@ == old(self)@.insert(key@, value),
    {
        let ghost before = self.entries@;
        let ghost k = key@;
        proof {
            use_type_invariant(&*self);
        }
        let at = self.position(key.as_str());
        let mut entries: Vec<(String, V)> = Vec::new();
        std::mem::swap(&mut entries, &mut self.entries);
        match at {
            Some(i) => {
                entries.set(i, (key, value));
                proof {
                    assert forall|a: int, b: int| 0 <= a < b < entries@.len() implies (
                    #[trigger] entries@[a]).0@ != (#[trigger] entries@[b]).0@ by {
                        assert(entries@[a].0@ == before[a].0@);
                        assert(entries@[b].0@ == before[b].0@);
                    }
                }
            },
            None => {
                entries.push((key, value));
            },
        }
        proof {
            let after = entries@;
            assert(keys_differ(after));
            assert forall|q: Seq<char>| #[trigger]
                map_of(after).contains_key(q) == map_of(before).insert(k, value).contains_key(
                    q,
                ) by {
                if q == k {
                    let i = match at {
                        Some(i) => i as int,
                        None => before.len() as int,
                    };
                    assert(after[i].0@ == k);
                } else {
                    if map_of(before).contains_key(q) {
                        let c = choose|c: int|
                            0 <= c < before.len() && (#[trigger] before[c]).0@ == q;
                        assert(after[c].0@ == q);
                    }
                    if map_of(after).contains_key(q) {
                        let c = choose|c: int| 0 <= c < after.len() && (#[trigger] after[c]).0@ == q;
                        assert(before[c].0@ == q);
                    }
                }
            }
            assert forall|q: Seq<char>| map_of(after).contains_key(q) implies #[trigger] map_of(
                after,
            )[q] == map_of(before).insert(k, value)[q] by {
                let c = choose|c: int| 0 <= c < after.len() && (#[trigger] after[c]).0@ == q;
                lemma_map_of_entry(after, c);
                if q != k {
                    assert(before[c].0@ == q);
                    lemma_map_of_entry(before, c);
                }
            }
            assert(map_of(after) =~= map_of(before).insert(k, value));
        }
        self.entries = entries;
    }

    pub fn remove(&mut self, key: &str)
        ensures
            final(self)@ == old(self)@.remove(key@),
    {
        let ghost before = self.entries@;
        proof {
            use_type_invariant(&*self);
        }
        match self.position(key) {
            Some(i) => {
                let mut entries: Vec<(String, V)> = Vec::new();
                std::mem::swap(&mut entries, &mut self.entries);
                let _gone = entries.remove(i);
                proof {
                    let after = entries@;
                    assert(after == before.remove(i as int));
                    assert forall|a: int, b: int| 0 <= a < b < after.len() implies (
                    #[trigger] after[a]).0@ != (#[trigger] after[b]).0@ by {
                        let x = if a < i { a } else { a + 1 };
                        let y = if b < i { b } else { b + 1 };
                        assert(before[x].0@ != before[y].0@);
                    }
                    assert forall|q: Seq<char>| #[trigger]
                        map_of(after).contains_key(q) == map_of(before).remove(
                            key@,
                        ).contains_key(q) by {
                        if map_of(before).contains_key(q) && q != key@ {
                            let c = choose|c: int|
                                0 <= c < before.len() && (#[trigger] before[c]).0@ == q;
                            let d = if c < i { c } else { c - 1 };
                            assert(after[d].0@ == q);
                        }
                        if map_of(after).contains_key(q) {
                            let d = choose|d: int|
                                0 <= d < after.len() && (#[trigger] after[d]).0@ == q;
                            let c = if d < i { d } else { d + 1 };
                            assert(before[c].0@ == q);
                            assert(before[i as int].0@ == key@);
                        }
                    }
                    assert forall|q: Seq<char>| map_of(after).contains_key(q) implies #[trigger]
                        map_of(after)[q] == map_of(before).remove(key@)[q] by {
                        let d = choose|d: int| 0 <= d < after.len() && (#[trigger] after[d]).0@ == q;
                        let c = if d < i { d } else { d + 1 };
                        lemma_map_of_entry(after, d);
                        lemma_map_of_entry(before, c);
                    }
                    assert(map_of(after) =~= map_of(before).remove(key@));
                }
                self.entries = entries;
            },
            None => {
                assert(self@.remove(key@) =~= self@);
            },
        }
    }
}

} // verus!
