//! A finite map keyed by text.
//!
//! The map is kept as a list of entries in the order in which their keys
//! first arrived, and no two entries share a key. Contracts speak of the map
//! through its view, a `Map` from key text to value, and of the order through
//! `keys`.

use crate::text::same_text;
use vstd::prelude::*;

verus! {

/// The map that a list of pairs denotes when a later pair replaces an earlier
/// one with the same key.
pub open spec fn map_of_pairs<V>(pairs: Seq<(String, V)>) -> Map<Seq<char>, V>
    decreases pairs.len(),
{
    if pairs.len() == 0 {
        Map::empty()
    } else {
        map_of_pairs(pairs.drop_last()).insert(pairs.last().0@, pairs.last().1)
    }
}

/// The keys of a list of pairs in the order in which each first occurs.
pub open spec fn keys_of_pairs<V>(pairs: Seq<(String, V)>) -> Seq<Seq<char>>
    decreases pairs.len(),
{
    if pairs.len() == 0 {
        Seq::empty()
    } else {
        let before = keys_of_pairs(pairs.drop_last());
        if before.contains(pairs.last().0@) {
            before
        } else {
            before.push(pairs.last().0@)
        }
    }
}

/// A finite map from text to `V`.
#[derive(Debug)]
pub struct StringMap<V> {
    entries: Vec<(String, V)>,
}

/// The keys of a list of entries, in the list's order.
spec fn keys_of<V>(entries: Seq<(String, V)>) -> Seq<Seq<char>> {
    entries.map_values(|e: (String, V)| e.0@)
}

/// The map that a list of entries with pairwise different keys stands for.
spec fn view_of<V>(entries: Seq<(String, V)>) -> Map<Seq<char>, V> {
    Map::new(
        |k: Seq<char>| keys_of(entries).contains(k),
        |k: Seq<char>| entries[keys_of(entries).index_of(k)].1,
    )
}

proof fn lemma_entry<V>(entries: Seq<(String, V)>, i: int)
    requires
        keys_of(entries).no_duplicates(),
        0 <= i < entries.len(),
    ensures
        keys_of(entries)[i] == entries[i].0@,
        view_of(entries).contains_key(entries[i].0@),
        view_of(entries)[entries[i].0@] == entries[i].1,
{
    let keys = keys_of(entries);
    let k = entries[i].0@;
    assert(keys[i] == k);
    assert(keys.contains(k));
    let j = keys.index_of(k);
    assert(keys[j] == k);
    assert(j == i);
}

proof fn lemma_structure<V>(entries: Seq<(String, V)>)
    requires
        keys_of(entries).no_duplicates(),
    ensures
        keys_of(entries).len() == entries.len(),
        view_of(entries).dom() =~= keys_of(entries).to_set(),
        view_of(entries).dom().finite(),
        view_of(entries).dom().len() == entries.len(),
        forall|k: Seq<char>|
            keys_of(entries).contains(k) <==> #[trigger] view_of(entries).contains_key(k),
{
    keys_of(entries).unique_seq_to_set();
    vstd::seq_lib::seq_to_set_is_finite(keys_of(entries));
}

impl<V> View for StringMap<V> {
    type V = Map<Seq<char>, V>;

    closed spec fn view(&self) -> Map<Seq<char>, V> {
        view_of(self.entries@)
    }
}

impl<V> StringMap<V> {
    /// The keys in the order of their entries.
    pub closed spec fn keys(&self) -> Seq<Seq<char>> {
        keys_of(self.entries@)
    }

    /// What holds of every map: no two entries share a key. Where a proof
    /// needs it of a map at hand, `use_type_invariant` gives it.
    #[verifier::type_invariant]
    pub closed spec fn well_formed(&self) -> bool {
        keys_of(self.entries@).no_duplicates()
    }

    /// How the keys and the view of a map relate: the keys are pairwise
    /// different and are exactly the view's domain, which is finite and as
    /// large as there are keys.
    pub proof fn lemma_keys(&self)
        requires
            self.well_formed(),
        ensures
            self.keys().no_duplicates(),
            forall|k: Seq<char>| self.keys().contains(k) <==> #[trigger] self@.contains_key(k),
            self@.dom().finite(),
            self@.dom().len() == self.keys().len(),
            (self@ == Map::<Seq<char>, V>::empty()) == (self.keys().len() == 0),
    {
        lemma_structure(self.entries@);
        if self.entries@.len() == 0 {
            assert(self@ =~= Map::<Seq<char>, V>::empty());
        } else {
            lemma_entry(self.entries@, 0);
        }
    }

    /// An empty map.
    pub fn new() -> (map: Self)
        ensures
            map@ == Map::<Seq<char>, V>::empty(),
            map.keys() == Seq::<Seq<char>>::empty(),
    {
        let map = StringMap { entries: Vec::new() };
        assert(map.keys() =~= Seq::<Seq<char>>::empty());
        assert(map@ =~= Map::<Seq<char>, V>::empty());
        map
    }

    /// The number of entries. The call also tells how `keys` and the view
    /// relate: the keys are pairwise different and are exactly the view's
    /// domain.
    pub fn len(&self) -> (n: usize)
        ensures
            n == self.keys().len(),
            n == self@.dom().len(),
            self@.dom().finite(),
            self.keys().no_duplicates(),
            forall|k: Seq<char>| self.keys().contains(k) <==> #[trigger] self@.contains_key(k),
    {
        proof {
            use_type_invariant(self);
            lemma_structure(self.entries@);
        }
        self.entries.len()
    }

    /// Whether the map has no entry.
    pub fn is_empty(&self) -> (empty: bool)
        ensures
            empty == (self@ == Map::<Seq<char>, V>::empty()),
            empty == (self.keys().len() == 0),
    {
        proof {
            use_type_invariant(self);
            lemma_structure(self.entries@);
            if self.entries@.len() == 0 {
                assert(self@ =~= Map::<Seq<char>, V>::empty());
            } else {
                lemma_entry(self.entries@, 0);
            }
        }
        self.entries.len() == 0
    }

    /// Whether `key` has an entry.
    pub fn contains_key(&self, key: &str) -> (found: bool)
        ensures
            found == self@.contains_key(key@),
    {
        proof {
            use_type_invariant(self);
            lemma_structure(self.entries@);
        }
        match position(&self.entries, key) {
            Some(i) => {
                proof {
                    lemma_entry(self.entries@, i as int);
                }
                true
            },
            None => false,
        }
    }

    /// The value under `key`, if there is one.
    pub fn get(&self, key: &str) -> (value: Option<&V>)
        ensures
            match value {
                Some(v) => self@.contains_key(key@) && *v == self@[key@],
                None => !self@.contains_key(key@),
            },
    {
        proof {
            use_type_invariant(self);
            lemma_structure(self.entries@);
        }
        match position(&self.entries, key) {
            Some(i) => {
                proof {
                    lemma_entry(self.entries@, i as int);
                }
                Some(&self.entries[i].1)
            },
            None => None,
        }
    }

    /// The entry at place `i` in the order of `keys`, if the map has that
    /// many entries.
    pub fn entry(&self, i: usize) -> (at: Option<(&String, &V)>)
        ensures
            match at {
                Some((k, v)) => {
                    &&& i < self.keys().len()
                    &&& k@ == self.keys()[i as int]
                    &&& self@.contains_key(k@)
                    &&& *v == self@[k@]
                },
                None => i >= self.keys().len(),
            },
    {
        proof {
            use_type_invariant(self);
            lemma_structure(self.entries@);
        }
        if i < self.entries.len() {
            proof {
                lemma_entry(self.entries@, i as int);
            }
            Some((&self.entries[i].0, &self.entries[i].1))
        } else {
            None
        }
    }

    /// Puts `value` under `key`. A value already there is replaced and handed
    /// back, and the key keeps its place in the order; a new key goes last.
    pub fn insert(&mut self, key: String, value: V) -> (before: Option<V>)
        ensures
            final(self)@ == old(self)@.insert(key@, value),
            before == if old(self)@.contains_key(key@) {
                Some(old(self)@[key@])
            } else {
                None
            },
            final(self).keys() == if old(self)@.contains_key(key@) {
                old(self).keys()
            } else {
                old(self).keys().push(key@)
            },
    {
        proof {
            use_type_invariant(&*self);
            lemma_structure(self.entries@);
        }
        let ghost was = self.entries@;
        let ghost target = view_of(was).insert(key@, value);
        let mut entries: Vec<(String, V)> = Vec::new();
        core::mem::swap(&mut self.entries, &mut entries);
        let before = match position(&entries, key.as_str()) {
            Some(i) => {
                proof {
                    lemma_entry(was, i as int);
                }
                entries.push((key, value));
                let replaced = entries.swap_remove(i);
                proof {
                    let now = entries@;
                    assert(keys_of(now) =~= keys_of(was));
                    lemma_structure(now);
                    assert forall|k: Seq<char>| #[trigger]
                        view_of(now).contains_key(k) implies view_of(now)[k] == target[k] by {
                        let j = keys_of(now).index_of(k);
                        lemma_entry(now, j);
                        lemma_entry(was, j);
                    }
                    assert(view_of(now) =~= target);
                }
                Some(replaced.1)
            },
            None => {
                entries.push((key, value));
                proof {
                    let now = entries@;
                    assert(keys_of(now) =~= keys_of(was).push(key@));
                    assert(keys_of(now).no_duplicates());
                    lemma_structure(now);
                    assert forall|k: Seq<char>| #[trigger]
                        view_of(now).contains_key(k) implies view_of(now)[k] == target[k] by {
                        let j = keys_of(now).index_of(k);
                        lemma_entry(now, j);
                        if j < was.len() {
                            lemma_entry(was, j);
                        }
                    }
                    assert forall|k: Seq<char>| target.contains_key(k) implies #[trigger] view_of(
                        now,
                    ).contains_key(k) by {
                        if k != key@ {
                            let j = keys_of(was).index_of(k);
                            assert(keys_of(now)[j] == k);
                        } else {
                            assert(keys_of(now)[keys_of(now).len() - 1] == key@);
                        }
                    }
                    assert(view_of(now) =~= target);
                }
                None
            },
        };
        self.entries = entries;
        before
    }

    /// Takes the entry under `key` out, if there is one, and hands its value
    /// back. The other keys keep their order.
    pub fn remove(&mut self, key: &str) -> (taken: Option<V>)
        ensures
            final(self)@ == old(self)@.remove(key@),
            taken == if old(self)@.contains_key(key@) {
                Some(old(self)@[key@])
            } else {
                None
            },
            final(self).keys() == if old(self)@.contains_key(key@) {
                old(self).keys().remove(old(self).keys().index_of(key@))
            } else {
                old(self).keys()
            },
    {
        proof {
            use_type_invariant(&*self);
            lemma_structure(self.entries@);
        }
        let ghost was = self.entries@;
        let ghost target = view_of(was).remove(key@);
        let mut entries: Vec<(String, V)> = Vec::new();
        core::mem::swap(&mut self.entries, &mut entries);
        let taken = match position(&entries, key) {
            Some(i) => {
                proof {
                    lemma_entry(was, i as int);
                }
                let removed = entries.remove(i);
                proof {
                    let now = entries@;
                    assert(keys_of(now) =~= keys_of(was).remove(i as int));
                    assert(keys_of(was).index_of(key@) == i) by {
                        let at = keys_of(was).index_of(key@);
                        assert(keys_of(was)[at] == key@);
                    }
                    assert(keys_of(now).no_duplicates()) by {
                        assert forall|a: int, b: int|
                            0 <= a < keys_of(now).len() && 0 <= b < keys_of(now).len() && a
                                != b implies keys_of(now)[a] != keys_of(now)[b] by {
                            let a0 = if a < i { a } else { a + 1 };
                            let b0 = if b < i { b } else { b + 1 };
                            assert(keys_of(now)[a] == keys_of(was)[a0]);
                            assert(keys_of(now)[b] == keys_of(was)[b0]);
                        }
                    }
                    lemma_structure(now);
                    assert forall|k: Seq<char>| #[trigger]
                        view_of(now).contains_key(k) implies target.contains_key(k) && view_of(
                        now,
                    )[k] == target[k] by {
                        let j = keys_of(now).index_of(k);
                        let j0 = if j < i { j } else { j + 1 };
                        lemma_entry(now, j);
                        lemma_entry(was, j0);
                        assert(keys_of(was)[j0] == k);
                    }
                    assert forall|k: Seq<char>| target.contains_key(k) implies #[trigger] view_of(
                        now,
                    ).contains_key(k) by {
                        let j0 = keys_of(was).index_of(k);
                        let j = if j0 < i { j0 } else { j0 - 1 };
                        assert(keys_of(now)[j] == k);
                    }
                    assert(view_of(now) =~= target);
                }
                Some(removed.1)
            },
            None => {
                proof {
                    assert(view_of(was) =~= target);
                }
                None
            },
        };
        self.entries = entries;
        taken
    }

    /// The map that `pairs` denotes: a later pair replaces the value of an
    /// earlier one with the same key, and the keys stand in the order in
    /// which each first occurs.
    pub fn from_pairs(pairs: Vec<(String, V)>) -> (map: Self)
        ensures
            map@ == map_of_pairs(pairs@),
            map.keys() == keys_of_pairs(pairs@),
    {
        let mut map = StringMap::new();
        let mut rest = pairs;
        let ghost all = rest@;
        let mut reversed: Vec<(String, V)> = Vec::new();
        while rest.len() > 0
            invariant
                rest@.len() + reversed@.len() == all.len(),
                forall|j: int| 0 <= j < rest@.len() ==> rest@[j] == all[j],
                forall|j: int|
                    0 <= j < reversed@.len() ==> reversed@[j] == all[all.len() - 1 - j],
            decreases rest@.len(),
        {
            let last = rest.pop().unwrap();
            reversed.push(last);
        }
        let ghost done: int = 0;
        while reversed.len() > 0
            invariant
                0 <= done <= all.len(),
                reversed@.len() + done == all.len(),
                forall|j: int|
                    0 <= j < reversed@.len() ==> reversed@[j] == all[all.len() - 1 - j],
                map@ == map_of_pairs(all.take(done)),
                map.keys() == keys_of_pairs(all.take(done)),
            decreases reversed@.len(),
        {
            proof {
                use_type_invariant(&map);
                map.lemma_keys();
            }
            let next = reversed.pop().unwrap();
            proof {
                assert(next == all[done]);
                assert(all.take(done + 1).drop_last() =~= all.take(done));
                assert(all.take(done + 1).last() == all[done]);
                done = done + 1;
            }
            map.insert(next.0, next.1);
        }
        assert(all.take(all.len() as int) =~= all);
        map
    }
}

impl<V: Clone> Clone for StringMap<V> {
    /// A map with the same keys in the same order, each value a clone of
    /// the value it stands for.
    fn clone(&self) -> (copy: Self)
        ensures
            copy.keys() == self.keys(),
            copy@.dom() == self@.dom(),
            forall|k: Seq<char>| #[trigger]
                self@.contains_key(k) ==> cloned::<V>(self@[k], copy@[k]),
    {
        proof {
            use_type_invariant(self);
            lemma_structure(self.entries@);
        }
        let mut entries: Vec<(String, V)> = Vec::new();
        let mut i: usize = 0;
        while i < self.entries.len()
            invariant
                i <= self.entries@.len(),
                entries@.len() == i,
                forall|j: int|
                    0 <= j < i ==> (#[trigger] entries@[j]).0@ == self.entries@[j].0@ && cloned::<
                        V,
                    >(self.entries@[j].1, entries@[j].1),
            decreases self.entries@.len() - i,
        {
            let key = self.entries[i].0.clone();
            let value = self.entries[i].1.clone();
            entries.push((key, value));
            i += 1;
        }
        proof {
            assert(keys_of(entries@) =~= keys_of(self.entries@));
            lemma_structure(entries@);
            assert(view_of(entries@).dom() =~= view_of(self.entries@).dom());
            assert forall|k: Seq<char>| #[trigger]
                view_of(self.entries@).contains_key(k) implies cloned::<V>(
                view_of(self.entries@)[k],
                view_of(entries@)[k],
            ) by {
                let j = keys_of(self.entries@).index_of(k);
                lemma_entry(self.entries@, j);
                lemma_entry(entries@, j);
            }
        }
        StringMap { entries }
    }
}

/// The place of the entry under `key`, if the list has one.
fn position<V>(entries: &Vec<(String, V)>, key: &str) -> (at: Option<usize>)
    ensures
        match at {
            Some(i) => i < entries@.len() && entries@[i as int].0@ == key@,
            None => !keys_of(entries@).contains(key@),
        },
{
    let mut i: usize = 0;
    while i < entries.len()
        invariant
            i <= entries@.len(),
            forall|j: int| 0 <= j < i ==> entries@[j].0@ != key@,
        decreases entries@.len() - i,
    {
        if same_text(entries[i].0.as_str(), key) {
            return Some(i);
        }
        i += 1;
    }
    assert(!keys_of(entries@).contains(key@)) by {
        if keys_of(entries@).contains(key@) {
            let j = keys_of(entries@).index_of(key@);
            assert(keys_of(entries@)[j] == entries@[j].0@);
        }
    }
    None
}

} // verus!
