//! A small map from names to lists of names, used by the completion cache
//! (table name -> column names, database name -> table names).
//!
//! Its contents are a `Map<Seq<char>, Seq<Seq<char>>>`: an entry written
//! later for the same key replaces the earlier one.
use vstd::prelude::*;

use crate::text::{names_view, str_eq};

verus! {

/// The map described by a list of entries, later entries winning.
pub open spec fn entries_map(e: Seq<(String, Vec<String>)>) -> Map<Seq<char>, Seq<Seq<char>>>
    decreases e.len(),
{
    if e.len() == 0 {
        Map::empty()
    } else {
        entries_map(e.drop_last()).insert(e.last().0@, names_view(e.last().1@))
    }
}

/// Names mapped to lists of names.
pub struct NameMap {
    entries: Vec<(String, Vec<String>)>,
}

impl View for NameMap {
    type V = Map<Seq<char>, Seq<Seq<char>>>;

    closed spec fn view(&self) -> Map<Seq<char>, Seq<Seq<char>>> {
        entries_map(self.entries@)
    }
}

/// Every key of `entries_map(e)` is the key of an entry, and every entry's key is one.
proof fn lemma_entries_map_dom(e: Seq<(String, Vec<String>)>, k: Seq<char>)
    ensures
        entries_map(e).dom().contains(k) <==> exists|i: int| 0 <= i < e.len() && (#[trigger] e[i]).0@ == k,
    decreases e.len(),
{
    if e.len() > 0 {
        lemma_entries_map_dom(e.drop_last(), k);
        if entries_map(e).dom().contains(k) && e.last().0@ != k {
            let i = choose|i: int| 0 <= i < e.len() - 1 && (#[trigger] e.drop_last()[i]).0@ == k;
            assert(e[i] == e.drop_last()[i]);
        }
        if exists|i: int| 0 <= i < e.len() && (#[trigger] e[i]).0@ == k {
            let i = choose|i: int| 0 <= i < e.len() && (#[trigger] e[i]).0@ == k;
            if i < e.len() - 1 {
                assert(e.drop_last()[i] == e[i]);
            }
        }
    }
}

/// Replacing the value of the last entry with key `k` is an insert.
proof fn lemma_entries_map_update(e: Seq<(String, Vec<String>)>, i: int, v: Vec<String>)
    requires
        0 <= i < e.len(),
        forall|j: int| i < j < e.len() ==> (#[trigger] e[j]).0@ != e[i].0@,
    ensures
        entries_map(e.update(i, (e[i].0, v))) =~= entries_map(e).insert(e[i].0@, names_view(v@)),
    decreases e.len(),
{
    let u = e.update(i, (e[i].0, v));
    if i == e.len() - 1 {
        assert(u.drop_last() =~= e.drop_last());
    } else {
        assert(u.drop_last() =~= e.drop_last().update(i, (e[i].0, v)));
        assert forall|j: int| i < j < e.drop_last().len() implies (#[trigger] e.drop_last()[j]).0@
            != e.drop_last()[i].0@ by {
            assert(e.drop_last()[j] == e[j]);
        }
        lemma_entries_map_update(e.drop_last(), i, v);
        assert(e.last().0@ != e[i].0@);
    }
}

/// A lookup from the back: the last entry with key `k`.
proof fn lemma_entries_map_last(e: Seq<(String, Vec<String>)>, i: int)
    requires
        0 <= i < e.len(),
        forall|j: int| i < j < e.len() ==> (#[trigger] e[j]).0@ != e[i].0@,
    ensures
        entries_map(e).dom().contains(e[i].0@),
        entries_map(e)[e[i].0@] == names_view(e[i].1@),
    decreases e.len(),
{
    if i < e.len() - 1 {
        assert forall|j: int| i < j < e.drop_last().len() implies (#[trigger] e.drop_last()[j]).0@
            != e.drop_last()[i].0@ by {
            assert(e.drop_last()[j] == e[j]);
        }
        lemma_entries_map_last(e.drop_last(), i);
    }
}

impl NameMap {
    /// An empty map.
    pub fn new() -> (m: Self)
        ensures
            m@ == Map::<Seq<char>, Seq<Seq<char>>>::empty(),
    {
        NameMap { entries: Vec::new() }
    }

    /// The index of the last entry whose key is `key`.
    fn find_last(&self, key: &str) -> (r: Option<usize>)
        ensures
            r matches Some(i) ==> i < self.entries@.len() && self.entries@[i as int].0@ == key@
                && forall|j: int| i < j < self.entries@.len() ==> (#[trigger] self.entries@[j]).0@
                != key@,
            r is None ==> forall|j: int| 0 <= j < self.entries@.len() ==> (
            #[trigger] self.entries@[j]).0@ != key@,
    {
        let mut n = self.entries.len();
        while n > 0
            invariant
                n <= self.entries@.len(),
                forall|j: int| n <= j < self.entries@.len() ==> (#[trigger] self.entries@[j]).0@
                    != key@,
            decreases n,
        {
            if str_eq(self.entries[n - 1].0.as_str(), key) {
                return Some(n - 1);
            }
            n = n - 1;
        }
        None
    }

    /// Sets the list for `key`, replacing any earlier one.
    pub fn insert(&mut self, key: String, value: Vec<String>)
        ensures
            final(self)@ == old(self)@.insert(key@, names_view(value@)),
    {
        match self.find_last(key.as_str()) {
            Some(i) => {
                proof {
                    lemma_entries_map_update(self.entries@, i as int, value);
                }
                let k = self.entries[i].0.clone();
                self.entries.set(i, (k, value));
                proof {
                    assert(self.entries@ =~= old(self).entries@.update(
                        i as int,
                        (old(self).entries@[i as int].0, value),
                    ));
                }
            },
            None => {
                self.entries.push((key, value));
                proof {
                    assert(self.entries@.drop_last() =~= old(self).entries@);
                }
            },
        }
    }

    /// The list stored for `key`, if any.
    pub fn get(&self, key: &str) -> (r: Option<&Vec<String>>)
        ensures
            r is Some <==> self@.dom().contains(key@),
            r matches Some(v) ==> names_view(v@) == self@[key@],
    {
        proof {
            lemma_entries_map_dom(self.entries@, key@);
        }
        match self.find_last(key) {
            Some(i) => {
                proof {
                    lemma_entries_map_last(self.entries@, i as int);
                }
                Some(&self.entries[i].1)
            },
            None => None,
        }
    }

    /// Whether a list is stored for `key`.
    pub fn contains_key(&self, key: &str) -> (r: bool)
        ensures
            r == self@.dom().contains(key@),
    {
        proof {
            lemma_entries_map_dom(self.entries@, key@);
        }
        self.find_last(key).is_some()
    }

    /// Whether nothing is stored.
    pub fn is_empty(&self) -> (r: bool)
        ensures
            r == (self@.dom() =~= Set::<Seq<char>>::empty()),
    {
        if self.entries.len() == 0 {
            assert(self@ =~= Map::<Seq<char>, Seq<Seq<char>>>::empty());
            true
        } else {
            let ghost k = self.entries@.last().0@;
            proof {
                lemma_entries_map_dom(self.entries@, k);
                assert(self.entries@[self.entries@.len() - 1].0@ == k);
                assert(self@.dom().contains(k));
            }
            false
        }
    }
}

/// What a lookup gives back after an insert: the value just stored for
/// that key, and for any other key what it gave before.
pub proof fn law_get_after_insert(before: NameMap, after: NameMap, k: Seq<char>, v: Seq<Seq<char>>, other: Seq<char>)
    requires
        after@ == before@.insert(k, v),
        other != k,
    ensures
        after@.dom().contains(k),
        after@[k] == v,
        after@.dom().contains(other) == before@.dom().contains(other),
        before@.dom().contains(other) ==> after@[other] == before@[other],
{
}

} // verus!
