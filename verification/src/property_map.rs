//! A map from property names to values, kept as a list of entries: the shape
//! of a JSON object's members.

use vstd::prelude::*;
use crate::text::str_equals;

verus! {

/// The mapping that a list of entries describes, later entries winning.
pub open spec fn entries_map<V>(s: Seq<(String, V)>) -> Map<Seq<char>, V>
    decreases s.len(),
{
    if s.len() == 0 {
        Map::empty()
    } else {
        entries_map(s.drop_last()).insert(s.last().0@, s.last().1)
    }
}

proof fn lemma_entries_map_absent<V>(s: Seq<(String, V)>, k: Seq<char>)
    requires
        forall|j: int| 0 <= j < s.len() ==> s[j].0@ != k,
    ensures
        !entries_map(s).contains_key(k),
    decreases s.len(),
{
    if s.len() > 0 {
        let t = s.drop_last();
        assert forall|j: int| 0 <= j < t.len() implies t[j].0@ != k by {
            assert(t[j] == s[j]);
        }
        lemma_entries_map_absent(t, k);
    }
}

proof fn lemma_entries_map_last_occurrence<V>(s: Seq<(String, V)>, i: int, k: Seq<char>)
    requires
        0 <= i < s.len(),
        s[i].0@ == k,
        forall|j: int| i < j < s.len() ==> s[j].0@ != k,
    ensures
        entries_map(s).contains_key(k),
        entries_map(s)[k] == s[i].1,
    decreases s.len(),
{
    if i < s.len() - 1 {
        let t = s.drop_last();
        assert(t[i] == s[i]);
        assert forall|j: int| i < j < t.len() implies t[j].0@ != k by {
            assert(t[j] == s[j]);
        }
        lemma_entries_map_last_occurrence(t, i, k);
        assert(s[s.len() - 1].0@ != k);
    }
}

/// The entries that do not carry the name `k`, in their order.
pub open spec fn without_name<V>(s: Seq<(String, V)>, k: Seq<char>) -> Seq<(String, V)>
    decreases s.len(),
{
    if s.len() == 0 {
        s
    } else if s.last().0@ == k {
        without_name(s.drop_last(), k)
    } else {
        without_name(s.drop_last(), k).push(s.last())
    }
}

proof fn lemma_without_name<V>(s: Seq<(String, V)>, k: Seq<char>)
    ensures
        entries_map(without_name(s, k)) == entries_map(s).remove(k),
    decreases s.len(),
{
    if s.len() > 0 {
        let t = s.drop_last();
        lemma_without_name(t, k);
        if s.last().0@ == k {
            assert(entries_map(s).remove(k) =~= entries_map(t).remove(k));
        } else {
            let w = without_name(t, k);
            assert(w.push(s.last()).drop_last() =~= w);
            assert(entries_map(w.push(s.last())) =~= entries_map(s).remove(k));
        }
    }
}

/// A map from property names to values.
#[derive(Debug, Clone)]
pub struct PropertyMap<V> {
    entries: Vec<(String, V)>,
}

impl<V> PropertyMap<V> {
    /// The mapping from property names to values.
    pub closed spec fn view(&self) -> Map<Seq<char>, V> {
        entries_map(self.entries@)
    }

    /// The map with no properties.
    pub fn new() -> (r: PropertyMap<V>)
        ensures
            r.view().dom() == Set::<Seq<char>>::empty(),
    {
        PropertyMap { entries: Vec::new() }
    }

    fn last_position_of(&self, name: &str) -> (r: Option<usize>)
        ensures
            match r {
                Some(i) => i < self.entries@.len() && self.entries@[i as int].0@ == name@
                    && forall|j: int| i < j < self.entries@.len() ==> self.entries@[j].0@ != name@,
                None => forall|j: int| 0 <= j < self.entries@.len() ==> self.entries@[j].0@ != name@,
            },
    {
        let mut i: usize = self.entries.len();
        while i > 0
            invariant
                i <= self.entries@.len(),
                forall|j: int| i <= j < self.entries@.len() ==> self.entries@[j].0@ != name@,
            decreases i,
        {
            i = i - 1;
            if str_equals(self.entries[i].0.as_str(), name) {
                return Some(i);
            }
        }
        None
    }

    /// The value of the property `name`, if present.
    pub fn get(&self, name: &str) -> (r: Option<&V>)
        ensures
            match r {
                Some(v) => self.view().contains_key(name@) && *v == self.view()[name@],
                None => !self.view().contains_key(name@),
            },
    {
        match self.last_position_of(name) {
            Some(i) => {
                proof {
                    lemma_entries_map_last_occurrence(self.entries@, i as int, name@);
                }
                Some(&self.entries[i].1)
            }
            None => {
                proof {
                    lemma_entries_map_absent(self.entries@, name@);
                }
                None
            }
        }
    }

    /// The entries in their order; the mapping is the one they describe,
    /// later entries winning.
    pub fn entries(&self) -> (r: &Vec<(String, V)>)
        ensures
            entries_map(r@) == self.view(),
    {
        &self.entries
    }

    /// Whether the property `name` is present.
    pub fn contains_key(&self, name: &str) -> (r: bool)
        ensures
            r == self.view().contains_key(name@),
    {
        self.get(name).is_some()
    }

    /// Sets the property `name` to `value`, replacing any former value.
    pub fn insert(&mut self, name: String, value: V)
        ensures
            final(self).view() == old(self).view().insert(name@, value),
    {
        let mut kept: Vec<(String, V)> = Vec::new();
        let ghost initial = self.entries@;
        proof {
            lemma_without_name(initial, name@);
            assert(without_name(initial, name@).add(kept@) =~= without_name(initial, name@));
        }
        while self.entries.len() > 0
            invariant
                entries_map(without_name(self.entries@, name@).add(kept@)) ==
                    entries_map(initial).remove(name@),
            decreases self.entries@.len(),
        {
            let ghost before = self.entries@;
            let e = self.entries.pop().unwrap();
            assert(before.drop_last() == self.entries@);
            let ghost kept_before = kept@;
            if !str_equals(e.0.as_str(), name.as_str()) {
                kept.insert(0, e);
                assert(without_name(before, name@).add(kept_before) =~=
                    without_name(self.entries@, name@).add(kept@));
            } else {
                assert(without_name(before, name@) == without_name(self.entries@, name@));
            }
        }
        let ghost rest = kept@;
        assert(without_name(self.entries@, name@).add(kept@) =~= rest);
        let ghost e = (name, value);
        let ghost key = name@;
        kept.push((name, value));
        assert(kept@.drop_last() =~= rest);
        assert(entries_map(kept@) == entries_map(rest).insert(key, e.1));
        assert(entries_map(kept@) =~= entries_map(initial).insert(key, e.1));
        self.entries = kept;
    }
}

} // verus!
