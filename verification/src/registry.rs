//! Tables keyed by name.
//!
//! The scene description and the statistics both keep values under string
//! names: named textures, materials and object aggregates, and the
//! statistics counters. A table is an association list with pairwise
//! distinct names, viewed as a map from name to value; this module holds
//! that machinery and the registry type built on it.

use vstd::prelude::*;
use vstd::pervasive::VecAdditionalExecFns;

verus! {

/// The map an association list denotes: later entries would win, and the
/// tables keep the names distinct so each name has one entry.
pub open spec fn assoc_view<V>(s: Seq<(String, V)>) -> Map<Seq<char>, V>
    decreases s.len(),
{
    if s.len() == 0 {
        Map::empty()
    } else {
        assoc_view(s.drop_last()).insert(s.last().0@, s.last().1)
    }
}

/// No two entries share a name.
pub open spec fn distinct_names<V>(s: Seq<(String, V)>) -> bool {
    forall|i: int, j: int| 0 <= i < j < s.len() ==> s[i].0@ != s[j].0@
}

pub proof fn lemma_assoc_not_contains<V>(s: Seq<(String, V)>, k: Seq<char>)
    requires
        forall|i: int| 0 <= i < s.len() ==> s[i].0@ != k,
    ensures
        !assoc_view(s).dom().contains(k),
    decreases s.len(),
{
    if s.len() > 0 {
        lemma_assoc_not_contains(s.drop_last(), k);
    }
}

pub proof fn lemma_assoc_contains_at<V>(s: Seq<(String, V)>, i: int)
    requires
        0 <= i < s.len(),
        forall|j: int| i < j < s.len() ==> s[j].0@ != s[i].0@,
    ensures
        assoc_view(s).dom().contains(s[i].0@),
        assoc_view(s)[s[i].0@] == s[i].1,
    decreases s.len(),
{
    if i == s.len() - 1 {
    } else {
        lemma_assoc_contains_at(s.drop_last(), i);
    }
}

pub proof fn lemma_assoc_update<V>(s: Seq<(String, V)>, i: int, p: (String, V))
    requires
        0 <= i < s.len(),
        distinct_names(s),
        p.0@ == s[i].0@,
    ensures
        assoc_view(s.update(i, p)) =~= assoc_view(s).insert(p.0@, p.1),
    decreases s.len(),
{
    if i == s.len() - 1 {
        assert(s.update(i, p).drop_last() =~= s.drop_last());
        assert(s.update(i, p).last() == p);
    } else {
        assert(s.update(i, p).drop_last() =~= s.drop_last().update(i, p));
        assert(distinct_names(s.drop_last()));
        lemma_assoc_update(s.drop_last(), i, p);
        assert(s.last().0@ != p.0@);
    }
}

/// The index of the first entry with the given name.
pub fn find_name<V>(table: &Vec<(String, V)>, name: &String) -> (r: Option<usize>)
    ensures
        match r {
            Some(i) => i < table@.len() && table@[i as int].0@ == name@ && forall|j: int|
                0 <= j < i ==> table@[j].0@ != name@,
            None => forall|j: int| 0 <= j < table@.len() ==> table@[j].0@ != name@,
        },
{
    let mut i: usize = 0;
    while i < table.len()
        invariant
            i <= table@.len(),
            forall|j: int| 0 <= j < i ==> table@[j].0@ != name@,
        decreases table@.len() - i,
    {
        if table[i].0 == *name {
            return Some(i);
        }
        i = i + 1;
    }
    None
}

/// Values kept under names: the named textures, materials and object
/// aggregates of a scene description. The values are the driver's own
/// types and pass through opaquely.
pub struct Registry<V> {
    pub entries: Vec<(String, V)>,
}

impl<V> Registry<V> {
    /// The names are distinct; established by the constructor and
    /// preserved by every method.
    pub open spec fn wf(self) -> bool {
        distinct_names(self.entries@)
    }

    /// The table as a map from name to value.
    pub open spec fn to_map(self) -> Map<Seq<char>, V> {
        assoc_view(self.entries@)
    }

    pub fn new() -> (r: Registry<V>)
        ensures
            r.wf(),
            r.to_map() =~= Map::<Seq<char>, V>::empty(),
    {
        Registry { entries: Vec::new() }
    }

    /// Whether the name is registered.
    pub fn contains(&self, name: &String) -> (r: bool)
        requires
            self.wf(),
        ensures
            r == self.to_map().dom().contains(name@),
    {
        let found = find_name(&self.entries, name);
        proof {
            match found {
                Some(i) => {
                    lemma_assoc_contains_at(self.entries@, i as int);
                },
                None => {
                    lemma_assoc_not_contains(self.entries@, name@);
                },
            }
        }
        found.is_some()
    }

    /// The value registered under the name.
    pub fn get(&self, name: &String) -> (r: Option<&V>)
        requires
            self.wf(),
        ensures
            match r {
                Some(v) => self.to_map().dom().contains(name@) && *v == self.to_map()[name@],
                None => !self.to_map().dom().contains(name@),
            },
    {
        let found = find_name(&self.entries, name);
        match found {
            Some(i) => {
                proof {
                    lemma_assoc_contains_at(self.entries@, i as int);
                }
                Some(&self.entries[i].1)
            },
            None => {
                proof {
                    lemma_assoc_not_contains(self.entries@, name@);
                }
                None
            },
        }
    }

    /// Registers the value under the name, replacing any earlier value.
    /// The flag says whether a value was replaced: the driver warns about
    /// a texture or material being redefined.
    pub fn insert(&mut self, name: String, value: V) -> (replaced: bool)
        requires
            old(self).wf(),
        ensures
            final(self).wf(),
            final(self).to_map() =~= old(self).to_map().insert(name@, value),
            replaced <==> old(self).to_map().dom().contains(name@),
    {
        let found = find_name(&self.entries, &name);
        match found {
            Some(i) => {
                proof {
                    lemma_assoc_contains_at(self.entries@, i as int);
                }
                let ghost old_table = self.entries@;
                self.entries.set(i, (name, value));
                proof {
                    lemma_assoc_update(
                        old_table,
                        i as int,
                        (self.entries@[i as int].0, self.entries@[i as int].1),
                    );
                    assert(distinct_names(self.entries@)) by {
                        assert(forall|k: int|
                            0 <= k < self.entries@.len() ==> self.entries@[k].0@
                                == old_table[k].0@);
                    }
                }
                true
            },
            None => {
                proof {
                    lemma_assoc_not_contains(self.entries@, name@);
                }
                let ghost old_table = self.entries@;
                self.entries.push((name, value));
                proof {
                    assert(self.entries@.drop_last() =~= old_table);
                    assert(distinct_names(self.entries@)) by {
                        assert(forall|k: int|
                            0 <= k < old_table.len() ==> self.entries@[k].0@ == old_table[k].0@);
                    }
                }
                false
            },
        }
    }
}

} // verus!
