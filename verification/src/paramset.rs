//! Parameter sets: the named value lists a scene-description directive
//! carries.
//!
//! A directive's parameters are typed lists (booleans, integers, numbers,
//! strings, colours, points, vectors, texture names) looked up by name.
//! The scalar number type is the driver's floating-point type, which this
//! library stores and hands back without looking inside. A lookup marks
//! the entry as having been read, so the driver can warn about parameters
//! nobody asked for.

use vstd::prelude::*;
use vstd::pervasive::VecAdditionalExecFns;
use crate::api::{Array, ParamListEntry, ParamType, clone_scalars, clone_strings};

verus! {

/// One named parameter: its values and whether anyone has read it.
#[derive(Debug)]
pub struct ParamSetItem<T> {
    pub name: String,
    pub values: Vec<T>,
    pub looked_up: bool,
}

impl<T> Default for ParamSetItem<T> {
    fn default() -> (r: Self)
        ensures
            r.name@ == Seq::<char>::empty(),
            r.values@ == Seq::<T>::empty(),
            !r.looked_up,
    {
        ParamSetItem { name: String::new(), values: Vec::new(), looked_up: false }
    }
}

/// A parameter item as mathematics: name, values, read flag.
pub open spec fn item_view<T>(it: ParamSetItem<T>) -> (Seq<char>, Seq<T>, bool) {
    (it.name@, it.values@, it.looked_up)
}

/// A table of parameter items as mathematics.
pub open spec fn items_view<T>(s: Seq<ParamSetItem<T>>) -> Seq<(Seq<char>, Seq<T>, bool)> {
    s.map_values(|it: ParamSetItem<T>| item_view(it))
}

/// `i` is the first entry of the table with the given name.
pub open spec fn is_first_match<T>(items: Seq<ParamSetItem<T>>, name: Seq<char>, i: int) -> bool {
    &&& 0 <= i < items.len()
    &&& items[i].name@ == name
    &&& forall|j: int| 0 <= j < i ==> items[j].name@ != name
}

/// Some entry of the table has the given name.
pub open spec fn has_match<T>(items: Seq<ParamSetItem<T>>, name: Seq<char>) -> bool {
    exists|i: int| is_first_match(items, name, i)
}

/// The index of the first entry with the given name.
pub open spec fn first_match<T>(items: Seq<ParamSetItem<T>>, name: Seq<char>) -> int {
    choose|i: int| is_first_match(items, name, i)
}

/// The item with its read flag set.
pub open spec fn spec_marked<T>(it: ParamSetItem<T>) -> (Seq<char>, Seq<T>, bool) {
    (it.name@, it.values@, true)
}

/// What a single-value lookup returns: the first value of the first entry
/// with the name, or the default when there is no such entry or it holds
/// no values.
pub open spec fn find_one_value<T>(items: Seq<ParamSetItem<T>>, name: Seq<char>, d: T) -> T {
    if has_match(items, name) {
        let i = first_match(items, name);
        if items[i].values@.len() > 0 {
            items[i].values@[0]
        } else {
            d
        }
    } else {
        d
    }
}

/// How a lookup changes a table: the first entry with the name is marked
/// read, everything else stays; a table without the name stays whole.
pub open spec fn marked_view<T>(items: Seq<ParamSetItem<T>>, name: Seq<char>) -> Seq<
    (Seq<char>, Seq<T>, bool),
> {
    if has_match(items, name) {
        items_view(items).update(first_match(items, name), spec_marked(items[first_match(items, name)]))
    } else {
        items_view(items)
    }
}

proof fn lemma_first_match_unique<T>(items: Seq<ParamSetItem<T>>, name: Seq<char>, i: int)
    requires
        is_first_match(items, name, i),
    ensures
        first_match(items, name) == i,
{
    let k = first_match(items, name);
    assert(is_first_match(items, name, k));
    if k < i {
        assert(items[k].name@ != name);
    }
    if i < k {
        assert(items[i].name@ != name);
    }
}

/// The index of the first entry with the given name, if any.
fn find_first<T>(items: &Vec<ParamSetItem<T>>, name: &String) -> (r: Option<usize>)
    ensures
        match r {
            Some(i) => is_first_match(items@, name@, i as int) && first_match(items@, name@)
                == i as int && has_match(items@, name@),
            None => !has_match(items@, name@),
        },
{
    let mut i: usize = 0;
    while i < items.len()
        invariant
            i <= items@.len(),
            forall|j: int| 0 <= j < i ==> items@[j].name@ != name@,
        decreases items@.len() - i,
    {
        if items[i].name == *name {
            proof {
                assert(is_first_match(items@, name@, i as int));
                lemma_first_match_unique(items@, name@, i as int);
                assert(has_match(items@, name@)) by {
                    assert(is_first_match(items@, name@, i as int));
                }
            }
            return Some(i);
        }
        i = i + 1;
    }
    proof {
        if has_match(items@, name@) {
            let k = first_match(items@, name@);
            assert(items@[k].name@ != name@);
        }
    }
    None
}

/// Sets the read flag of the entry at `i`, leaving the rest of the item as
/// it was.
fn mark_looked_up<T>(items: &mut Vec<ParamSetItem<T>>, i: usize)
    requires
        i < old(items)@.len(),
    ensures
        items_view(final(items)@) =~= items_view(old(items)@).update(
            i as int,
            spec_marked(old(items)@[i as int]),
        ),
        final(items)@.len() == old(items)@.len(),
        forall|j: int| 0 <= j < final(items)@.len() && j != i ==> final(items)@[j] == old(items)@[j],
        final(items)@[i as int].name@ == old(items)@[i as int].name@,
        final(items)@[i as int].values@ == old(items)@[i as int].values@,
        final(items)@[i as int].looked_up,
    {
    let mut tmp: ParamSetItem<T> = ParamSetItem { name: String::new(), values: Vec::new(), looked_up: false };
    items.set_and_swap(i, &mut tmp);
    tmp.looked_up = true;
    items.set_and_swap(i, &mut tmp);
    proof {
        assert(items_view(final(items)@) =~= items_view(old(items)@).update(
            i as int,
            spec_marked(old(items)@[i as int]),
        ));
    }
}


/// Looks a name up in a table of copyable values: the found entry is
/// marked read and its values are returned.
fn find_copy<T: Copy>(items: &mut Vec<ParamSetItem<T>>, name: &String) -> (r: Option<Vec<T>>)
    ensures
        items_view(final(items)@) == marked_view(old(items)@, name@),
        match r {
            Some(vals) => has_match(old(items)@, name@) && vals@ == old(items)@[first_match(
                old(items)@,
                name@,
            )].values@,
            None => !has_match(old(items)@, name@),
        },
{
    let found = find_first(items, name);
    match found {
        Some(i) => {
            let vals = clone_scalars(&items[i].values);
            mark_looked_up(items, i);
            Some(vals)
        },
        None => None,
    }
}

/// Looks a name up in a table of string values: the found entry is marked
/// read and its values are returned.
fn find_str(items: &mut Vec<ParamSetItem<String>>, name: &String) -> (r: Option<Vec<String>>)
    ensures
        items_view(final(items)@) == marked_view(old(items)@, name@),
        match r {
            Some(vals) => has_match(old(items)@, name@) && vals@ == old(items)@[first_match(
                old(items)@,
                name@,
            )].values@,
            None => !has_match(old(items)@, name@),
        },
{
    let found = find_first(items, name);
    match found {
        Some(i) => {
            let vals = clone_strings(&items[i].values);
            mark_looked_up(items, i);
            Some(vals)
        },
        None => None,
    }
}

/// Looks a single copyable value up: the first value of the first entry
/// with the name, or the default. The found entry is marked read.
fn find_one_copy<T: Copy>(items: &mut Vec<ParamSetItem<T>>, name: &String, d: T) -> (r: T)
    ensures
        items_view(final(items)@) == marked_view(old(items)@, name@),
        r == find_one_value(old(items)@, name@, d),
{
    let found = find_first(items, name);
    match found {
        Some(i) => {
            let r = if items[i].values.len() > 0 {
                items[i].values[0]
            } else {
                d
            };
            mark_looked_up(items, i);
            r
        },
        None => d,
    }
}

/// Looks a single string value up: the first value of the first entry with
/// the name, or the default. The found entry is marked read.
fn find_one_str(items: &mut Vec<ParamSetItem<String>>, name: &String, d: String) -> (r: String)
    ensures
        items_view(final(items)@) == marked_view(old(items)@, name@),
        r == find_one_value(old(items)@, name@, d),
{
    let found = find_first(items, name);
    match found {
        Some(i) => {
            let r = if items[i].values.len() > 0 {
                items[i].values[0].clone()
            } else {
                d
            };
            mark_looked_up(items, i);
            r
        },
        None => d,
    }
}


/// A pair of scalars: a 2D point's coordinates.
#[derive(Debug, Clone, Copy, PartialEq, Eq, Structural)]
pub struct Pair<N> {
    pub x: N,
    pub y: N,
}

/// A triple of scalars: a colour, a 3D point or a 3D vector.
#[derive(Debug, Clone, Copy, PartialEq, Eq, Structural)]
pub struct Triple<N> {
    pub x: N,
    pub y: N,
    pub z: N,
}

/// The typed parameter tables of one directive.
#[derive(Debug)]
pub struct ParamSet<N> {
    pub bools: Vec<ParamSetItem<bool>>,
    pub ints: Vec<ParamSetItem<i32>>,
    pub floats: Vec<ParamSetItem<N>>,
    pub strings: Vec<ParamSetItem<String>>,
    pub spectra: Vec<ParamSetItem<Triple<N>>>,
    pub point2fs: Vec<ParamSetItem<Pair<N>>>,
    pub point3fs: Vec<ParamSetItem<Triple<N>>>,
    pub vector3fs: Vec<ParamSetItem<Triple<N>>>,
    pub textures: Vec<ParamSetItem<String>>,
}

/// Every table but `bools` is unchanged between the two sets.
pub open spec fn same_but_bools<N>(a: &ParamSet<N>, b: &ParamSet<N>) -> bool {
    &&& items_view(a.ints@) == items_view(b.ints@)
    &&& items_view(a.floats@) == items_view(b.floats@)
    &&& items_view(a.strings@) == items_view(b.strings@)
    &&& items_view(a.spectra@) == items_view(b.spectra@)
    &&& items_view(a.point2fs@) == items_view(b.point2fs@)
    &&& items_view(a.point3fs@) == items_view(b.point3fs@)
    &&& items_view(a.vector3fs@) == items_view(b.vector3fs@)
    &&& items_view(a.textures@) == items_view(b.textures@)
}

/// Every table but `ints` is unchanged between the two sets.
pub open spec fn same_but_ints<N>(a: &ParamSet<N>, b: &ParamSet<N>) -> bool {
    &&& items_view(a.bools@) == items_view(b.bools@)
    &&& items_view(a.floats@) == items_view(b.floats@)
    &&& items_view(a.strings@) == items_view(b.strings@)
    &&& items_view(a.spectra@) == items_view(b.spectra@)
    &&& items_view(a.point2fs@) == items_view(b.point2fs@)
    &&& items_view(a.point3fs@) == items_view(b.point3fs@)
    &&& items_view(a.vector3fs@) == items_view(b.vector3fs@)
    &&& items_view(a.textures@) == items_view(b.textures@)
}

/// Every table but `floats` is unchanged between the two sets.
pub open spec fn same_but_floats<N>(a: &ParamSet<N>, b: &ParamSet<N>) -> bool {
    &&& items_view(a.bools@) == items_view(b.bools@)
    &&& items_view(a.ints@) == items_view(b.ints@)
    &&& items_view(a.strings@) == items_view(b.strings@)
    &&& items_view(a.spectra@) == items_view(b.spectra@)
    &&& items_view(a.point2fs@) == items_view(b.point2fs@)
    &&& items_view(a.point3fs@) == items_view(b.point3fs@)
    &&& items_view(a.vector3fs@) == items_view(b.vector3fs@)
    &&& items_view(a.textures@) == items_view(b.textures@)
}

/// Every table but `strings` is unchanged between the two sets.
pub open spec fn same_but_strings<N>(a: &ParamSet<N>, b: &ParamSet<N>) -> bool {
    &&& items_view(a.bools@) == items_view(b.bools@)
    &&& items_view(a.ints@) == items_view(b.ints@)
    &&& items_view(a.floats@) == items_view(b.floats@)
    &&& items_view(a.spectra@) == items_view(b.spectra@)
    &&& items_view(a.point2fs@) == items_view(b.point2fs@)
    &&& items_view(a.point3fs@) == items_view(b.point3fs@)
    &&& items_view(a.vector3fs@) == items_view(b.vector3fs@)
    &&& items_view(a.textures@) == items_view(b.textures@)
}

/// Every table but `spectra` is unchanged between the two sets.
pub open spec fn same_but_spectra<N>(a: &ParamSet<N>, b: &ParamSet<N>) -> bool {
    &&& items_view(a.bools@) == items_view(b.bools@)
    &&& items_view(a.ints@) == items_view(b.ints@)
    &&& items_view(a.floats@) == items_view(b.floats@)
    &&& items_view(a.strings@) == items_view(b.strings@)
    &&& items_view(a.point2fs@) == items_view(b.point2fs@)
    &&& items_view(a.point3fs@) == items_view(b.point3fs@)
    &&& items_view(a.vector3fs@) == items_view(b.vector3fs@)
    &&& items_view(a.textures@) == items_view(b.textures@)
}

/// Every table but `point2fs` is unchanged between the two sets.
pub open spec fn same_but_point2fs<N>(a: &ParamSet<N>, b: &ParamSet<N>) -> bool {
    &&& items_view(a.bools@) == items_view(b.bools@)
    &&& items_view(a.ints@) == items_view(b.ints@)
    &&& items_view(a.floats@) == items_view(b.floats@)
    &&& items_view(a.strings@) == items_view(b.strings@)
    &&& items_view(a.spectra@) == items_view(b.spectra@)
    &&& items_view(a.point3fs@) == items_view(b.point3fs@)
    &&& items_view(a.vector3fs@) == items_view(b.vector3fs@)
    &&& items_view(a.textures@) == items_view(b.textures@)
}

/// Every table but `point3fs` is unchanged between the two sets.
pub open spec fn same_but_point3fs<N>(a: &ParamSet<N>, b: &ParamSet<N>) -> bool {
    &&& items_view(a.bools@) == items_view(b.bools@)
    &&& items_view(a.ints@) == items_view(b.ints@)
    &&& items_view(a.floats@) == items_view(b.floats@)
    &&& items_view(a.strings@) == items_view(b.strings@)
    &&& items_view(a.spectra@) == items_view(b.spectra@)
    &&& items_view(a.point2fs@) == items_view(b.point2fs@)
    &&& items_view(a.vector3fs@) == items_view(b.vector3fs@)
    &&& items_view(a.textures@) == items_view(b.textures@)
}

/// Every table but `vector3fs` is unchanged between the two sets.
pub open spec fn same_but_vector3fs<N>(a: &ParamSet<N>, b: &ParamSet<N>) -> bool {
    &&& items_view(a.bools@) == items_view(b.bools@)
    &&& items_view(a.ints@) == items_view(b.ints@)
    &&& items_view(a.floats@) == items_view(b.floats@)
    &&& items_view(a.strings@) == items_view(b.strings@)
    &&& items_view(a.spectra@) == items_view(b.spectra@)
    &&& items_view(a.point2fs@) == items_view(b.point2fs@)
    &&& items_view(a.point3fs@) == items_view(b.point3fs@)
    &&& items_view(a.textures@) == items_view(b.textures@)
}

/// Every table but `textures` is unchanged between the two sets.
pub open spec fn same_but_textures<N>(a: &ParamSet<N>, b: &ParamSet<N>) -> bool {
    &&& items_view(a.bools@) == items_view(b.bools@)
    &&& items_view(a.ints@) == items_view(b.ints@)
    &&& items_view(a.floats@) == items_view(b.floats@)
    &&& items_view(a.strings@) == items_view(b.strings@)
    &&& items_view(a.spectra@) == items_view(b.spectra@)
    &&& items_view(a.point2fs@) == items_view(b.point2fs@)
    &&& items_view(a.point3fs@) == items_view(b.point3fs@)
    &&& items_view(a.vector3fs@) == items_view(b.vector3fs@)
}

impl<N: Copy> ParamSet<N> {
    /// No parameters of any type.
    pub open spec fn spec_is_empty(self) -> bool {
        &&& self.bools@.len() == 0
        &&& self.ints@.len() == 0
        &&& self.floats@.len() == 0
        &&& self.strings@.len() == 0
        &&& self.spectra@.len() == 0
        &&& self.point2fs@.len() == 0
        &&& self.point3fs@.len() == 0
        &&& self.vector3fs@.len() == 0
        &&& self.textures@.len() == 0
    }

    pub fn new() -> (r: ParamSet<N>)
        ensures
            r.spec_is_empty(),
    {
        ParamSet {
            bools: Vec::new(),
            ints: Vec::new(),
            floats: Vec::new(),
            strings: Vec::new(),
            spectra: Vec::new(),
            point2fs: Vec::new(),
            point3fs: Vec::new(),
            vector3fs: Vec::new(),
            textures: Vec::new(),
        }
    }

    /// Returns the values of the first `bools` entry with the name, marking
    /// it read.
    pub fn find_bool(&mut self, name: &String) -> (r: Option<Vec<bool>>)
        ensures
            items_view(final(self).bools@) == marked_view(old(self).bools@, name@),
            same_but_bools(old(self), final(self)),
            match r {
                Some(vals) => has_match(old(self).bools@, name@) && vals@ == old(self).bools@[
                    first_match(old(self).bools@, name@)
                ].values@,
                None => !has_match(old(self).bools@, name@),
            },
    {
        find_copy(&mut self.bools, name)
    }

    /// Returns the first value of the first `bools` entry with the name, or
    /// the default, marking the entry read.
    pub fn find_one_bool(&mut self, name: &String, d: bool) -> (r: bool)
        ensures
            items_view(final(self).bools@) == marked_view(old(self).bools@, name@),
            same_but_bools(old(self), final(self)),
            r == find_one_value(old(self).bools@, name@, d),
    {
        find_one_copy(&mut self.bools, name, d)
    }

    /// Returns the values of the first `ints` entry with the name, marking
    /// it read.
    pub fn find_int(&mut self, name: &String) -> (r: Option<Vec<i32>>)
        ensures
            items_view(final(self).ints@) == marked_view(old(self).ints@, name@),
            same_but_ints(old(self), final(self)),
            match r {
                Some(vals) => has_match(old(self).ints@, name@) && vals@ == old(self).ints@[
                    first_match(old(self).ints@, name@)
                ].values@,
                None => !has_match(old(self).ints@, name@),
            },
    {
        find_copy(&mut self.ints, name)
    }

    /// Returns the first value of the first `ints` entry with the name, or
    /// the default, marking the entry read.
    pub fn find_one_int(&mut self, name: &String, d: i32) -> (r: i32)
        ensures
            items_view(final(self).ints@) == marked_view(old(self).ints@, name@),
            same_but_ints(old(self), final(self)),
            r == find_one_value(old(self).ints@, name@, d),
    {
        find_one_copy(&mut self.ints, name, d)
    }

    /// Returns the values of the first `floats` entry with the name, marking
    /// it read.
    pub fn find_float(&mut self, name: &String) -> (r: Option<Vec<N>>)
        ensures
            items_view(final(self).floats@) == marked_view(old(self).floats@, name@),
            same_but_floats(old(self), final(self)),
            match r {
                Some(vals) => has_match(old(self).floats@, name@) && vals@ == old(self).floats@[
                    first_match(old(self).floats@, name@)
                ].values@,
                None => !has_match(old(self).floats@, name@),
            },
    {
        find_copy(&mut self.floats, name)
    }

    /// Returns the first value of the first `floats` entry with the name, or
    /// the default, marking the entry read.
    pub fn find_one_float(&mut self, name: &String, d: N) -> (r: N)
        ensures
            items_view(final(self).floats@) == marked_view(old(self).floats@, name@),
            same_but_floats(old(self), final(self)),
            r == find_one_value(old(self).floats@, name@, d),
    {
        find_one_copy(&mut self.floats, name, d)
    }

    /// Returns the values of the first `strings` entry with the name, marking
    /// it read.
    pub fn find_string(&mut self, name: &String) -> (r: Option<Vec<String>>)
        ensures
            items_view(final(self).strings@) == marked_view(old(self).strings@, name@),
            same_but_strings(old(self), final(self)),
            match r {
                Some(vals) => has_match(old(self).strings@, name@) && vals@ == old(self).strings@[
                    first_match(old(self).strings@, name@)
                ].values@,
                None => !has_match(old(self).strings@, name@),
            },
    {
        find_str(&mut self.strings, name)
    }

    /// Returns the first value of the first `strings` entry with the name, or
    /// the default, marking the entry read.
    pub fn find_one_string(&mut self, name: &String, d: String) -> (r: String)
        ensures
            items_view(final(self).strings@) == marked_view(old(self).strings@, name@),
            same_but_strings(old(self), final(self)),
            r == find_one_value(old(self).strings@, name@, d),
    {
        find_one_str(&mut self.strings, name, d)
    }

    /// Returns the values of the first `spectra` entry with the name, marking
    /// it read.
    pub fn find_spectrum(&mut self, name: &String) -> (r: Option<Vec<Triple<N>>>)
        ensures
            items_view(final(self).spectra@) == marked_view(old(self).spectra@, name@),
            same_but_spectra(old(self), final(self)),
            match r {
                Some(vals) => has_match(old(self).spectra@, name@) && vals@ == old(self).spectra@[
                    first_match(old(self).spectra@, name@)
                ].values@,
                None => !has_match(old(self).spectra@, name@),
            },
    {
        find_copy(&mut self.spectra, name)
    }

    /// Returns the first value of the first `spectra` entry with the name, or
    /// the default, marking the entry read.
    pub fn find_one_spectrum(&mut self, name: &String, d: Triple<N>) -> (r: Triple<N>)
        ensures
            items_view(final(self).spectra@) == marked_view(old(self).spectra@, name@),
            same_but_spectra(old(self), final(self)),
            r == find_one_value(old(self).spectra@, name@, d),
    {
        find_one_copy(&mut self.spectra, name, d)
    }

    /// Returns the values of the first `point2fs` entry with the name, marking
    /// it read.
    pub fn find_point2f(&mut self, name: &String) -> (r: Option<Vec<Pair<N>>>)
        ensures
            items_view(final(self).point2fs@) == marked_view(old(self).point2fs@, name@),
            same_but_point2fs(old(self), final(self)),
            match r {
                Some(vals) => has_match(old(self).point2fs@, name@) && vals@ == old(self).point2fs@[
                    first_match(old(self).point2fs@, name@)
                ].values@,
                None => !has_match(old(self).point2fs@, name@),
            },
    {
        find_copy(&mut self.point2fs, name)
    }

    /// Returns the first value of the first `point2fs` entry with the name, or
    /// the default, marking the entry read.
    pub fn find_one_point2f(&mut self, name: &String, d: Pair<N>) -> (r: Pair<N>)
        ensures
            items_view(final(self).point2fs@) == marked_view(old(self).point2fs@, name@),
            same_but_point2fs(old(self), final(self)),
            r == find_one_value(old(self).point2fs@, name@, d),
    {
        find_one_copy(&mut self.point2fs, name, d)
    }

    /// Returns the values of the first `point3fs` entry with the name, marking
    /// it read.
    pub fn find_point3f(&mut self, name: &String) -> (r: Option<Vec<Triple<N>>>)
        ensures
            items_view(final(self).point3fs@) == marked_view(old(self).point3fs@, name@),
            same_but_point3fs(old(self), final(self)),
            match r {
                Some(vals) => has_match(old(self).point3fs@, name@) && vals@ == old(self).point3fs@[
                    first_match(old(self).point3fs@, name@)
                ].values@,
                None => !has_match(old(self).point3fs@, name@),
            },
    {
        find_copy(&mut self.point3fs, name)
    }

    /// Returns the first value of the first `point3fs` entry with the name, or
    /// the default, marking the entry read.
    pub fn find_one_point3f(&mut self, name: &String, d: Triple<N>) -> (r: Triple<N>)
        ensures
            items_view(final(self).point3fs@) == marked_view(old(self).point3fs@, name@),
            same_but_point3fs(old(self), final(self)),
            r == find_one_value(old(self).point3fs@, name@, d),
    {
        find_one_copy(&mut self.point3fs, name, d)
    }

    /// Returns the values of the first `vector3fs` entry with the name, marking
    /// it read.
    pub fn find_vector3f(&mut self, name: &String) -> (r: Option<Vec<Triple<N>>>)
        ensures
            items_view(final(self).vector3fs@) == marked_view(old(self).vector3fs@, name@),
            same_but_vector3fs(old(self), final(self)),
            match r {
                Some(vals) => has_match(old(self).vector3fs@, name@) && vals@ == old(self).vector3fs@[
                    first_match(old(self).vector3fs@, name@)
                ].values@,
                None => !has_match(old(self).vector3fs@, name@),
            },
    {
        find_copy(&mut self.vector3fs, name)
    }

    /// Returns the first value of the first `vector3fs` entry with the name, or
    /// the default, marking the entry read.
    pub fn find_one_vector3f(&mut self, name: &String, d: Triple<N>) -> (r: Triple<N>)
        ensures
            items_view(final(self).vector3fs@) == marked_view(old(self).vector3fs@, name@),
            same_but_vector3fs(old(self), final(self)),
            r == find_one_value(old(self).vector3fs@, name@, d),
    {
        find_one_copy(&mut self.vector3fs, name, d)
    }

    /// Returns the values of the first `textures` entry with the name, marking
    /// it read.
    pub fn find_texture(&mut self, name: &String) -> (r: Option<Vec<String>>)
        ensures
            items_view(final(self).textures@) == marked_view(old(self).textures@, name@),
            same_but_textures(old(self), final(self)),
            match r {
                Some(vals) => has_match(old(self).textures@, name@) && vals@ == old(self).textures@[
                    first_match(old(self).textures@, name@)
                ].values@,
                None => !has_match(old(self).textures@, name@),
            },
    {
        find_str(&mut self.textures, name)
    }

    /// Returns the first value of the first `textures` entry with the name, or
    /// the default, marking the entry read.
    pub fn find_one_texture(&mut self, name: &String, d: String) -> (r: String)
        ensures
            items_view(final(self).textures@) == marked_view(old(self).textures@, name@),
            same_but_textures(old(self), final(self)),
            r == find_one_value(old(self).textures@, name@, d),
    {
        find_one_str(&mut self.textures, name, d)
    }

    fn add_bool(&mut self, name: String, values: Vec<bool>)
        ensures
            items_view(final(self).bools@) == items_view(old(self).bools@).push((name@, values@, false)),
            same_but_bools(old(self), final(self)),
    {
        let ghost before = items_view(self.bools@);
        self.bools.push(ParamSetItem { name, values, looked_up: false });
        proof {
            assert(items_view(self.bools@) =~= before.push(
                (self.bools@.last().name@, self.bools@.last().values@, false),
            ));
        }
    }

    fn add_int(&mut self, name: String, values: Vec<i32>)
        ensures
            items_view(final(self).ints@) == items_view(old(self).ints@).push((name@, values@, false)),
            same_but_ints(old(self), final(self)),
    {
        let ghost before = items_view(self.ints@);
        self.ints.push(ParamSetItem { name, values, looked_up: false });
        proof {
            assert(items_view(self.ints@) =~= before.push(
                (self.ints@.last().name@, self.ints@.last().values@, false),
            ));
        }
    }

    fn add_float(&mut self, name: String, values: Vec<N>)
        ensures
            items_view(final(self).floats@) == items_view(old(self).floats@).push((name@, values@, false)),
            same_but_floats(old(self), final(self)),
    {
        let ghost before = items_view(self.floats@);
        self.floats.push(ParamSetItem { name, values, looked_up: false });
        proof {
            assert(items_view(self.floats@) =~= before.push(
                (self.floats@.last().name@, self.floats@.last().values@, false),
            ));
        }
    }

    fn add_string(&mut self, name: String, values: Vec<String>)
        ensures
            items_view(final(self).strings@) == items_view(old(self).strings@).push((name@, values@, false)),
            same_but_strings(old(self), final(self)),
    {
        let ghost before = items_view(self.strings@);
        self.strings.push(ParamSetItem { name, values, looked_up: false });
        proof {
            assert(items_view(self.strings@) =~= before.push(
                (self.strings@.last().name@, self.strings@.last().values@, false),
            ));
        }
    }

    fn add_spectrum(&mut self, name: String, values: Vec<Triple<N>>)
        ensures
            items_view(final(self).spectra@) == items_view(old(self).spectra@).push((name@, values@, false)),
            same_but_spectra(old(self), final(self)),
    {
        let ghost before = items_view(self.spectra@);
        self.spectra.push(ParamSetItem { name, values, looked_up: false });
        proof {
            assert(items_view(self.spectra@) =~= before.push(
                (self.spectra@.last().name@, self.spectra@.last().values@, false),
            ));
        }
    }

    fn add_point2f(&mut self, name: String, values: Vec<Pair<N>>)
        ensures
            items_view(final(self).point2fs@) == items_view(old(self).point2fs@).push((name@, values@, false)),
            same_but_point2fs(old(self), final(self)),
    {
        let ghost before = items_view(self.point2fs@);
        self.point2fs.push(ParamSetItem { name, values, looked_up: false });
        proof {
            assert(items_view(self.point2fs@) =~= before.push(
                (self.point2fs@.last().name@, self.point2fs@.last().values@, false),
            ));
        }
    }

    fn add_point3f(&mut self, name: String, values: Vec<Triple<N>>)
        ensures
            items_view(final(self).point3fs@) == items_view(old(self).point3fs@).push((name@, values@, false)),
            same_but_point3fs(old(self), final(self)),
    {
        let ghost before = items_view(self.point3fs@);
        self.point3fs.push(ParamSetItem { name, values, looked_up: false });
        proof {
            assert(items_view(self.point3fs@) =~= before.push(
                (self.point3fs@.last().name@, self.point3fs@.last().values@, false),
            ));
        }
    }

    fn add_vector3f(&mut self, name: String, values: Vec<Triple<N>>)
        ensures
            items_view(final(self).vector3fs@) == items_view(old(self).vector3fs@).push((name@, values@, false)),
            same_but_vector3fs(old(self), final(self)),
    {
        let ghost before = items_view(self.vector3fs@);
        self.vector3fs.push(ParamSetItem { name, values, looked_up: false });
        proof {
            assert(items_view(self.vector3fs@) =~= before.push(
                (self.vector3fs@.last().name@, self.vector3fs@.last().values@, false),
            ));
        }
    }

}

impl<N: Copy> Default for ParamSet<N> {
    fn default() -> (r: Self)
        ensures
            r.spec_is_empty(),
    {
        ParamSet::new()
    }
}


/// The numeric values an entry carries: empty when it holds another kind.
pub open spec fn spec_num_values<N>(a: Array<N>) -> Seq<N> {
    if a is NumArray {
        a->NumArray_0@
    } else {
        Seq::empty()
    }
}

/// The integer values an entry carries: empty when it holds another kind.
pub open spec fn spec_int_values<N>(a: Array<N>) -> Seq<i32> {
    if a is IntArray {
        a->IntArray_0@
    } else {
        Seq::empty()
    }
}

/// The string values an entry carries: empty when it holds another kind.
pub open spec fn spec_str_values<N>(a: Array<N>) -> Seq<String> {
    if a is StrArray {
        a->StrArray_0@
    } else {
        Seq::empty()
    }
}

/// The booleans a list of words denotes: `true` for the word "true",
/// `false` for every other word.
pub open spec fn spec_parse_bools(vals: Seq<String>) -> Seq<bool> {
    vals.map_values(|v: String| v@ == "true"@)
}

/// Consecutive pairs of a scalar list; a trailing incomplete pair is
/// dropped.
pub open spec fn spec_pairs<N>(s: Seq<N>) -> Seq<Pair<N>>
    decreases s.len(),
{
    if s.len() < 2 {
        Seq::empty()
    } else {
        seq![Pair { x: s[0], y: s[1] }] + spec_pairs(s.skip(2))
    }
}

/// Consecutive triples of a scalar list; a trailing incomplete triple is
/// dropped.
pub open spec fn spec_triples<N>(s: Seq<N>) -> Seq<Triple<N>>
    decreases s.len(),
{
    if s.len() < 3 {
        Seq::empty()
    } else {
        seq![Triple { x: s[0], y: s[1], z: s[2] }] + spec_triples(s.skip(3))
    }
}

/// Reads a word list as booleans: the word "true" and nothing else is true.
fn parse_bools(vals: &Vec<String>) -> (r: Vec<bool>)
    ensures
        r@ == spec_parse_bools(vals@),
{
    let t: String = "true".to_owned();
    let mut r: Vec<bool> = Vec::new();
    let mut i: usize = 0;
    while i < vals.len()
        invariant
            i <= vals@.len(),
            t@ == "true"@,
            r@ == spec_parse_bools(vals@.take(i as int)),
        decreases vals@.len() - i,
    {
        let b = vals[i] == t;
        r.push(b);
        i = i + 1;
        proof {
            assert(r@ =~= spec_parse_bools(vals@.take(i as int)));
        }
    }
    proof {
        assert(vals@.take(vals@.len() as int) =~= vals@);
    }
    r
}

/// Groups a scalar list into consecutive pairs, dropping a trailing
/// incomplete pair.
fn chunk_pairs<N: Copy>(vals: &Vec<N>) -> (r: Vec<Pair<N>>)
    ensures
        r@ == spec_pairs(vals@),
{
    let mut r: Vec<Pair<N>> = Vec::new();
    let mut i: usize = 0;
    proof {
        assert(vals@.skip(0) =~= vals@);
        assert(r@ + spec_pairs(vals@) =~= spec_pairs(vals@));
    }
    while vals.len() - i >= 2
        invariant
            i <= vals@.len(),
            r@ + spec_pairs(vals@.skip(i as int)) == spec_pairs(vals@),
        decreases vals@.len() - i,
    {
        let ghost pre = vals@.skip(i as int);
        r.push(Pair { x: vals[i], y: vals[i + 1] });
        i = i + 2;
        proof {
            assert(pre.skip(2) =~= vals@.skip(i as int));
            assert(r@ + spec_pairs(vals@.skip(i as int)) =~= spec_pairs(vals@));
        }
    }
    proof {
        assert(r@ =~= spec_pairs(vals@));
    }
    r
}

/// Groups a scalar list into consecutive triples, dropping a trailing
/// incomplete triple.
fn chunk_triples<N: Copy>(vals: &Vec<N>) -> (r: Vec<Triple<N>>)
    ensures
        r@ == spec_triples(vals@),
{
    let mut r: Vec<Triple<N>> = Vec::new();
    let mut i: usize = 0;
    proof {
        assert(vals@.skip(0) =~= vals@);
        assert(r@ + spec_triples(vals@) =~= spec_triples(vals@));
    }
    while vals.len() - i >= 3
        invariant
            i <= vals@.len(),
            r@ + spec_triples(vals@.skip(i as int)) == spec_triples(vals@),
        decreases vals@.len() - i,
    {
        let ghost pre = vals@.skip(i as int);
        r.push(Triple { x: vals[i], y: vals[i + 1], z: vals[i + 2] });
        i = i + 3;
        proof {
            assert(pre.skip(3) =~= vals@.skip(i as int));
            assert(r@ + spec_triples(vals@.skip(i as int)) =~= spec_triples(vals@));
        }
    }
    proof {
        assert(r@ =~= spec_triples(vals@));
    }
    r
}

/// The `bools` items a list of directive entries contributes.
pub open spec fn spec_init_bools<N>(es: Seq<ParamListEntry<N>>) -> Seq<(Seq<char>, Seq<bool>, bool)>
    decreases es.len(),
{
    if es.len() == 0 {
        Seq::empty()
    } else {
        let rest = spec_init_bools(es.drop_last());
        let e = es.last();
        if e.param_type == ParamType::Bool {
            rest.push((e.param_name@, spec_parse_bools(spec_str_values(e.values)), false))
        } else {
            rest
        }
    }
}

/// The `ints` items a list of directive entries contributes.
pub open spec fn spec_init_ints<N>(es: Seq<ParamListEntry<N>>) -> Seq<(Seq<char>, Seq<i32>, bool)>
    decreases es.len(),
{
    if es.len() == 0 {
        Seq::empty()
    } else {
        let rest = spec_init_ints(es.drop_last());
        let e = es.last();
        if e.param_type == ParamType::Int {
            rest.push((e.param_name@, spec_int_values(e.values), false))
        } else {
            rest
        }
    }
}

/// The `floats` items a list of directive entries contributes.
pub open spec fn spec_init_floats<N>(es: Seq<ParamListEntry<N>>) -> Seq<(Seq<char>, Seq<N>, bool)>
    decreases es.len(),
{
    if es.len() == 0 {
        Seq::empty()
    } else {
        let rest = spec_init_floats(es.drop_last());
        let e = es.last();
        if e.param_type == ParamType::Float {
            rest.push((e.param_name@, spec_num_values(e.values), false))
        } else {
            rest
        }
    }
}

/// The `strings` items a list of directive entries contributes.
pub open spec fn spec_init_strings<N>(es: Seq<ParamListEntry<N>>) -> Seq<(Seq<char>, Seq<String>, bool)>
    decreases es.len(),
{
    if es.len() == 0 {
        Seq::empty()
    } else {
        let rest = spec_init_strings(es.drop_last());
        let e = es.last();
        if e.param_type == ParamType::String {
            rest.push((e.param_name@, spec_str_values(e.values), false))
        } else {
            rest
        }
    }
}

/// The `spectra` items a list of directive entries contributes.
pub open spec fn spec_init_spectra<N>(es: Seq<ParamListEntry<N>>) -> Seq<(Seq<char>, Seq<Triple<N>>, bool)>
    decreases es.len(),
{
    if es.len() == 0 {
        Seq::empty()
    } else {
        let rest = spec_init_spectra(es.drop_last());
        let e = es.last();
        if e.param_type == ParamType::Rgb {
            rest.push((e.param_name@, spec_triples(spec_num_values(e.values)), false))
        } else {
            rest
        }
    }
}

/// The `point2fs` items a list of directive entries contributes.
pub open spec fn spec_init_point2fs<N>(es: Seq<ParamListEntry<N>>) -> Seq<(Seq<char>, Seq<Pair<N>>, bool)>
    decreases es.len(),
{
    if es.len() == 0 {
        Seq::empty()
    } else {
        let rest = spec_init_point2fs(es.drop_last());
        let e = es.last();
        if e.param_type == ParamType::Point2 {
            rest.push((e.param_name@, spec_pairs(spec_num_values(e.values)), false))
        } else {
            rest
        }
    }
}

/// The `point3fs` items a list of directive entries contributes.
pub open spec fn spec_init_point3fs<N>(es: Seq<ParamListEntry<N>>) -> Seq<(Seq<char>, Seq<Triple<N>>, bool)>
    decreases es.len(),
{
    if es.len() == 0 {
        Seq::empty()
    } else {
        let rest = spec_init_point3fs(es.drop_last());
        let e = es.last();
        if e.param_type == ParamType::Point3 {
            rest.push((e.param_name@, spec_triples(spec_num_values(e.values)), false))
        } else {
            rest
        }
    }
}

/// The `vector3fs` items a list of directive entries contributes.
pub open spec fn spec_init_vector3fs<N>(es: Seq<ParamListEntry<N>>) -> Seq<(Seq<char>, Seq<Triple<N>>, bool)>
    decreases es.len(),
{
    if es.len() == 0 {
        Seq::empty()
    } else {
        let rest = spec_init_vector3fs(es.drop_last());
        let e = es.last();
        if e.param_type == ParamType::Vector3 {
            rest.push((e.param_name@, spec_triples(spec_num_values(e.values)), false))
        } else {
            rest
        }
    }
}

impl<N: Copy> ParamSet<N> {
    /// Files every entry of a directive's parameter list into its typed
    /// table, in order. Colours, points and vectors are grouped out of the
    /// flat numeric list, a trailing incomplete group dropped; boolean
    /// words parse as the word "true" or not. Entries of a type with no
    /// table here are dropped, and the driver logs an error for them.
    #[verifier::loop_isolation(false)]
    pub fn init(&mut self, entries: Vec<ParamListEntry<N>>)
        ensures
            items_view(final(self).bools@) == items_view(old(self).bools@) + spec_init_bools(entries@),
            items_view(final(self).ints@) == items_view(old(self).ints@) + spec_init_ints(entries@),
            items_view(final(self).floats@) == items_view(old(self).floats@) + spec_init_floats(entries@),
            items_view(final(self).strings@) == items_view(old(self).strings@) + spec_init_strings(entries@),
            items_view(final(self).spectra@) == items_view(old(self).spectra@) + spec_init_spectra(entries@),
            items_view(final(self).point2fs@) == items_view(old(self).point2fs@) + spec_init_point2fs(entries@),
            items_view(final(self).point3fs@) == items_view(old(self).point3fs@) + spec_init_point3fs(entries@),
            items_view(final(self).vector3fs@) == items_view(old(self).vector3fs@) + spec_init_vector3fs(entries@),
            items_view(final(self).textures@) == items_view(old(self).textures@),
    {
        let mut i: usize = 0;
        while i < entries.len()
            invariant
                items_view(self.bools@) == items_view(old(self).bools@) + spec_init_bools(entries@.take(i as int)),
                items_view(self.ints@) == items_view(old(self).ints@) + spec_init_ints(entries@.take(i as int)),
                items_view(self.floats@) == items_view(old(self).floats@) + spec_init_floats(entries@.take(i as int)),
                items_view(self.strings@) == items_view(old(self).strings@) + spec_init_strings(entries@.take(i as int)),
                items_view(self.spectra@) == items_view(old(self).spectra@) + spec_init_spectra(entries@.take(i as int)),
                items_view(self.point2fs@) == items_view(old(self).point2fs@) + spec_init_point2fs(entries@.take(i as int)),
                items_view(self.point3fs@) == items_view(old(self).point3fs@) + spec_init_point3fs(entries@.take(i as int)),
                items_view(self.vector3fs@) == items_view(old(self).vector3fs@) + spec_init_vector3fs(entries@.take(i as int)),
                items_view(self.textures@) == items_view(old(self).textures@),
                i <= entries@.len(),
            decreases entries@.len() - i,
        {
            let ghost pre = entries@.take(i as int);
            let e = &entries[i];
            let name = e.param_name.clone();
            match e.param_type {
                ParamType::Bool => {
                    let words = e.values.as_str_array();
                    proof {
                        assert(words@ =~= spec_str_values(e.values));
                    }
                    let bools = parse_bools(&words);
                    self.add_bool(name, bools);
                },
                ParamType::Int => {
                    let ints = e.values.as_int_array();
                    proof {
                        assert(ints@ =~= spec_int_values(e.values));
                    }
                    self.add_int(name, ints);
                },
                ParamType::Float => {
                    let nums = e.values.as_num_array();
                    proof {
                        assert(nums@ =~= spec_num_values(e.values));
                    }
                    self.add_float(name, nums);
                },
                ParamType::String => {
                    let words = e.values.as_str_array();
                    proof {
                        assert(words@ =~= spec_str_values(e.values));
                    }
                    self.add_string(name, words);
                },
                ParamType::Rgb => {
                    let nums = e.values.as_num_array();
                    proof {
                        assert(nums@ =~= spec_num_values(e.values));
                    }
                    let spectra = chunk_triples(&nums);
                    self.add_spectrum(name, spectra);
                },
                ParamType::Point2 => {
                    let nums = e.values.as_num_array();
                    proof {
                        assert(nums@ =~= spec_num_values(e.values));
                    }
                    let points = chunk_pairs(&nums);
                    self.add_point2f(name, points);
                },
                ParamType::Point3 => {
                    let nums = e.values.as_num_array();
                    proof {
                        assert(nums@ =~= spec_num_values(e.values));
                    }
                    let points = chunk_triples(&nums);
                    self.add_point3f(name, points);
                },
                ParamType::Vector3 => {
                    let nums = e.values.as_num_array();
                    proof {
                        assert(nums@ =~= spec_num_values(e.values));
                    }
                    let vectors = chunk_triples(&nums);
                    self.add_vector3f(name, vectors);
                },
                _ => {},
            }
            i = i + 1;
            proof {
                assert(entries@.take(i as int).drop_last() =~= pre);
                assert(entries@.take(i as int).last() == entries@[i - 1]);
                assert(items_view(self.bools@) =~= items_view(old(self).bools@) + spec_init_bools(
                    entries@.take(i as int),
                ));
                assert(items_view(self.ints@) =~= items_view(old(self).ints@) + spec_init_ints(
                    entries@.take(i as int),
                ));
                assert(items_view(self.floats@) =~= items_view(old(self).floats@) + spec_init_floats(
                    entries@.take(i as int),
                ));
                assert(items_view(self.strings@) =~= items_view(old(self).strings@) + spec_init_strings(
                    entries@.take(i as int),
                ));
                assert(items_view(self.spectra@) =~= items_view(old(self).spectra@) + spec_init_spectra(
                    entries@.take(i as int),
                ));
                assert(items_view(self.point2fs@) =~= items_view(old(self).point2fs@) + spec_init_point2fs(
                    entries@.take(i as int),
                ));
                assert(items_view(self.point3fs@) =~= items_view(old(self).point3fs@) + spec_init_point3fs(
                    entries@.take(i as int),
                ));
                assert(items_view(self.vector3fs@) =~= items_view(old(self).vector3fs@) + spec_init_vector3fs(
                    entries@.take(i as int),
                ));
            }
        }
        proof {
            assert(entries@.take(entries@.len() as int) =~= entries@);
        }
    }
}


/// The first value of the first entry with the name, when that entry has
/// any values.
pub open spec fn found_first_value<T>(items: Seq<ParamSetItem<T>>, name: Seq<char>) -> Option<T> {
    if has_match(items, name) && items[first_match(items, name)].values@.len() > 0 {
        Some(items[first_match(items, name)].values@[0])
    } else {
        None
    }
}

/// A texture-parameter lookup of a single string: the material's tables
/// supply the default for the geometry's.
pub fn texture_params_find_string<N: Copy>(
    geom: &mut ParamSet<N>,
    material: &mut ParamSet<N>,
    n: &String,
) -> (r: String)
    ensures
        match found_first_value(old(geom).strings@, n@) {
            Some(v) => r == v,
            None => match found_first_value(old(material).strings@, n@) {
                Some(v) => r == v,
                None => r@ == Seq::<char>::empty(),
            },
        },
        items_view(final(geom).strings@) == marked_view(old(geom).strings@, n@),
        items_view(final(material).strings@) == marked_view(old(material).strings@, n@),
        same_but_strings(old(geom), final(geom)),
        same_but_strings(old(material), final(material)),
{
    let mat_string = material.find_one_string(n, String::new());
    geom.find_one_string(n, mat_string)
}

/// A texture-parameter lookup of a single boolean: the material's tables
/// supply the default for the geometry's.
pub fn texture_params_find_bool<N: Copy>(
    geom: &mut ParamSet<N>,
    material: &mut ParamSet<N>,
    n: &String,
    d: bool,
) -> (r: bool)
    ensures
        r == find_one_value(
            old(geom).bools@,
            n@,
            find_one_value(old(material).bools@, n@, d),
        ),
        items_view(final(geom).bools@) == marked_view(old(geom).bools@, n@),
        items_view(final(material).bools@) == marked_view(old(material).bools@, n@),
        same_but_bools(old(geom), final(geom)),
        same_but_bools(old(material), final(material)),
{
    let d2 = material.find_one_bool(n, d);
    geom.find_one_bool(n, d2)
}

/// The texture name a texture parameter selects: the geometry's name when
/// it gives a non-empty one, else the material's; empty when neither
/// names a texture, and the caller then falls back to a constant texture.
/// The material's table is only consulted (and marked) when the geometry
/// gave no name.
pub fn texture_params_texture_name<N: Copy>(
    geom: &mut ParamSet<N>,
    material: &mut ParamSet<N>,
    n: &String,
) -> (r: String)
    ensures
        ({
            let g = found_first_value(old(geom).textures@, n@);
            match g {
                Some(v) => if v@ != Seq::<char>::empty() {
                    &&& r == v
                    &&& *final(material) == *old(material)
                } else {
                    texture_name_from_material(old(material), final(material), n@, r)
                },
                None => texture_name_from_material(old(material), final(material), n@, r),
            }
        }),
        items_view(final(geom).textures@) == marked_view(old(geom).textures@, n@),
        same_but_textures(old(geom), final(geom)),
{
    let name = geom.find_one_texture(n, String::new());
    if name.as_str().unicode_len() == 0 {
        proof {
            assert(name@ =~= Seq::<char>::empty());
        }
        material.find_one_texture(n, String::new())
    } else {
        name
    }
}

/// After the geometry gave no texture name: the material's name (possibly
/// empty) is the answer, and the material's table is marked.
pub open spec fn texture_name_from_material<N>(
    before: &ParamSet<N>,
    after: &ParamSet<N>,
    n: Seq<char>,
    r: String,
) -> bool {
    &&& match found_first_value(before.textures@, n) {
        Some(v) => r == v,
        None => r@ == Seq::<char>::empty(),
    }
    &&& items_view(after.textures@) == marked_view(before.textures@, n)
    &&& same_but_textures(before, after)
}

/// The constant colour a texture parameter falls back to when it names no
/// texture: the material's tables supply the default for the geometry's.
pub fn texture_params_fallback_spectrum<N: Copy>(
    geom: &mut ParamSet<N>,
    material: &mut ParamSet<N>,
    n: &String,
    default: Triple<N>,
) -> (r: Triple<N>)
    ensures
        r == find_one_value(
            old(geom).spectra@,
            n@,
            find_one_value(old(material).spectra@, n@, default),
        ),
        items_view(final(geom).spectra@) == marked_view(old(geom).spectra@, n@),
        items_view(final(material).spectra@) == marked_view(old(material).spectra@, n@),
        same_but_spectra(old(geom), final(geom)),
        same_but_spectra(old(material), final(material)),
{
    let val = material.find_one_spectrum(n, default);
    geom.find_one_spectrum(n, val)
}

/// The constant scalar a texture parameter falls back to when it names no
/// texture: the material's tables supply the default for the geometry's.
pub fn texture_params_fallback_float<N: Copy>(
    geom: &mut ParamSet<N>,
    material: &mut ParamSet<N>,
    n: &String,
    default: N,
) -> (r: N)
    ensures
        r == find_one_value(
            old(geom).floats@,
            n@,
            find_one_value(old(material).floats@, n@, default),
        ),
        items_view(final(geom).floats@) == marked_view(old(geom).floats@, n@),
        items_view(final(material).floats@) == marked_view(old(material).floats@, n@),
        same_but_floats(old(geom), final(geom)),
        same_but_floats(old(material), final(material)),
{
    let val = material.find_one_float(n, default);
    geom.find_one_float(n, val)
}

} // verus!
