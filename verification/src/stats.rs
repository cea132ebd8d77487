//! The global statistics accumulator.
//!
//! Worker threads keep thread-local counters and flush them here when they
//! exit; the driver prints the result once rendering is done. Counter names
//! follow a `Category/Title` convention for grouping in the report.
//!
//! Each table is an association list with pairwise-distinct names, viewed
//! as a map from name to accumulated value; the counters saturate rather
//! than wrap. Turning the raw numbers into text (unit scaling, averages,
//! percentages) is the report formatter's work, outside this library.

use vstd::prelude::*;
use vstd::pervasive::VecAdditionalExecFns;
use vstd::string::StrSliceExecFns;
use crate::registry::{
    assoc_view,
    distinct_names,
    find_name,
    lemma_assoc_contains_at,
    lemma_assoc_not_contains,
    lemma_assoc_update,
};

verus! {

/// The value a table holds for a name, or the zero-like default handed in.
pub open spec fn lookup_or<V>(m: Map<Seq<char>, V>, k: Seq<char>, d: V) -> V {
    if m.dom().contains(k) {
        m[k]
    } else {
        d
    }
}

/// Addition that stops at the top of the counter's range.
pub open spec fn spec_sat_add(a: u64, b: u64) -> u64 {
    if a + b <= u64::MAX {
        (a + b) as u64
    } else {
        u64::MAX
    }
}

fn sat_add(a: u64, b: u64) -> (r: u64)
    ensures
        r == spec_sat_add(a, b),
{
    if b <= u64::MAX - a {
        a + b
    } else {
        u64::MAX
    }
}

/// Adds `value` to the named slot of a saturating counter table, starting
/// the slot at zero when the name is new.
fn bump(table: &mut Vec<(String, u64)>, name: &String, value: u64)
    requires
        distinct_names(old(table)@),
    ensures
        distinct_names(final(table)@),
        assoc_view(final(table)@) =~= assoc_view(old(table)@).insert(
            name@,
            spec_sat_add(lookup_or(assoc_view(old(table)@), name@, 0), value),
        ),
{
    let found = find_name(table, name);
    match found {
        Some(i) => {
            proof {
                lemma_assoc_contains_at(table@, i as int);
            }
            let updated = sat_add(table[i].1, value);
            let nm = table[i].0.clone();
            let ghost old_table = table@;
            table.set(i, (nm, updated));
            proof {
                lemma_assoc_update(old_table, i as int, (table@[i as int].0, updated));
                assert(distinct_names(table@)) by {
                    assert(forall|k: int| 0 <= k < table@.len() ==> table@[k].0@ == old_table[k].0@);
                }
            }
        },
        None => {
            proof {
                lemma_assoc_not_contains(table@, name@);
            }
            let ghost old_table = table@;
            table.push((name.clone(), value));
            proof {
                assert(table@.drop_last() =~= old_table);
                assert(distinct_names(table@)) by {
                    assert(forall|k: int| 0 <= k < old_table.len() ==> table@[k].0@ == old_table[k].0@);
                }
            }
        },
    }
}


/// Running aggregate of one distribution-valued statistic.
#[derive(Debug, Copy, Clone, PartialEq, Eq, Structural)]
pub struct IntDistribution {
    pub sum: u64,
    pub count: u64,
    pub min: u64,
    pub max: u64,
}

/// How two reports of the same distribution combine.
pub open spec fn spec_merge_distribution(a: IntDistribution, b: IntDistribution) -> IntDistribution {
    IntDistribution {
        sum: spec_sat_add(a.sum, b.sum),
        count: spec_sat_add(a.count, b.count),
        min: if a.min <= b.min {
            a.min
        } else {
            b.min
        },
        max: if a.max >= b.max {
            a.max
        } else {
            b.max
        },
    }
}

/// How two reports of the same fraction-valued statistic combine.
pub open spec fn spec_merge_fraction(a: (u64, u64), b: (u64, u64)) -> (u64, u64) {
    (spec_sat_add(a.0, b.0), spec_sat_add(a.1, b.1))
}

/// Collects every statistic the worker threads report, keyed by name.
pub struct StatAccumulator {
    pub counters: Vec<(String, u64)>,
    pub memory_counters: Vec<(String, u64)>,
    pub int_distributions: Vec<(String, IntDistribution)>,
    pub percentages: Vec<(String, (u64, u64))>,
    pub ratios: Vec<(String, (u64, u64))>,
}

impl StatAccumulator {
    /// Established by the constructor and preserved by every method.
    pub open spec fn wf(self) -> bool {
        &&& distinct_names(self.counters@)
        &&& distinct_names(self.memory_counters@)
        &&& distinct_names(self.int_distributions@)
        &&& distinct_names(self.percentages@)
        &&& distinct_names(self.ratios@)
    }

    pub open spec fn counters_view(self) -> Map<Seq<char>, u64> {
        assoc_view(self.counters@)
    }

    pub open spec fn memory_counters_view(self) -> Map<Seq<char>, u64> {
        assoc_view(self.memory_counters@)
    }

    pub open spec fn int_distributions_view(self) -> Map<Seq<char>, IntDistribution> {
        assoc_view(self.int_distributions@)
    }

    pub open spec fn percentages_view(self) -> Map<Seq<char>, (u64, u64)> {
        assoc_view(self.percentages@)
    }

    pub open spec fn ratios_view(self) -> Map<Seq<char>, (u64, u64)> {
        assoc_view(self.ratios@)
    }

    pub fn new() -> (r: StatAccumulator)
        ensures
            r.wf(),
            r.counters_view() =~= Map::<Seq<char>, u64>::empty(),
            r.memory_counters_view() =~= Map::<Seq<char>, u64>::empty(),
            r.int_distributions_view() =~= Map::<Seq<char>, IntDistribution>::empty(),
            r.percentages_view() =~= Map::<Seq<char>, (u64, u64)>::empty(),
            r.ratios_view() =~= Map::<Seq<char>, (u64, u64)>::empty(),
    {
        StatAccumulator {
            counters: Vec::new(),
            memory_counters: Vec::new(),
            int_distributions: Vec::new(),
            percentages: Vec::new(),
            ratios: Vec::new(),
        }
    }

    /// Adds a flushed count to the named counter.
    pub fn report_counter(&mut self, name: &String, value: u64)
        requires
            old(self).wf(),
        ensures
            final(self).wf(),
            final(self).counters_view() =~= old(self).counters_view().insert(
                name@,
                spec_sat_add(lookup_or(old(self).counters_view(), name@, 0), value),
            ),
            final(self).memory_counters_view() == old(self).memory_counters_view(),
            final(self).int_distributions_view() == old(self).int_distributions_view(),
            final(self).percentages_view() == old(self).percentages_view(),
            final(self).ratios_view() == old(self).ratios_view(),
    {
        bump(&mut self.counters, name, value);
    }

    /// Adds a flushed byte count to the named memory counter.
    pub fn report_memory_counter(&mut self, name: &String, value: u64)
        requires
            old(self).wf(),
        ensures
            final(self).wf(),
            final(self).memory_counters_view() =~= old(self).memory_counters_view().insert(
                name@,
                spec_sat_add(lookup_or(old(self).memory_counters_view(), name@, 0), value),
            ),
            final(self).counters_view() == old(self).counters_view(),
            final(self).int_distributions_view() == old(self).int_distributions_view(),
            final(self).percentages_view() == old(self).percentages_view(),
            final(self).ratios_view() == old(self).ratios_view(),
    {
        bump(&mut self.memory_counters, name, value);
    }

    /// Folds a flushed distribution aggregate into the named distribution:
    /// sums and counts add, the extremes widen.
    pub fn report_int_distribution(&mut self, name: &String, sum: u64, count: u64, min: u64, max: u64)
        requires
            old(self).wf(),
        ensures
            final(self).wf(),
            final(self).int_distributions_view() =~= old(self).int_distributions_view().insert(
                name@,
                spec_merge_distribution(
                    lookup_or(
                        old(self).int_distributions_view(),
                        name@,
                        IntDistribution { sum: 0, count: 0, min, max },
                    ),
                    IntDistribution { sum, count, min, max },
                ),
            ),
            final(self).counters_view() == old(self).counters_view(),
            final(self).memory_counters_view() == old(self).memory_counters_view(),
            final(self).percentages_view() == old(self).percentages_view(),
            final(self).ratios_view() == old(self).ratios_view(),
    {
        let reported = IntDistribution { sum, count, min, max };
        let found = find_name(&self.int_distributions, name);
        match found {
            Some(i) => {
                proof {
                    lemma_assoc_contains_at(self.int_distributions@, i as int);
                }
                let existing = self.int_distributions[i].1;
                let merged = IntDistribution {
                    sum: sat_add(existing.sum, sum),
                    count: sat_add(existing.count, count),
                    min: if existing.min <= min {
                        existing.min
                    } else {
                        min
                    },
                    max: if existing.max >= max {
                        existing.max
                    } else {
                        max
                    },
                };
                let nm = self.int_distributions[i].0.clone();
                let ghost old_table = self.int_distributions@;
                self.int_distributions.set(i, (nm, merged));
                proof {
                    lemma_assoc_update(old_table, i as int, (self.int_distributions@[i as int].0, merged));
                    assert(distinct_names(self.int_distributions@)) by {
                        assert(forall|k: int|
                            0 <= k < self.int_distributions@.len()
                                ==> self.int_distributions@[k].0@ == old_table[k].0@);
                    }
                    assert(spec_merge_distribution(existing, reported) == merged);
                }
            },
            None => {
                proof {
                    lemma_assoc_not_contains(self.int_distributions@, name@);
                }
                let ghost old_table = self.int_distributions@;
                self.int_distributions.push((name.clone(), reported));
                proof {
                    assert(self.int_distributions@.drop_last() =~= old_table);
                    assert(distinct_names(self.int_distributions@)) by {
                        assert(forall|k: int|
                            0 <= k < old_table.len() ==> self.int_distributions@[k].0@
                                == old_table[k].0@);
                    }
                    assert(spec_merge_distribution(
                        IntDistribution { sum: 0, count: 0, min, max },
                        reported,
                    ) == reported);
                }
            },
        }
    }

    /// Adds a flushed hit/total pair to the named percentage.
    pub fn report_percentage(&mut self, name: &String, num: u64, denom: u64)
        requires
            old(self).wf(),
        ensures
            final(self).wf(),
            final(self).percentages_view() =~= old(self).percentages_view().insert(
                name@,
                spec_merge_fraction(lookup_or(old(self).percentages_view(), name@, (0, 0)), (num, denom)),
            ),
            final(self).counters_view() == old(self).counters_view(),
            final(self).memory_counters_view() == old(self).memory_counters_view(),
            final(self).int_distributions_view() == old(self).int_distributions_view(),
            final(self).ratios_view() == old(self).ratios_view(),
    {
        bump_fraction(&mut self.percentages, name, num, denom);
    }

    /// Adds a flushed count/reference pair to the named ratio.
    pub fn report_ratio(&mut self, name: &String, num: u64, denom: u64)
        requires
            old(self).wf(),
        ensures
            final(self).wf(),
            final(self).ratios_view() =~= old(self).ratios_view().insert(
                name@,
                spec_merge_fraction(lookup_or(old(self).ratios_view(), name@, (0, 0)), (num, denom)),
            ),
            final(self).counters_view() == old(self).counters_view(),
            final(self).memory_counters_view() == old(self).memory_counters_view(),
            final(self).int_distributions_view() == old(self).int_distributions_view(),
            final(self).percentages_view() == old(self).percentages_view(),
    {
        bump_fraction(&mut self.ratios, name, num, denom);
    }
}

impl Default for StatAccumulator {
    fn default() -> (r: Self)
        ensures
            r.wf(),
            r.counters_view() =~= Map::<Seq<char>, u64>::empty(),
            r.memory_counters_view() =~= Map::<Seq<char>, u64>::empty(),
            r.int_distributions_view() =~= Map::<Seq<char>, IntDistribution>::empty(),
            r.percentages_view() =~= Map::<Seq<char>, (u64, u64)>::empty(),
            r.ratios_view() =~= Map::<Seq<char>, (u64, u64)>::empty(),
    {
        StatAccumulator::new()
    }
}

/// Adds a numerator/denominator pair to the named slot of a fraction table.
fn bump_fraction(table: &mut Vec<(String, (u64, u64))>, name: &String, num: u64, denom: u64)
    requires
        distinct_names(old(table)@),
    ensures
        distinct_names(final(table)@),
        assoc_view(final(table)@) =~= assoc_view(old(table)@).insert(
            name@,
            spec_merge_fraction(lookup_or(assoc_view(old(table)@), name@, (0, 0)), (num, denom)),
        ),
{
    let found = find_name(table, name);
    match found {
        Some(i) => {
            proof {
                lemma_assoc_contains_at(table@, i as int);
            }
            let existing = table[i].1;
            let merged = (sat_add(existing.0, num), sat_add(existing.1, denom));
            let nm = table[i].0.clone();
            let ghost old_table = table@;
            table.set(i, (nm, merged));
            proof {
                lemma_assoc_update(old_table, i as int, (table@[i as int].0, merged));
                assert(distinct_names(table@)) by {
                    assert(forall|k: int| 0 <= k < table@.len() ==> table@[k].0@ == old_table[k].0@);
                }
            }
        },
        None => {
            proof {
                lemma_assoc_not_contains(table@, name@);
            }
            let ghost old_table = table@;
            table.push((name.clone(), (num, denom)));
            proof {
                assert(table@.drop_last() =~= old_table);
                assert(distinct_names(table@)) by {
                    assert(forall|k: int| 0 <= k < old_table.len() ==> table@[k].0@ == old_table[k].0@);
                }
            }
        },
    }
}


/// The index of the first occurrence of `c` in `n` at or after `from`, or
/// the length when there is none.
pub open spec fn spec_find_char(n: Seq<char>, c: char, from: int) -> int
    decreases n.len() - from,
{
    if from < 0 || from >= n.len() {
        n.len() as int
    } else if n[from] == c {
        from
    } else {
        spec_find_char(n, c, from + 1)
    }
}

/// The category a statistic's name selects: what stands before the first
/// `/`, or nothing when the name has no `/`.
pub open spec fn spec_category(n: Seq<char>) -> Seq<char> {
    let i = spec_find_char(n, '/', 0);
    if i == n.len() {
        Seq::empty()
    } else {
        n.take(i)
    }
}

/// The title a statistic's name selects: what stands between the first
/// `/` and the second (or the end), or the whole name when it has no `/`.
pub open spec fn spec_title(n: Seq<char>) -> Seq<char> {
    let i = spec_find_char(n, '/', 0);
    if i == n.len() {
        n
    } else {
        n.subrange(i + 1, spec_find_char(n, '/', i + 1))
    }
}

/// The first occurrence of `c` in `s` at or after `from`, or the length.
fn find_char(s: &str, c: char, from: usize) -> (r: usize)
    requires
        from <= s@.len(),
    ensures
        r == spec_find_char(s@, c, from as int),
        from <= r <= s@.len(),
{
    let n = s.unicode_len();
    let mut i: usize = from;
    while i < n
        invariant
            from <= i <= n,
            n == s@.len(),
            spec_find_char(s@, c, from as int) == spec_find_char(s@, c, i as int),
        decreases n - i,
    {
        if s.get_char(i) == c {
            return i;
        }
        i = i + 1;
    }
    n
}

impl StatAccumulator {
    /// Splits a statistic's name on `/` into its category and its title.
    pub fn get_category_and_title<'a>(&self, s: &'a String) -> (r: (&'a str, &'a str))
        ensures
            r.0@ == spec_category(s@),
            r.1@ == spec_title(s@),
    {
        let st = s.as_str();
        let n = st.unicode_len();
        let i = find_char(st, '/', 0);
        if i == n {
            proof {
                reveal_strlit("");
                assert(""@ =~= Seq::<char>::empty());
            }
            ("", s.as_str())
        } else {
            let j = find_char(st, '/', i + 1);
            (st.substring_char(0, i), st.substring_char(i + 1, j))
        }
    }
}


/// One line of the final report, before formatting: where it belongs, what
/// it is called, and the numbers behind it.
#[derive(Debug, Clone, PartialEq, Eq)]
pub struct StatEntry {
    pub category: String,
    pub title: String,
    pub value: StatValue,
}

/// The numbers behind one line of the report.
#[derive(Debug, Copy, Clone, PartialEq, Eq, Structural)]
pub enum StatValue {
    Counter(u64),
    Memory(u64),
    Distribution(IntDistribution),
    Percentage(u64, u64),
    Ratio(u64, u64),
}

/// A report line as mathematics: category, title, numbers.
pub open spec fn entry_view(e: StatEntry) -> (Seq<char>, Seq<char>, StatValue) {
    (e.category@, e.title@, e.value)
}

/// The report line a name/number pair contributes.
pub open spec fn spec_line(name: Seq<char>, v: StatValue) -> (Seq<char>, Seq<char>, StatValue) {
    (spec_category(name), spec_title(name), v)
}

/// The report lines of the counter table: zero counters are left out.
pub open spec fn spec_counter_entries(s: Seq<(String, u64)>) -> Seq<(Seq<char>, Seq<char>, StatValue)>
    decreases s.len(),
{
    if s.len() == 0 {
        Seq::empty()
    } else {
        let rest = spec_counter_entries(s.drop_last());
        if s.last().1 == 0 {
            rest
        } else {
            rest.push(spec_line(s.last().0@, StatValue::Counter(s.last().1)))
        }
    }
}

/// The report lines of the memory-counter table: zero counters are left out.
pub open spec fn spec_memory_entries(s: Seq<(String, u64)>) -> Seq<(Seq<char>, Seq<char>, StatValue)>
    decreases s.len(),
{
    if s.len() == 0 {
        Seq::empty()
    } else {
        let rest = spec_memory_entries(s.drop_last());
        if s.last().1 == 0 {
            rest
        } else {
            rest.push(spec_line(s.last().0@, StatValue::Memory(s.last().1)))
        }
    }
}

/// The report lines of the distribution table: empty distributions are
/// left out.
pub open spec fn spec_distribution_entries(s: Seq<(String, IntDistribution)>) -> Seq<
    (Seq<char>, Seq<char>, StatValue),
>
    decreases s.len(),
{
    if s.len() == 0 {
        Seq::empty()
    } else {
        let rest = spec_distribution_entries(s.drop_last());
        if s.last().1.count == 0 {
            rest
        } else {
            rest.push(spec_line(s.last().0@, StatValue::Distribution(s.last().1)))
        }
    }
}

/// The report lines of the percentage table: fractions with a zero
/// denominator are left out.
pub open spec fn spec_percentage_entries(s: Seq<(String, (u64, u64))>) -> Seq<
    (Seq<char>, Seq<char>, StatValue),
>
    decreases s.len(),
{
    if s.len() == 0 {
        Seq::empty()
    } else {
        let rest = spec_percentage_entries(s.drop_last());
        if s.last().1.1 == 0 {
            rest
        } else {
            rest.push(spec_line(s.last().0@, StatValue::Percentage(s.last().1.0, s.last().1.1)))
        }
    }
}

/// The report lines of the ratio table: fractions with a zero denominator
/// are left out.
pub open spec fn spec_ratio_entries(s: Seq<(String, (u64, u64))>) -> Seq<
    (Seq<char>, Seq<char>, StatValue),
>
    decreases s.len(),
{
    if s.len() == 0 {
        Seq::empty()
    } else {
        let rest = spec_ratio_entries(s.drop_last());
        if s.last().1.1 == 0 {
            rest
        } else {
            rest.push(spec_line(s.last().0@, StatValue::Ratio(s.last().1.0, s.last().1.1)))
        }
    }
}

/// Builds the report line for one name/number pair.
fn make_entry(name: &String, value: StatValue) -> (e: StatEntry)
    ensures
        entry_view(e) == spec_line(name@, value),
{
    let (category, title) = split_category_title(name);
    StatEntry { category: category.to_owned(), title: title.to_owned(), value }
}

/// Splits a statistic's name on `/` into its category and its title.
fn split_category_title<'a>(s: &'a String) -> (r: (&'a str, &'a str))
    ensures
        r.0@ == spec_category(s@),
        r.1@ == spec_title(s@),
{
    let st = s.as_str();
    let n = st.unicode_len();
    let i = find_char(st, '/', 0);
    if i == n {
        proof {
            reveal_strlit("");
            assert(""@ =~= Seq::<char>::empty());
        }
        ("", s.as_str())
    } else {
        let j = find_char(st, '/', i + 1);
        (st.substring_char(0, i), st.substring_char(i + 1, j))
    }
}

impl StatAccumulator {
    /// The lines of the statistics report, in table order (counters,
    /// memory, distributions, percentages, ratios) and within each table in
    /// the order the names were first reported. Grouping the lines by
    /// category and formatting the numbers is the printer's work.
    #[verifier::loop_isolation(false)]
    pub fn entries(&self) -> (r: Vec<StatEntry>)
        ensures
            r@.map_values(|e: StatEntry| entry_view(e)) == spec_counter_entries(self.counters@)
                + spec_memory_entries(self.memory_counters@) + spec_distribution_entries(
                self.int_distributions@,
            ) + spec_percentage_entries(self.percentages@) + spec_ratio_entries(self.ratios@),
    {
        let mut out: Vec<StatEntry> = Vec::new();
        let ghost f = |e: StatEntry| entry_view(e);

        let mut i: usize = 0;
        while i < self.counters.len()
            invariant
                i <= self.counters@.len(),
                out@.map_values(f) == spec_counter_entries(self.counters@.take(i as int)),
            decreases self.counters@.len() - i,
        {
            let ghost pre = self.counters@.take(i as int);
            let pair = &self.counters[i];
            if pair.1 != 0 {
                let e = make_entry(&pair.0, StatValue::Counter(pair.1));
                let ghost old_out = out@;
                out.push(e);
                proof {
                    assert(out@.map_values(f) =~= old_out.map_values(f).push(f(e)));
                }
            }
            i = i + 1;
            proof {
                assert(self.counters@.take(i as int).drop_last() =~= pre);
                assert(self.counters@.take(i as int).last() == self.counters@[i - 1]);
            }
        }
        proof {
            assert(self.counters@.take(self.counters@.len() as int) =~= self.counters@);
        }

        let ghost done_counters = out@.map_values(f);
        let mut i: usize = 0;
        while i < self.memory_counters.len()
            invariant
                i <= self.memory_counters@.len(),
                out@.map_values(f) == done_counters + spec_memory_entries(
                    self.memory_counters@.take(i as int),
                ),
            decreases self.memory_counters@.len() - i,
        {
            let ghost pre = self.memory_counters@.take(i as int);
            let pair = &self.memory_counters[i];
            if pair.1 != 0 {
                let e = make_entry(&pair.0, StatValue::Memory(pair.1));
                let ghost old_out = out@;
                out.push(e);
                proof {
                    assert(out@.map_values(f) =~= old_out.map_values(f).push(f(e)));
                    assert(done_counters + spec_memory_entries(pre).push(f(e)) =~= (done_counters
                        + spec_memory_entries(pre)).push(f(e)));
                }
            }
            i = i + 1;
            proof {
                assert(self.memory_counters@.take(i as int).drop_last() =~= pre);
                assert(self.memory_counters@.take(i as int).last() == self.memory_counters@[i - 1]);
            }
        }
        proof {
            assert(self.memory_counters@.take(self.memory_counters@.len() as int)
                =~= self.memory_counters@);
        }

        let ghost done_memory = out@.map_values(f);
        let mut i: usize = 0;
        while i < self.int_distributions.len()
            invariant
                i <= self.int_distributions@.len(),
                out@.map_values(f) == done_memory + spec_distribution_entries(
                    self.int_distributions@.take(i as int),
                ),
            decreases self.int_distributions@.len() - i,
        {
            let ghost pre = self.int_distributions@.take(i as int);
            let pair = &self.int_distributions[i];
            if pair.1.count != 0 {
                let e = make_entry(&pair.0, StatValue::Distribution(pair.1));
                let ghost old_out = out@;
                out.push(e);
                proof {
                    assert(out@.map_values(f) =~= old_out.map_values(f).push(f(e)));
                    assert(done_memory + spec_distribution_entries(pre).push(f(e)) =~= (done_memory
                        + spec_distribution_entries(pre)).push(f(e)));
                }
            }
            i = i + 1;
            proof {
                assert(self.int_distributions@.take(i as int).drop_last() =~= pre);
                assert(self.int_distributions@.take(i as int).last() == self.int_distributions@[i
                    - 1]);
            }
        }
        proof {
            assert(self.int_distributions@.take(self.int_distributions@.len() as int)
                =~= self.int_distributions@);
        }

        let ghost done_distributions = out@.map_values(f);
        let mut i: usize = 0;
        while i < self.percentages.len()
            invariant
                i <= self.percentages@.len(),
                out@.map_values(f) == done_distributions + spec_percentage_entries(
                    self.percentages@.take(i as int),
                ),
            decreases self.percentages@.len() - i,
        {
            let ghost pre = self.percentages@.take(i as int);
            let pair = &self.percentages[i];
            if pair.1.1 != 0 {
                let e = make_entry(&pair.0, StatValue::Percentage(pair.1.0, pair.1.1));
                let ghost old_out = out@;
                out.push(e);
                proof {
                    assert(out@.map_values(f) =~= old_out.map_values(f).push(f(e)));
                    assert(done_distributions + spec_percentage_entries(pre).push(f(e))
                        =~= (done_distributions + spec_percentage_entries(pre)).push(f(e)));
                }
            }
            i = i + 1;
            proof {
                assert(self.percentages@.take(i as int).drop_last() =~= pre);
                assert(self.percentages@.take(i as int).last() == self.percentages@[i - 1]);
            }
        }
        proof {
            assert(self.percentages@.take(self.percentages@.len() as int) =~= self.percentages@);
        }

        let ghost done_percentages = out@.map_values(f);
        let mut i: usize = 0;
        while i < self.ratios.len()
            invariant
                i <= self.ratios@.len(),
                out@.map_values(f) == done_percentages + spec_ratio_entries(
                    self.ratios@.take(i as int),
                ),
            decreases self.ratios@.len() - i,
        {
            let ghost pre = self.ratios@.take(i as int);
            let pair = &self.ratios[i];
            if pair.1.1 != 0 {
                let e = make_entry(&pair.0, StatValue::Ratio(pair.1.0, pair.1.1));
                let ghost old_out = out@;
                out.push(e);
                proof {
                    assert(out@.map_values(f) =~= old_out.map_values(f).push(f(e)));
                    assert(done_percentages + spec_ratio_entries(pre).push(f(e))
                        =~= (done_percentages + spec_ratio_entries(pre)).push(f(e)));
                }
            }
            i = i + 1;
            proof {
                assert(self.ratios@.take(i as int).drop_last() =~= pre);
                assert(self.ratios@.take(i as int).last() == self.ratios@[i - 1]);
            }
        }
        proof {
            assert(self.ratios@.take(self.ratios@.len() as int) =~= self.ratios@);
        }

        out
    }
}

} // verus!
