//! The BSDF lobe-type algebra.
//!
//! Every scattering lobe carries a set of type flags (reflection or
//! transmission, diffuse, glossy or specular), and the BSDF evaluation
//! selects lobes whose flags match the caller's request and whose side of
//! the surface agrees with the pair of directions. The flag algebra and
//! the selection rule are verified here; the scattering arithmetic itself
//! is floating-point work and stays with the driver.

use vstd::prelude::*;

verus! {

/// The lobe reflects: outgoing and incoming directions share a hemisphere.
pub const BSDF_REFLECTION: u32 = 0b00000001;

/// The lobe transmits: the directions lie in opposite hemispheres.
pub const BSDF_TRANSMISSION: u32 = 0b00000010;

/// A diffuse lobe.
pub const BSDF_DIFFUSE: u32 = 0b00000100;

/// A glossy lobe.
pub const BSDF_GLOSSY: u32 = 0b00001000;

/// A specular lobe: a delta distribution, never sampled by chance.
pub const BSDF_SPECULAR: u32 = 0b00010000;

/// A set of lobe-type flags.
#[derive(Debug, Clone, Copy, PartialEq, Eq, Structural)]
pub struct BxDFType {
    pub bits: u32,
}

impl BxDFType {
    /// This set holds every flag of `other`.
    pub open spec fn spec_contains(self, other: BxDFType) -> bool {
        self.bits & other.bits == other.bits
    }

    /// A lobe of this type answers a request for `flags`: all of the
    /// lobe's flags are within the request.
    pub open spec fn spec_matches(self, flags: BxDFType) -> bool {
        self.bits & flags.bits == self.bits
    }

    pub fn new(bits: u32) -> (r: BxDFType)
        ensures
            r.bits == bits,
    {
        BxDFType { bits }
    }

    /// No flags at all.
    pub fn empty() -> (r: BxDFType)
        ensures
            r.bits == 0,
    {
        BxDFType { bits: 0 }
    }

    /// Whether this set holds every flag of `other`.
    pub fn contains(&self, other: BxDFType) -> (r: bool)
        ensures
            r == self.spec_contains(other),
    {
        self.bits & other.bits == other.bits
    }

    /// Whether a lobe of this type answers a request for `flags`.
    pub fn matches(&self, flags: BxDFType) -> (r: bool)
        ensures
            r == self.spec_matches(flags),
    {
        self.bits & flags.bits == self.bits
    }

    /// Both sets of flags together.
    pub fn union(self, other: BxDFType) -> (r: BxDFType)
        ensures
            r.bits == self.bits | other.bits,
            r.spec_contains(self),
            r.spec_contains(other),
    {
        let a = self.bits;
        let b = other.bits;
        let c = a | b;
        proof {
            assert(c & a == a && c & b == b) by (bit_vector)
                requires
                    c == a | b,
            {
            }
        }
        BxDFType { bits: c }
    }
}

/// Whether one lobe takes part in evaluating the BSDF for a pair of
/// directions: its type must answer the requested flags, and it must
/// reflect when the directions share the geometric hemisphere and transmit
/// when they do not.
pub open spec fn spec_lobe_participates(t: BxDFType, flags: BxDFType, reflect: bool) -> bool {
    &&& t.spec_matches(flags)
    &&& if reflect {
        t.spec_contains(BxDFType { bits: BSDF_REFLECTION })
    } else {
        t.spec_contains(BxDFType { bits: BSDF_TRANSMISSION })
    }
}

/// The lobe-selection rule of the BSDF evaluation: `reflect` says whether
/// the outgoing and incoming directions lie on the same side of the
/// geometric normal.
pub fn lobe_participates(t: BxDFType, flags: BxDFType, reflect: bool) -> (r: bool)
    ensures
        r == spec_lobe_participates(t, flags, reflect),
{
    t.matches(flags) && ((reflect && t.contains(BxDFType { bits: BSDF_REFLECTION })) || (!reflect
        && t.contains(BxDFType { bits: BSDF_TRANSMISSION })))
}


/// How many lobes answer a request for `flags`: the BSDF's sampling picks
/// uniformly among exactly these, and a request no lobe answers returns a
/// zero sample.
pub open spec fn spec_num_matching(lobes: Seq<BxDFType>, flags: BxDFType) -> nat
    decreases lobes.len(),
{
    if lobes.len() == 0 {
        0
    } else {
        spec_num_matching(lobes.drop_last(), flags) + if lobes.last().spec_matches(flags) {
            1nat
        } else {
            0nat
        }
    }
}

/// A prefix of the lobe list never holds more matches than the whole.
proof fn lemma_num_matching_prefix(lobes: Seq<BxDFType>, flags: BxDFType, i: int)
    requires
        0 <= i <= lobes.len(),
    ensures
        spec_num_matching(lobes.take(i), flags) <= spec_num_matching(lobes, flags),
    decreases lobes.len(),
{
    if i == lobes.len() {
        assert(lobes.take(i) =~= lobes);
    } else {
        assert(lobes.take(i) =~= lobes.drop_last().take(i));
        lemma_num_matching_prefix(lobes.drop_last(), flags, i);
    }
}

/// Counts the lobes whose type answers the requested flags.
pub fn num_matching_lobes(lobes: &Vec<BxDFType>, flags: BxDFType) -> (n: usize)
    ensures
        n == spec_num_matching(lobes@, flags),
{
    let mut n: usize = 0;
    let mut i: usize = 0;
    while i < lobes.len()
        invariant
            i <= lobes@.len(),
            n <= i,
            n == spec_num_matching(lobes@.take(i as int), flags),
        decreases lobes@.len() - i,
    {
        let ghost pre = lobes@.take(i as int);
        if lobes[i].matches(flags) {
            n = n + 1;
        }
        i = i + 1;
        proof {
            assert(lobes@.take(i as int).drop_last() =~= pre);
            assert(lobes@.take(i as int).last() == lobes@[i - 1]);
        }
    }
    proof {
        assert(lobes@.take(lobes@.len() as int) =~= lobes@);
    }
    n
}

/// The index of the lobe a uniform choice among the matching lobes picks:
/// the one with exactly `k` matching lobes before it, or nothing when
/// fewer than `k + 1` lobes match at all.
pub fn matching_lobe(lobes: &Vec<BxDFType>, flags: BxDFType, k: usize) -> (r: Option<usize>)
    ensures
        r is Some <==> k < spec_num_matching(lobes@, flags),
        r is Some ==> {
            let i = r->Some_0 as int;
            &&& i < lobes@.len()
            &&& lobes@[i].spec_matches(flags)
            &&& spec_num_matching(lobes@.take(i), flags) == k
        },
{
    let mut count: usize = 0;
    let mut i: usize = 0;
    while i < lobes.len()
        invariant
            i <= lobes@.len(),
            count <= k,
            count == spec_num_matching(lobes@.take(i as int), flags),
        decreases lobes@.len() - i,
    {
        let ghost pre = lobes@.take(i as int);
        if lobes[i].matches(flags) {
            if count == k {
                proof {
                    assert(lobes@.take(i + 1).drop_last() =~= pre);
                    assert(lobes@.take(i + 1).last() == lobes@[i as int]);
                    lemma_num_matching_prefix(lobes@, flags, i + 1);
                }
                return Some(i);
            }
            count = count + 1;
        }
        i = i + 1;
        proof {
            assert(lobes@.take(i as int).drop_last() =~= pre);
            assert(lobes@.take(i as int).last() == lobes@[i - 1]);
        }
    }
    proof {
        assert(lobes@.take(lobes@.len() as int) =~= lobes@);
    }
    None
}

} // verus!
