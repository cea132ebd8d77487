//! MIP maps: image pyramids for prefiltered texture lookups.
//!
//! A pyramid holds an image and its repeated 2x2 box-filtered halvings down
//! to a single texel; a lookup reads a level through a wrap mode. The
//! pyramid structure, the texel addressing and the level arithmetic are
//! verified here over any texel type with an exact average; blending
//! between levels by a floating-point filter width, and the Lanczos
//! resampling of an image whose sides are not powers of two, are
//! floating-point work and stay with the driver.

use vstd::prelude::*;
use vstd::arithmetic::power2::{
    pow2,
    is_pow2,
    lemma_pow2_pos,
    lemma_pow2_unfold,
    lemma_pow2_strictly_increases,
    lemma2_to64,
};
use vstd::arithmetic::div_mod::{
    lemma_fundamental_div_mod,
    lemma_mod_bound,
    lemma_div_denominator,
};

verus! {

/// How texel coordinates outside a level are brought back in.
#[derive(Debug, Clone, Copy, PartialEq, Eq, Structural)]
pub enum WrapMode {
    Repeat,
    Black,
    Clamp,
}

/// The mathematical (always non-negative) remainder of `a` modulo `b`.
pub fn modulo(a: isize, b: isize) -> (r: usize)
    requires
        b > 0,
    ensures
        r as int == (a as int) % (b as int),
        r < b,
{
    let bu = b as usize;
    if a >= 0 {
        (a as usize) % bu
    } else {
        // for negative a, work with the magnitude less one, which cannot
        // overflow, and flip the remainder
        let neg = (-1 - a) as usize;
        let q = neg % bu;
        proof {
            let k = neg as int / b as int;
            lemma_fundamental_div_mod(neg as int, b as int);
            lemma_mod_bound(neg as int, b as int);
            assert(a as int == (-(k + 1)) * (b as int) + (b - 1 - q)) by (nonlinear_arith)
                requires
                    neg as int == (b as int) * k + q,
                    a as int == -1 - neg as int,
            {
            }
            vstd::arithmetic::div_mod::lemma_fundamental_div_mod_converse(
                a as int,
                b as int,
                -(k + 1),
                b - 1 - q,
            );
        }
        bu - 1 - q
    }
}

/// Whether `n` is a power of two (zero is not).
pub fn is_power_of_2(n: usize) -> (r: bool)
    ensures
        r == is_pow2(n as int),
{
    proof {
        reveal(is_pow2);
    }
    if n == 0 {
        return false;
    }
    let mut m = n;
    while m % 2 == 0
        invariant
            m >= 1,
            is_pow2(n as int) == is_pow2(m as int),
        decreases m,
    {
        proof {
            reveal(is_pow2);
        }
        m = m / 2;
    }
    proof {
        reveal(is_pow2);
    }
    m == 1
}

/// The least power of two at or above `n`.
pub fn round_up_pow_2(n: usize) -> (r: usize)
    requires
        1 <= n <= 0x4000_0000,
    ensures
        is_pow2(r as int),
        n <= r < 2 * n,
{
    proof {
        reveal(is_pow2);
    }
    let mut r: usize = 1;
    while r < n
        invariant
            is_pow2(r as int),
            1 <= r < 2 * n,
            n <= 0x4000_0000,
        decreases 2 * n - r,
    {
        proof {
            reveal(is_pow2);
            assert(is_pow2(2 * r as int)) by {
                reveal(is_pow2);
                assert((2 * r as int) % 2 == 0);
                assert((2 * r as int) / 2 == r as int);
            }
        }
        r = r * 2;
    }
    r
}

/// How many levels the pyramid of a `w` by `h` image has: one more than
/// the position of the highest bit of the larger side.
pub fn num_levels(w: usize, h: usize) -> (r: usize)
    requires
        w >= 1,
        h >= 1,
    ensures
        r >= 1,
        pow2((r - 1) as nat) <= (if w >= h {
            w
        } else {
            h
        }) < pow2(r as nat),
{
    let top: usize = if w >= h {
        w
    } else {
        h
    };
    let mut m: usize = top;
    let mut lvl: usize = 1;
    proof {
        lemma2_to64();
        assert(pow2(0) == 1);
        assert(m == top as int / pow2(0) as int);
    }
    while m > 1
        invariant
            1 <= m,
            1 <= lvl,
            top >= 1,
            m == top as int / pow2((lvl - 1) as nat) as int,
            pow2((lvl - 1) as nat) <= top,
        decreases m,
    {
        proof {
            lemma_pow2_pos((lvl - 1) as nat);
            lemma_pow2_unfold(lvl as nat);
            lemma_div_denominator(top as int, pow2((lvl - 1) as nat) as int, 2);
            // the next level still divides into something at least 1
            lemma_fundamental_div_mod(top as int / pow2((lvl - 1) as nat) as int, 2);
            assert(lvl < 64) by {
                if lvl >= 64 {
                    lemma2_to64();
                    if lvl > 64 {
                        lemma_pow2_strictly_increases(64, (lvl - 1) as nat);
                    }
                    assert(pow2((lvl - 1) as nat) >= pow2(64));
                    assert(top < pow2(64));
                }
            }
        }
        m = m / 2;
        lvl = lvl + 1;
        proof {
            assert(pow2((lvl - 1) as nat) <= top) by {
                lemma_pow2_pos((lvl - 1) as nat);
                if pow2((lvl - 1) as nat) > top {
                    vstd::arithmetic::div_mod::lemma_basic_div(
                        top as int,
                        pow2((lvl - 1) as nat) as int,
                    );
                }
            }
        }
    }
    proof {
        lemma_pow2_pos((lvl - 1) as nat);
        lemma_pow2_unfold(lvl as nat);
        lemma_fundamental_div_mod(top as int, pow2((lvl - 1) as nat) as int);
        lemma_mod_bound(top as int, pow2((lvl - 1) as nat) as int);
        assert(top < pow2(lvl as nat));
    }
    lvl
}


/// A rectangular array of texels in row-major order.
#[derive(Debug)]
pub struct Grid<T> {
    pub data: Vec<T>,
    pub width: usize,
    pub height: usize,
}

impl<T: Copy> Grid<T> {
    pub open spec fn wf(self) -> bool {
        &&& 1 <= self.width <= 0x4000_0000
        &&& 1 <= self.height <= 0x4000_0000
        &&& self.data@.len() == self.width * self.height
    }

    /// The texel at column `s`, row `t`.
    pub open spec fn spec_at(self, s: int, t: int) -> T {
        self.data@[t * self.width + s]
    }

    pub fn from_vec(width: usize, height: usize, data: Vec<T>) -> (g: Grid<T>)
        requires
            1 <= width <= 0x4000_0000,
            1 <= height <= 0x4000_0000,
            data@.len() == width * height,
        ensures
            g.wf(),
            g.width == width,
            g.height == height,
            g.data@ == data@,
    {
        Grid { data, width, height }
    }

    /// Reads the texel at column `s`, row `t`.
    pub fn get(&self, s: usize, t: usize) -> (r: T)
        requires
            self.wf(),
            s < self.width,
            t < self.height,
        ensures
            r == self.spec_at(s as int, t as int),
    {
        let n = self.data.len();
        proof {
            assert((t as int) * self.width + s < self.width * self.height) by (nonlinear_arith)
                requires
                    s < self.width,
                    t < self.height,
                    self.width >= 1,
            {
            }
        }
        self.data[t * self.width + s]
    }

    /// The width, under the name the blocked texel layout uses.
    pub fn u_size(&self) -> (r: usize)
        ensures
            r == self.width,
    {
        self.width
    }

    /// The height, under the name the blocked texel layout uses.
    pub fn v_size(&self) -> (r: usize)
        ensures
            r == self.height,
    {
        self.height
    }
}

/// A coordinate clamped into `[0, size)`.
pub open spec fn spec_clamp_index(s: int, size: int) -> int {
    if s < 0 {
        0
    } else if s >= size {
        size - 1
    } else {
        s
    }
}

/// The texel a (possibly out-of-range) coordinate pair reads from a level,
/// per wrap mode: repeat wraps modularly, clamp sticks to the edge, black
/// reads a sentinel outside the level.
pub open spec fn spec_grid_texel<T: Copy>(g: Grid<T>, wrap: WrapMode, black: T, s: int, t: int) -> T {
    match wrap {
        WrapMode::Repeat => g.spec_at(s % (g.width as int), t % (g.height as int)),
        WrapMode::Clamp => g.spec_at(
            spec_clamp_index(s, g.width as int),
            spec_clamp_index(t, g.height as int),
        ),
        WrapMode::Black => if s < 0 || s >= g.width || t < 0 || t >= g.height {
            black
        } else {
            g.spec_at(s, t)
        },
    }
}

/// Reads a level through the wrap mode.
fn grid_texel<T: Copy>(g: &Grid<T>, wrap: WrapMode, black: T, s: isize, t: isize) -> (r: T)
    requires
        g.wf(),
    ensures
        r == spec_grid_texel(*g, wrap, black, s as int, t as int),
{
    match wrap {
        WrapMode::Repeat => {
            let ss = modulo(s, g.width as isize);
            let tt = modulo(t, g.height as isize);
            g.get(ss, tt)
        },
        WrapMode::Clamp => {
            let ss = clamp_index(s, g.width);
            let tt = clamp_index(t, g.height);
            g.get(ss, tt)
        },
        WrapMode::Black => {
            if s < 0 || s >= g.width as isize || t < 0 || t >= g.height as isize {
                black
            } else {
                g.get(s as usize, t as usize)
            }
        },
    }
}

/// Clamps a coordinate into `[0, size)`.
fn clamp_index(s: isize, size: usize) -> (r: usize)
    requires
        1 <= size <= 0x4000_0000,
    ensures
        r as int == spec_clamp_index(s as int, size as int),
        r < size,
{
    if s < 0 {
        0
    } else if s as usize >= size {
        size - 1
    } else {
        s as usize
    }
}

/// A texel type whose 2x2 box filter is exact: four equal texels average
/// to themselves.
pub trait Texel: Copy + Sized {
    /// The average of four texels.
    spec fn spec_avg4(a: Self, b: Self, c: Self, d: Self) -> Self;

    /// Computes the average of four texels.
    fn avg4(a: Self, b: Self, c: Self, d: Self) -> (r: Self)
        ensures
            r == Self::spec_avg4(a, b, c, d),
    ;

    /// Averaging a texel with itself changes nothing.
    proof fn avg4_constant(v: Self)
        ensures
            Self::spec_avg4(v, v, v, v) == v,
    ;
}

/// Fixed-point texels: the integer average, rounded down.
impl Texel for u32 {
    open spec fn spec_avg4(a: u32, b: u32, c: u32, d: u32) -> u32 {
        ((a + b + c + d) / 4) as u32
    }

    fn avg4(a: u32, b: u32, c: u32, d: u32) -> (r: u32) {
        ((a as u64 + b as u64 + c as u64 + d as u64) / 4) as u32
    }

    proof fn avg4_constant(v: u32) {
        assert((v + v + v + v) / 4 == v as int) by {
            vstd::arithmetic::div_mod::lemma_div_multiples_vanish(v as int, 4);
            assert(v + v + v + v == 4 * (v as int));
        }
    }
}

/// `cur` is `prev` halved (never below one texel a side) by the exact 2x2
/// box filter, read through the wrap mode.
pub open spec fn is_downsample<T: Texel>(prev: Grid<T>, cur: Grid<T>, wrap: WrapMode, black: T) -> bool {
    &&& cur.width == (if prev.width / 2 >= 1 {
        prev.width / 2
    } else {
        1
    })
    &&& cur.height == (if prev.height / 2 >= 1 {
        prev.height / 2
    } else {
        1
    })
    &&& forall|s: int, t: int|
        0 <= s < cur.width && 0 <= t < cur.height ==> (#[trigger] cur.spec_at(s, t))
            == T::spec_avg4(
            spec_grid_texel(prev, wrap, black, 2 * s, 2 * t),
            spec_grid_texel(prev, wrap, black, 2 * s + 1, 2 * t),
            spec_grid_texel(prev, wrap, black, 2 * s, 2 * t + 1),
            spec_grid_texel(prev, wrap, black, 2 * s + 1, 2 * t + 1),
        )
}

/// Builds the next, halved pyramid level from the previous one.
#[verifier::loop_isolation(false)]
fn downsample<T: Texel>(prev: &Grid<T>, wrap: WrapMode, black: T) -> (g: Grid<T>)
    requires
        prev.wf(),
    ensures
        g.wf(),
        is_downsample(*prev, g, wrap, black),
{
    let s_res: usize = if prev.width / 2 >= 1 {
        prev.width / 2
    } else {
        1
    };
    let t_res: usize = if prev.height / 2 >= 1 {
        prev.height / 2
    } else {
        1
    };
    let ghost expected = |s: int, t: int|
        T::spec_avg4(
            spec_grid_texel(*prev, wrap, black, 2 * s, 2 * t),
            spec_grid_texel(*prev, wrap, black, 2 * s + 1, 2 * t),
            spec_grid_texel(*prev, wrap, black, 2 * s, 2 * t + 1),
            spec_grid_texel(*prev, wrap, black, 2 * s + 1, 2 * t + 1),
        );
    let mut data: Vec<T> = Vec::new();
    let mut t: usize = 0;
    while t < t_res
        invariant
            t <= t_res,
            data@.len() == t * s_res,
            forall|k: int| 0 <= k < data@.len() ==> #[trigger] data@[k] == expected(
                k % s_res as int,
                k / s_res as int,
            ),
        decreases t_res - t,
    {
        let mut ss: usize = 0;
        proof {
            assert(t * s_res + s_res <= t_res * s_res) by (nonlinear_arith)
                requires
                    t < t_res,
                    s_res >= 1,
            {
            }
            assert(t_res * s_res <= 0x4000_0000 * 0x4000_0000) by (nonlinear_arith)
                requires
                    t_res <= 0x4000_0000,
                    s_res <= 0x4000_0000,
            {
            }
        }
        while ss < s_res
            invariant
                ss <= s_res,
                data@.len() == t * s_res + ss,
                t < t_res,
                forall|k: int| 0 <= k < data@.len() ==> #[trigger] data@[k] == expected(
                    k % s_res as int,
                    k / s_res as int,
                ),
            decreases s_res - ss,
        {
            let v = T::avg4(
                grid_texel(prev, wrap, black, 2 * ss as isize, 2 * t as isize),
                grid_texel(prev, wrap, black, 2 * ss as isize + 1, 2 * t as isize),
                grid_texel(prev, wrap, black, 2 * ss as isize, 2 * t as isize + 1),
                grid_texel(prev, wrap, black, 2 * ss as isize + 1, 2 * t as isize + 1),
            );
            data.push(v);
            ss = ss + 1;
            proof {
                let k = data@.len() - 1;
                vstd::arithmetic::div_mod::lemma_fundamental_div_mod_converse(
                    k,
                    s_res as int,
                    t as int,
                    ss - 1,
                );
                assert(data@[k] == expected(k % s_res as int, k / s_res as int));
            }
        }
        proof {
            assert((t + 1) * s_res == t * s_res + s_res) by (nonlinear_arith);
        }
        t = t + 1;
    }
    proof {
        assert(data@.len() == t_res * s_res);
    }
    let g = Grid { data, width: s_res, height: t_res };
    proof {
        assert(g.wf()) by {
            assert(t_res * s_res == s_res * t_res) by (nonlinear_arith);
        }
        assert forall|s: int, t: int|
            0 <= s < g.width && 0 <= t < g.height implies (#[trigger] g.spec_at(s, t)) == expected(
            s,
            t,
        ) by {
            let k = t * s_res as int + s;
            assert(0 <= k && k < t_res * s_res) by (nonlinear_arith)
                requires
                    k == t * s_res as int + s,
                    0 <= s < s_res,
                    0 <= t < t_res,
                    s_res >= 1,
            {
            }
            vstd::arithmetic::div_mod::lemma_fundamental_div_mod_converse(
                k,
                s_res as int,
                t,
                s,
            );
            assert(g.data@[k] == expected(s, t));
        }
    }
    g
}

/// The image pyramid: level zero is the image, each further level a halved
/// box-filtered copy, down to a single texel.
#[derive(Debug)]
pub struct MIPMap<T> {
    pub pyramid: Vec<Grid<T>>,
    pub wrap_mode: WrapMode,
    pub black: T,
    pub resolution: (usize, usize),
}

impl<T: Texel> MIPMap<T> {
    pub open spec fn wf(self) -> bool {
        &&& self.pyramid@.len() >= 1
        &&& forall|i: int| 0 <= i < self.pyramid@.len() ==> (#[trigger] self.pyramid@[i]).wf()
        &&& self.pyramid@[0].width == self.resolution.0
        &&& self.pyramid@[0].height == self.resolution.1
    }

    /// Each level is the exact halving of the one before it.
    pub open spec fn downsample_related(self) -> bool {
        forall|i: int|
            1 <= i < self.pyramid@.len() ==> is_downsample(
                self.pyramid@[i - 1],
                #[trigger] self.pyramid@[i],
                self.wrap_mode,
                self.black,
            )
    }

    /// The texel a coordinate pair reads from a level through the wrap mode.
    pub open spec fn spec_texel(self, level: int, s: int, t: int) -> T {
        spec_grid_texel(self.pyramid@[level], self.wrap_mode, self.black, s, t)
    }

    /// Builds the pyramid of an image whose sides are powers of two (the
    /// driver resamples any other image up to powers of two first). The
    /// level count is one more than the position of the highest bit of the
    /// larger side.
    pub fn new(res: (usize, usize), img: Vec<T>, wrap_mode: WrapMode, black: T) -> (m: MIPMap<T>)
        requires
            1 <= res.0 <= 0x4000_0000,
            1 <= res.1 <= 0x4000_0000,
            is_pow2(res.0 as int),
            is_pow2(res.1 as int),
            img@.len() == res.0 * res.1,
        ensures
            m.wf(),
            m.downsample_related(),
            m.wrap_mode == wrap_mode,
            m.black == black,
            m.resolution == res,
            m.pyramid@[0].data@ == img@,
            pow2((m.pyramid@.len() - 1) as nat) <= (if res.0 >= res.1 {
                res.0
            } else {
                res.1
            }) < pow2(m.pyramid@.len() as nat),
    {
        let n_levels = num_levels(res.0, res.1);
        let mut pyramid: Vec<Grid<T>> = Vec::new();
        pyramid.push(Grid::from_vec(res.0, res.1, img));
        let mut i: usize = 1;
        #[verifier::loop_isolation(false)]
        while i < n_levels
            invariant
                1 <= i == pyramid@.len() <= n_levels,
                forall|j: int| 0 <= j < i ==> (#[trigger] pyramid@[j]).wf(),
                pyramid@[0].width == res.0,
                pyramid@[0].height == res.1,
                pyramid@[0].data@ == img@,
                forall|j: int|
                    1 <= j < i ==> is_downsample(
                        pyramid@[j - 1],
                        #[trigger] pyramid@[j],
                        wrap_mode,
                        black,
                    ),
            decreases n_levels - i,
        {
            let g = downsample(&pyramid[i - 1], wrap_mode, black);
            pyramid.push(g);
            i = i + 1;
        }
        MIPMap { pyramid, wrap_mode, black, resolution: res }
    }

    /// How wide the base image is.
    pub fn width(&self) -> (r: usize)
        ensures
            r == self.resolution.0,
    {
        self.resolution.0
    }

    /// How tall the base image is.
    pub fn height(&self) -> (r: usize)
        ensures
            r == self.resolution.1,
    {
        self.resolution.1
    }

    /// How many levels the pyramid has.
    pub fn levels(&self) -> (r: usize)
        ensures
            r == self.pyramid@.len(),
    {
        self.pyramid.len()
    }

    /// Reads one texel of one level through the wrap mode.
    pub fn texel(&self, level: usize, s: isize, t: isize) -> (r: T)
        requires
            self.wf(),
            level < self.pyramid@.len(),
        ensures
            r == self.spec_texel(level as int, s as int, t as int),
    {
        grid_texel(&self.pyramid[level], self.wrap_mode, self.black, s, t)
    }
}

/// A wrap mode that maps every coordinate into the level reads a constant
/// grid as that constant, wherever it is asked.
proof fn lemma_grid_texel_constant<T: Texel>(g: Grid<T>, wrap: WrapMode, black: T, v: T, s: int, t: int)
    requires
        g.wf(),
        wrap != WrapMode::Black,
        forall|ss: int, tt: int|
            0 <= ss < g.width && 0 <= tt < g.height ==> g.spec_at(ss, tt) == v,
    ensures
        spec_grid_texel(g, wrap, black, s, t) == v,
{
    match wrap {
        WrapMode::Repeat => {
            lemma_mod_bound(s, g.width as int);
            lemma_mod_bound(t, g.height as int);
        },
        _ => {},
    }
}

/// Every texel of every level of a pyramid built from a constant image is
/// that constant, under a wrap mode that maps every coordinate into the
/// level (with the black-sentinel mode, a level with a side of one texel
/// would read the sentinel into the average). This is the exact part of
/// the lookup identity for constant textures; the filter-width blend
/// between two constant levels is the driver's floating-point work.
pub proof fn lemma_constant_mipmap<T: Texel>(m: MIPMap<T>, v: T)
    requires
        m.wf(),
        m.downsample_related(),
        m.wrap_mode == WrapMode::Repeat || m.wrap_mode == WrapMode::Clamp,
        forall|s: int, t: int|
            0 <= s < m.resolution.0 && 0 <= t < m.resolution.1 ==> m.pyramid@[0].spec_at(s, t) == v,
    ensures
        forall|l: int, s: int, t: int| 0 <= l < m.pyramid@.len() ==> m.spec_texel(l, s, t) == v,
{
    assert forall|l: int, s: int, t: int| 0 <= l < m.pyramid@.len() implies m.spec_texel(l, s, t)
        == v by {
        lemma_constant_level(m, v, l);
        lemma_grid_texel_constant(m.pyramid@[l], m.wrap_mode, m.black, v, s, t);
    }
}

/// By induction up the pyramid: every in-range texel of level `l` is `v`.
proof fn lemma_constant_level<T: Texel>(m: MIPMap<T>, v: T, l: int)
    requires
        m.wf(),
        m.downsample_related(),
        m.wrap_mode == WrapMode::Repeat || m.wrap_mode == WrapMode::Clamp,
        forall|s: int, t: int|
            0 <= s < m.resolution.0 && 0 <= t < m.resolution.1 ==> m.pyramid@[0].spec_at(s, t) == v,
        0 <= l < m.pyramid@.len(),
    ensures
        forall|s: int, t: int|
            0 <= s < m.pyramid@[l].width && 0 <= t < m.pyramid@[l].height
                ==> m.pyramid@[l].spec_at(s, t) == v,
    decreases l,
{
    if l == 0 {
    } else {
        lemma_constant_level(m, v, l - 1);
        assert forall|s: int, t: int|
            0 <= s < m.pyramid@[l].width && 0 <= t < m.pyramid@[l].height
            implies m.pyramid@[l].spec_at(s, t) == v by {
            assert(is_downsample(m.pyramid@[l - 1], m.pyramid@[l], m.wrap_mode, m.black));
            lemma_grid_texel_constant(m.pyramid@[l - 1], m.wrap_mode, m.black, v, 2 * s, 2 * t);
            lemma_grid_texel_constant(m.pyramid@[l - 1], m.wrap_mode, m.black, v, 2 * s + 1, 2 * t);
            lemma_grid_texel_constant(m.pyramid@[l - 1], m.wrap_mode, m.black, v, 2 * s, 2 * t + 1);
            lemma_grid_texel_constant(
                m.pyramid@[l - 1],
                m.wrap_mode,
                m.black,
                v,
                2 * s + 1,
                2 * t + 1,
            );
            T::avg4_constant(v);
        }
    }
}

} // verus!
