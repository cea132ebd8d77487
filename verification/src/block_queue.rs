//! Tile work queue for the render driver.
//!
//! The film is cut into a grid of blocks, the ragged right and bottom
//! edges clipped to the film bounds; workers repeatedly draw the next
//! block index from a shared atomic counter and walk the block's pixels in
//! row-major order. The index-to-position arithmetic is verified exactly;
//! of the atomic counter itself nothing is assumed beyond the value it
//! hands back.

use vstd::prelude::*;
use core::sync::atomic::{AtomicUsize, Ordering};

verus! {

/// A pixel position, in raster coordinates.
#[derive(Debug, Clone, Copy, PartialEq, Eq, Structural)]
pub struct Point2u {
    pub x: usize,
    pub y: usize,
}

/// A rectangular block of pixels, walked in row-major order.
#[derive(Debug, Clone, Copy, PartialEq, Eq, Structural)]
pub struct Block {
    pub start: Point2u,
    pub current: Point2u,
    pub end: Point2u,
}

impl Block {
    pub open spec fn spec_start(self) -> Point2u {
        self.start
    }

    pub open spec fn spec_current(self) -> Point2u {
        self.current
    }

    pub open spec fn spec_end(self) -> Point2u {
        self.end
    }

    pub fn new(start: (usize, usize), size: usize) -> (b: Block)
        requires
            start.0 + size <= usize::MAX,
            start.1 + size <= usize::MAX,
        ensures
            b.spec_start() == (Point2u { x: start.0, y: start.1 }),
            b.spec_current() == b.spec_start(),
            b.spec_end() == (Point2u { x: (start.0 + size) as usize, y: (start.1 + size) as usize }),
    {
        Block {
            start: Point2u { x: start.0, y: start.1 },
            current: Point2u { x: start.0, y: start.1 },
            end: Point2u { x: start.0 + size, y: start.1 + size },
        }
    }

    /// Number of pixels the block covers.
    pub fn area(&self) -> (a: usize)
        requires
            self.spec_start().x <= self.spec_end().x,
            self.spec_start().y <= self.spec_end().y,
            (self.spec_end().x - self.spec_start().x) * (self.spec_end().y - self.spec_start().y)
                <= usize::MAX,
        ensures
            a == (self.spec_end().x - self.spec_start().x) * (self.spec_end().y
                - self.spec_start().y),
    {
        (self.end.x - self.start.x) * (self.end.y - self.start.y)
    }

    /// The pixel the next call to `next` yields, if any: the walk is over
    /// once the cursor has left the block's x or y range.
    pub open spec fn spec_peek(self) -> Option<Point2u> {
        if self.spec_current().x >= self.spec_end().x || self.spec_current().y >= self.spec_end().y {
            None
        } else {
            Some(self.spec_current())
        }
    }

    /// The cursor after one step of the row-major walk.
    pub open spec fn spec_step(self) -> Point2u {
        if self.spec_current().x == self.spec_end().x - 1 {
            Point2u { x: self.spec_start().x, y: (self.spec_current().y + 1) as usize }
        } else {
            Point2u { x: (self.spec_current().x + 1) as usize, y: self.spec_current().y }
        }
    }

    /// Yields the pixels of the block one at a time, left to right then top
    /// to bottom, and `None` once all have been yielded.
    pub fn next(&mut self) -> (p: Option<Point2u>)
        ensures
            p == old(self).spec_peek(),
            final(self).spec_start() == old(self).spec_start(),
            final(self).spec_end() == old(self).spec_end(),
            old(self).spec_peek() is None ==> *final(self) == *old(self),
            old(self).spec_peek() is Some ==> final(self).spec_current() == old(self).spec_step(),
    {
        if self.current.x >= self.end.x || self.current.y >= self.end.y {
            None
        } else {
            let cur = self.current;

            if self.current.x == self.end.x - 1 {
                self.current.x = self.start.x;
                self.current.y = self.current.y + 1;
            } else {
                self.current.x = self.current.x + 1;
            }

            Some(cur)
        }
    }
}

/// How many blocks of side `size` cover a length: the ceiling of
/// `len / size`.
pub open spec fn spec_ceil_div(len: int, size: int) -> int {
    (len + size - 1) / size
}

/// Computes the ceiling of `len / size`.
fn ceil_div(len: usize, size: usize) -> (r: usize)
    requires
        size > 0,
    ensures
        r == spec_ceil_div(len as int, size as int),
{
    proof {
        vstd::arithmetic::div_mod::lemma_fundamental_div_mod(len as int, size as int);
        vstd::arithmetic::div_mod::lemma_mod_bound(len as int, size as int);
        let q = len as int / size as int;
        let m = len as int % size as int;
        if m == 0 {
            assert(len + size - 1 == q * (size as int) + (size - 1)) by (nonlinear_arith)
                requires
                    len as int == (size as int) * q + m,
                    m == 0,
            {
            }
            vstd::arithmetic::div_mod::lemma_fundamental_div_mod_converse(
                len + size - 1,
                size as int,
                q,
                size - 1,
            );
        } else {
            assert(len + size - 1 == (q + 1) * (size as int) + (m - 1)) by (nonlinear_arith)
                requires
                    len as int == (size as int) * q + m,
            {
            }
            vstd::arithmetic::div_mod::lemma_fundamental_div_mod_converse(
                len + size - 1,
                size as int,
                q + 1,
                m - 1,
            );
        }
    }
    if len % size == 0 {
        len / size
    } else {
        proof {
            // a remainder rules a size of one out, so the quotient shrank
            // and the increment cannot overflow
            vstd::arithmetic::div_mod::lemma_div_decreases(len as int, size as int);
        }
        len / size + 1
    }
}

/// Hands out block indices to render workers through a shared counter.
/// The film is covered by the ceiling grid: a film side that is no
/// multiple of the block size gets a final, clipped column or row of
/// blocks.
pub struct BlockQueue {
    pub dims: (usize, usize),
    pub block_size: usize,
    pub counter: AtomicUsize,
    pub num_blocks: usize,
}

impl BlockQueue {
    pub open spec fn spec_dims(self) -> (usize, usize) {
        self.dims
    }

    pub open spec fn spec_block_size(self) -> usize {
        self.block_size
    }

    /// The queue only ever divides by the block size and multiplies a
    /// position back up, so the fields must satisfy this.
    pub open spec fn wf(self) -> bool {
        &&& self.spec_block_size() > 0
        &&& self.num_blocks == spec_ceil_div(
            self.spec_dims().0 as int,
            self.spec_block_size() as int,
        ) * spec_ceil_div(self.spec_dims().1 as int, self.spec_block_size() as int)
    }

    /// Raster position of the block with the given index: blocks are laid
    /// out row-major, `columns` blocks to a row.
    pub open spec fn spec_block_origin(self, c: usize) -> (int, int) {
        let columns = spec_ceil_div(self.spec_dims().0 as int, self.spec_block_size() as int);
        (
            (c as int % columns) * self.spec_block_size() as int,
            (c as int / columns) * self.spec_block_size() as int,
        )
    }

    /// What `block_at` returns, as a spec-level function of the index: the
    /// block at the index's grid position, its end clipped to the film.
    pub open spec fn spec_block_of(self, c: usize) -> Option<Block> {
        if c < self.num_blocks {
            let origin = self.spec_block_origin(c);
            let end_x = if origin.0 + self.spec_block_size() <= self.spec_dims().0 {
                origin.0 + self.spec_block_size()
            } else {
                self.spec_dims().0 as int
            };
            let end_y = if origin.1 + self.spec_block_size() <= self.spec_dims().1 {
                origin.1 + self.spec_block_size()
            } else {
                self.spec_dims().1 as int
            };
            Some(
                Block {
                    start: Point2u { x: origin.0 as usize, y: origin.1 as usize },
                    current: Point2u { x: origin.0 as usize, y: origin.1 as usize },
                    end: Point2u { x: end_x as usize, y: end_y as usize },
                },
            )
        } else {
            None
        }
    }

    pub fn new(dims: (usize, usize), block_size: usize) -> (q: BlockQueue)
        requires
            block_size > 0,
            spec_ceil_div(dims.0 as int, block_size as int) * spec_ceil_div(
                dims.1 as int,
                block_size as int,
            ) <= usize::MAX,
        ensures
            q.wf(),
            q.spec_dims() == dims,
            q.spec_block_size() == block_size,
            q.num_blocks == spec_ceil_div(dims.0 as int, block_size as int) * spec_ceil_div(
                dims.1 as int,
                block_size as int,
            ),
    {
        let columns = ceil_div(dims.0, block_size);
        let rows = ceil_div(dims.1, block_size);
        BlockQueue {
            dims,
            block_size,
            counter: AtomicUsize::new(0),
            num_blocks: columns * rows,
        }
    }

    /// The block at a given counter value: `None` once the counter has run
    /// past the queue. Every block starts inside the film and ends one
    /// block side further, clipped to the film's dimensions; no block is
    /// empty.
    pub fn block_at(&self, c: usize) -> (b: Option<Block>)
        requires
            self.wf(),
        ensures
            b == self.spec_block_of(c),
            b is Some <==> c < self.num_blocks,
            b is Some ==> {
                let blk = b->Some_0;
                &&& blk.spec_start().x == self.spec_block_origin(c).0
                &&& blk.spec_start().y == self.spec_block_origin(c).1
                &&& blk.spec_current() == blk.spec_start()
                &&& blk.spec_start().x < blk.spec_end().x <= self.spec_dims().0
                &&& blk.spec_start().y < blk.spec_end().y <= self.spec_dims().1
            },
    {
        if c >= self.num_blocks {
            None
        } else {
            let columns = ceil_div(self.dims.0, self.block_size);
            proof {
                lemma_clipped_origin(
                    self.dims.0 as int,
                    self.dims.1 as int,
                    self.block_size as int,
                    c as int,
                );
            }
            let ox = c % columns * self.block_size;
            let oy = c / columns * self.block_size;
            let ex = if self.dims.0 - ox < self.block_size {
                self.dims.0
            } else {
                ox + self.block_size
            };
            let ey = if self.dims.1 - oy < self.block_size {
                self.dims.1
            } else {
                oy + self.block_size
            };
            Some(
                Block {
                    start: Point2u { x: ox, y: oy },
                    current: Point2u { x: ox, y: oy },
                    end: Point2u { x: ex, y: ey },
                },
            )
        }
    }

    /// Draws the next block off the shared counter. Under concurrent use
    /// the counter value is whatever the interleaving produced, so all that
    /// is promised is that any block handed out is a block of this queue.
    pub fn next(&self) -> (b: Option<Block>)
        requires
            self.wf(),
        ensures
            b is Some ==> exists|c: usize|
                c < self.num_blocks && b == #[trigger] self.spec_block_of(c),
    {
        let c = self.counter.fetch_add(1, Ordering::AcqRel);
        let ghost cc = c;
        let r = self.block_at(c);
        proof {
            if r is Some {
                assert(r == self.spec_block_of(cc));
            }
        }
        r
    }

    /// The counter's current reading, for progress reporting; under
    /// concurrent use it is a snapshot only.
    pub fn progress(&self) -> usize {
        self.counter.load(Ordering::Relaxed)
    }
}

/// With `columns = ceil(w / s)` and `rows = ceil(h / s)`, a block index
/// below `columns * rows` yields an origin strictly inside `(w, h)`.
proof fn lemma_clipped_origin(w: int, h: int, s: int, c: int)
    requires
        s > 0,
        w >= 0,
        h >= 0,
        c >= 0,
        c < spec_ceil_div(w, s) * spec_ceil_div(h, s),
    ensures
        0 <= c % spec_ceil_div(w, s) < spec_ceil_div(w, s),
        0 <= c / spec_ceil_div(w, s) < spec_ceil_div(h, s),
        (c % spec_ceil_div(w, s)) * s < w,
        (c / spec_ceil_div(w, s)) * s < h,
{
    let columns = spec_ceil_div(w, s);
    let rows = spec_ceil_div(h, s);
    assert(columns >= 0 && rows >= 0) by {
        vstd::arithmetic::div_mod::lemma_div_is_ordered(0, w + s - 1, s);
        vstd::arithmetic::div_mod::lemma_div_is_ordered(0, h + s - 1, s);
    }
    assert(columns > 0 && rows > 0) by {
        if columns == 0 || rows == 0 {
            assert(columns * rows == 0) by (nonlinear_arith)
                requires columns == 0 || rows == 0;
        }
    }
    let col = c % columns;
    let row = c / columns;
    vstd::arithmetic::div_mod::lemma_mod_bound(c, columns);
    assert(0 <= col < columns);
    assert(row >= 0) by {
        vstd::arithmetic::div_mod::lemma_div_is_ordered(0, c, columns);
    }
    vstd::arithmetic::div_mod::lemma_fundamental_div_mod(c, columns);
    assert(row < rows) by {
        if row >= rows {
            assert(c >= columns * rows) by (nonlinear_arith)
                requires
                    row >= rows,
                    columns > 0,
                    c / columns == row,
                    c % columns == col,
                    0 <= col,
                    c == columns * (c / columns) + c % columns,
            {
            }
        }
    }
    // the ceiling is the least cover, so one block fewer falls short of
    // the film side, and every origin lies strictly inside it
    assert((columns - 1) * s < w) by {
        vstd::arithmetic::div_mod::lemma_fundamental_div_mod(w + s - 1, s);
        vstd::arithmetic::div_mod::lemma_mod_bound(w + s - 1, s);
        assert((columns - 1) * s == s * columns - s) by (nonlinear_arith);
    }
    assert((rows - 1) * s < h) by {
        vstd::arithmetic::div_mod::lemma_fundamental_div_mod(h + s - 1, s);
        vstd::arithmetic::div_mod::lemma_mod_bound(h + s - 1, s);
        assert((rows - 1) * s == s * rows - s) by (nonlinear_arith);
    }
    assert(col * s <= (columns - 1) * s) by (nonlinear_arith)
        requires col <= columns - 1, s > 0;
    assert(row * s <= (rows - 1) * s) by (nonlinear_arith)
        requires row <= rows - 1, s > 0;
}

} // verus!
