//! Physical frame allocator: a fixed 1024-bit bitmap over the 4MB-granule
//! address space. Bit `i` set means granule `i` is in use. The allocator
//! tracks a usable granule range; every bit outside it is pre-marked used,
//! so allocation never hands out a granule from unmapped or reserved
//! memory.

use core::ops::Range;
use vstd::prelude::*;
use crate::addr::Physical;
use crate::bits::{
    bm_count_free, bm_get, bm_read, bm_write, count_free, lemma_count_free_in_range,
    lemma_full_word,
};
use crate::table::{lemma_dir_index_bound, lemma_granule_addr, lemma_shr22_monotone};

verus! {

/// One allocation step over a bitmap: granule `g` was free before, is used
/// after, and no other slot changed.
pub open spec fn allocate_step(pre: Seq<u32>, post: Seq<u32>, g: int) -> bool {
    &&& !bm_get(pre, g)
    &&& forall|i: int| 0 <= i < 1024 ==> bm_get(post, i) == (i == g || bm_get(pre, i))
}

/// Successive successful allocations hand out distinct granules: the first
/// one is used from then on, so no later step can return it.
pub proof fn lemma_allocate_distinct(s0: Seq<u32>, s1: Seq<u32>, s2: Seq<u32>, g1: int, g2: int)
    requires
        0 <= g1 < 1024,
        0 <= g2 < 1024,
        allocate_step(s0, s1, g1),
        allocate_step(s1, s2, g2),
    ensures
        g1 != g2,
        bm_get(s2, g1) && bm_get(s2, g2),
{
}

/// Iterator over the granules a byte range covers, from the granule of its
/// first byte through the granule of its last named byte.
#[derive(Debug, Clone, PartialEq, Eq, Hash, Structural)]
pub struct Frames {
    start: u32,
    end: u32,
}

impl Frames {
    /// The next granule index to yield.
    pub closed spec fn start(&self) -> u32 {
        self.start
    }

    /// One past the last granule index to yield.
    pub closed spec fn end(&self) -> u32 {
        self.end
    }

    /// Yields the physical base address of the next granule, if one is
    /// left.
    pub fn next(&mut self) -> (r: Option<Physical>)
        requires
            old(self).end() <= 1024,
        ensures
            final(self).end() == old(self).end(),
            old(self).start() < old(self).end() ==> {
                &&& r.is_some()
                &&& r.unwrap()@ == old(self).start() << 22
                &&& final(self).start() == old(self).start() + 1
            },
            old(self).start() >= old(self).end() ==> r.is_none() && final(self).start() == old(
                self,
            ).start(),
    {
        if self.start < self.end {
            proof {
                lemma_granule_addr(self.start);
            }
            let addr = Physical::new(self.start << 22);
            self.start = self.start + 1;
            Some(addr)
        } else {
            None
        }
    }
}

/// The granule iterator of a byte range: granule of `inner.start` through
/// granule of `inner.end`, inclusive.
pub fn frames(inner: Range<u32>) -> (r: Frames)
    ensures
        r.start() == inner.start >> 22,
        r.end() == (inner.end >> 22) + 1,
        r.end() <= 1024,
        inner.start <= inner.end ==> r.start() < r.end(),
{
    proof {
        lemma_dir_index_bound(inner.end);
        if inner.start <= inner.end {
            lemma_shr22_monotone(inner.start, inner.end);
        }
    }
    Frames { start: inner.start >> 22, end: (inner.end >> 22) + 1 }
}

/// One leased 4MB physical granule, as handed out by the allocator.
#[derive(Debug, PartialEq, Eq, PartialOrd, Ord, Hash, Structural)]
pub struct Frame {
    addr: Physical,
}

impl View for Frame {
    type V = u32;

    closed spec fn view(&self) -> u32 {
        self.addr@
    }
}

impl Frame {
    /// The granule's physical base address.
    pub fn addr(&self) -> (r: &Physical)
        ensures
            r@ == self@,
    {
        &self.addr
    }
}

/// The bitmap allocator for physical frames.
pub struct Allocator {
    bitmap: Vec<u32>,
    start: u32,
    end: u32,
}

impl Allocator {
    /// The 32 words of the bitmap.
    pub closed spec fn bitmap(&self) -> Seq<u32> {
        self.bitmap@
    }

    /// First granule index of the usable range.
    pub closed spec fn start(&self) -> u32 {
        self.start
    }

    /// One past the last granule index of the usable range.
    pub closed spec fn end(&self) -> u32 {
        self.end
    }

    /// Well-formed: 32 words, a granule range within the table, and every
    /// free bit inside the range.
    pub open spec fn wf(&self) -> bool {
        &&& self.bitmap().len() == 32
        &&& self.start() <= self.end() <= 1024
        &&& forall|i: int|
            0 <= i < 1024 && !bm_get(self.bitmap(), i) ==> self.start() <= i < self.end()
    }

    /// Marks every granule the byte range covers as free and every other
    /// granule as pre-used.
    pub fn with_range(range: Range<u32>) -> (r: Allocator)
        requires
            range.start <= range.end,
        ensures
            r.wf(),
            r.start() == range.start >> 22,
            r.end() == (range.end >> 22) + 1,
            forall|i: int|
                0 <= i < 1024 ==> bm_get(r.bitmap(), i) == !(r.start() <= i < r.end()),
    {
        proof {
            lemma_dir_index_bound(range.end);
            lemma_shr22_monotone(range.start, range.end);
        }
        let gs = range.start >> 22;
        let ge = (range.end >> 22) + 1;

        let mut bitmap: Vec<u32> = Vec::new();
        let mut w: usize = 0;
        while w < 32
            invariant
                w <= 32,
                bitmap@.len() == w,
                forall|j: int| 0 <= j < w ==> bitmap@[j] == 0xffffffffu32,
            decreases 32 - w,
        {
            bitmap.push(0xffffffff);
            w += 1;
        }
        proof {
            assert forall|i: int| 0 <= i < 1024 implies bm_get(bitmap@, i) by {
                lemma_full_word(bitmap@[i / 32], (i % 32) as u32);
            }
        }

        let mut g = gs;
        while g < ge
            invariant
                gs <= g <= ge <= 1024,
                bitmap@.len() == 32,
                forall|i: int| 0 <= i < 1024 ==> bm_get(bitmap@, i) == !(gs <= i < g),
            decreases ge - g,
        {
            bm_write(&mut bitmap, g, false);
            g += 1;
        }

        Allocator { bitmap, start: gs, end: ge }
    }

    /// Hands out the lowest free granule of the usable range, marking it
    /// used, or returns none when the range is exhausted (every granule of
    /// the whole table is then in use).
    pub fn allocate(&mut self) -> (r: Option<Frame>)
        requires
            old(self).wf(),
        ensures
            final(self).wf(),
            final(self).start() == old(self).start(),
            final(self).end() == old(self).end(),
            match r {
                Some(f) => {
                    let g = f@ >> 22;
                    &&& f@ == (g << 22)
                    &&& old(self).start() <= g < old(self).end()
                    &&& allocate_step(old(self).bitmap(), final(self).bitmap(), g as int)
                    &&& forall|j: int| 0 <= j < g ==> bm_get(old(self).bitmap(), j)
                },
                None => {
                    &&& final(self).bitmap() == old(self).bitmap()
                    &&& forall|j: int| 0 <= j < 1024 ==> bm_get(old(self).bitmap(), j)
                },
            },
    {
        let mut g = self.start;
        while g < self.end
            invariant
                self.wf(),
                self == old(self),
                old(self).start() <= g <= old(self).end(),
                forall|j: int| 0 <= j < g ==> bm_get(self.bitmap(), j),
            decreases self.end() - g,
    {
            if !bm_read(&self.bitmap, g) {
                proof {
                    lemma_granule_addr(g);
                }
                bm_write(&mut self.bitmap, g, true);
                return Some(Frame { addr: Physical::new(g << 22) });
            }
            g += 1;
        }
        None
    }

    /// Clears the granule's bit. Deallocating an already-free granule
    /// leaves the bitmap unchanged.
    pub fn deallocate(&mut self, frame: Frame)
        requires
            old(self).wf(),
            old(self).start() <= frame@ >> 22 < old(self).end(),
        ensures
            final(self).wf(),
            final(self).start() == old(self).start(),
            final(self).end() == old(self).end(),
            forall|i: int|
                0 <= i < 1024 ==> bm_get(final(self).bitmap(), i) == (i != frame@ >> 22
                    && bm_get(old(self).bitmap(), i)),
            !bm_get(old(self).bitmap(), (frame@ >> 22) as int) ==> final(self).bitmap() == old(
                self,
            ).bitmap(),
    {
        proof {
            lemma_dir_index_bound(frame@);
        }
        let idx = frame.addr.into_inner() >> 22;
        bm_write(&mut self.bitmap, idx, false);
    }

    /// The count of free granules, walked word by word, not cached.
    pub fn free(&self) -> (r: usize)
        requires
            self.wf(),
        ensures
            r == count_free(self.bitmap(), 1024),
    {
        bm_count_free(&self.bitmap)
    }

    /// The count of used granules within the usable range.
    pub fn used(&self) -> (r: usize)
        requires
            self.wf(),
        ensures
            r == self.end() - self.start() - count_free(self.bitmap(), 1024),
    {
        proof {
            lemma_count_free_in_range(
                self.bitmap(),
                self.start() as int,
                self.end() as int,
                1024,
            );
        }
        (self.end - self.start) as usize - self.free()
    }
}

} // verus!
