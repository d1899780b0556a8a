//! Virtual page allocator: the same fixed 1024-bit bitmap as the frame
//! allocator, tracking 4MB pages of the virtual address space. Its state
//! is seeded from the live page table, never the other way round, so the
//! allocator and the table cannot silently disagree about what is mapped.

use core::ops::Range;
use vstd::prelude::*;
use crate::addr::Virtual;
use crate::bits::{
    bm_count_free, bm_get, bm_read, bm_write, count_free, lemma_count_free_le, lemma_zero_word,
};
use crate::entry::entry_present;
use crate::frame::allocate_step;
use crate::table::{lemma_dir_index_bound, lemma_granule_addr, lemma_hint_base, lemma_shr22_monotone,
    ActiveTable};

verus! {

/// Iterator over the pages a virtual byte range covers, from the page of
/// its first byte through the page of its last named byte.
#[derive(Debug, Clone, PartialEq, Eq, Hash, Structural)]
pub struct Pages {
    start: u32,
    end: u32,
}

impl Pages {
    /// The next page index to yield.
    pub closed spec fn start(&self) -> u32 {
        self.start
    }

    /// One past the last page index to yield.
    pub closed spec fn end(&self) -> u32 {
        self.end
    }

    /// Yields the virtual base address of the next page, if one is left.
    pub fn next(&mut self) -> (r: Option<Virtual>)
        requires
            old(self).end() <= 1024,
        ensures
            final(self).end() == old(self).end(),
            old(self).start() < old(self).end() ==> {
                &&& r.is_some()
                &&& r.unwrap()@ == old(self).start() << 22
                &&& final(self).start() == old(self).start() + 1
            },
            old(self).start() >= old(self).end() ==> r.is_none() && final(self).start() == old(
                self,
            ).start(),
    {
        if self.start < self.end {
            proof {
                lemma_granule_addr(self.start);
            }
            let addr = Virtual::new(self.start << 22);
            self.start = self.start + 1;
            Some(addr)
        } else {
            None
        }
    }
}

/// The page iterator of a virtual byte range: page of `inner.start` through
/// page of `inner.end`, inclusive.
pub fn pages(inner: Range<u32>) -> (r: Pages)
    ensures
        r.start() == inner.start >> 22,
        r.end() == (inner.end >> 22) + 1,
        r.end() <= 1024,
        inner.start <= inner.end ==> r.start() < r.end(),
{
    proof {
        lemma_dir_index_bound(inner.end);
        if inner.start <= inner.end {
            lemma_shr22_monotone(inner.start, inner.end);
        }
    }
    Pages { start: inner.start >> 22, end: (inner.end >> 22) + 1 }
}

/// One leased 4MB virtual page, as handed out by the allocator.
#[derive(Debug, PartialEq, Eq, PartialOrd, Ord, Hash, Structural)]
pub struct Page {
    addr: Virtual,
}

impl View for Page {
    type V = u32;

    closed spec fn view(&self) -> u32 {
        self.addr@
    }
}

impl Page {
    /// The page's virtual base address.
    pub fn addr(&self) -> (r: &Virtual)
        ensures
            r@ == self@,
    {
        &self.addr
    }
}

/// The bitmap allocator for virtual pages.
pub struct Allocator {
    bitmap: Vec<u32>,
}

impl Allocator {
    /// The 32 words of the bitmap.
    pub closed spec fn bitmap(&self) -> Seq<u32> {
        self.bitmap@
    }

    pub open spec fn wf(&self) -> bool {
        self.bitmap().len() == 32
    }

    /// Seeds the used-bitmap by querying the live table for every page
    /// index: the allocator's state is derived from, never authoritative
    /// over, the installed mapping, and agrees with it bit for bit.
    pub fn with_used(active: &ActiveTable) -> (r: Allocator)
        requires
            active.wf(),
        ensures
            r.wf(),
            forall|i: int| 0 <= i < 1024 ==> bm_get(r.bitmap(), i) == entry_present(active@[i]),
    {
        let mut bitmap: Vec<u32> = Vec::new();
        let mut w: usize = 0;
        while w < 32
            invariant
                w <= 32,
                bitmap@.len() == w,
                forall|j: int| 0 <= j < w ==> bitmap@[j] == 0u32,
            decreases 32 - w,
        {
            bitmap.push(0);
            w += 1;
        }
        proof {
            assert forall|i: int| 0 <= i < 1024 implies !bm_get(bitmap@, i) by {
                lemma_zero_word((i % 32) as u32);
            }
        }

        let mut p: u32 = 0;
        while p < 1024
            invariant
                p <= 1024,
                active.wf(),
                bitmap@.len() == 32,
                forall|i: int| 0 <= i < p ==> bm_get(bitmap@, i) == entry_present(active@[i]),
                forall|i: int| p <= i < 1024 ==> !bm_get(bitmap@, i),
            decreases 1024 - p,
        {
            proof {
                lemma_granule_addr(p);
            }
            if active.is_used(Virtual::new(p << 22)) {
                bm_write(&mut bitmap, p, true);
            }
            p += 1;
        }

        Allocator { bitmap }
    }

    /// Hands out the lowest free page of the whole space.
    pub fn allocate(&mut self) -> (r: Option<Page>)
        requires
            old(self).wf(),
        ensures
            final(self).wf(),
            match r {
                Some(p) => {
                    let g = p@ >> 22;
                    &&& p@ == (g << 22)
                    &&& allocate_step(old(self).bitmap(), final(self).bitmap(), g as int)
                    &&& forall|j: int| 0 <= j < g ==> bm_get(old(self).bitmap(), j)
                },
                None => {
                    &&& final(self).bitmap() == old(self).bitmap()
                    &&& forall|j: int| 0 <= j < 1024 ==> bm_get(old(self).bitmap(), j)
                },
            },
    {
        proof {
            lemma_hint_base(0u32);
        }
        self.allocate_at(Virtual::new(0))
    }

    /// Hands out the lowest free page at or above the bit group of the
    /// hint address, marking it used, or returns none when every page from
    /// there on is taken.
    pub fn allocate_at(&mut self, virt: Virtual) -> (r: Option<Page>)
        requires
            old(self).wf(),
        ensures
            final(self).wf(),
            match r {
                Some(p) => {
                    let g = p@ >> 22;
                    &&& p@ == (g << 22)
                    &&& ((virt@ >> 27) << 5) <= g < 1024
                    &&& allocate_step(old(self).bitmap(), final(self).bitmap(), g as int)
                    &&& forall|j: int|
                        ((virt@ >> 27) << 5) <= j < g ==> bm_get(old(self).bitmap(), j)
                },
                None => {
                    &&& final(self).bitmap() == old(self).bitmap()
                    &&& forall|j: int|
                        ((virt@ >> 27) << 5) <= j < 1024 ==> bm_get(old(self).bitmap(), j)
                },
            },
    {
        proof {
            lemma_hint_base(virt@);
        }
        let base = (virt.into_inner() >> 27) << 5;
        let mut g = base;
        while g < 1024
            invariant
                self.wf(),
                self == old(self),
                base == (virt@ >> 27) << 5,
                base <= g <= 1024,
                forall|j: int| base <= j < g ==> bm_get(old(self).bitmap(), j),
            decreases 1024 - g,
        {
            if !bm_read(&self.bitmap, g) {
                proof {
                    lemma_granule_addr(g);
                }
                bm_write(&mut self.bitmap, g, true);
                return Some(Page { addr: Virtual::new(g << 22) });
            }
            g += 1;
        }
        None
    }

    /// Clears the page's bit. Deallocating an already-free page leaves the
    /// bitmap unchanged.
    pub fn deallocate(&mut self, page: Page)
        requires
            old(self).wf(),
        ensures
            final(self).wf(),
            forall|i: int|
                0 <= i < 1024 ==> bm_get(final(self).bitmap(), i) == (i != page@ >> 22 && bm_get(
                    old(self).bitmap(),
                    i,
                )),
            !bm_get(old(self).bitmap(), (page@ >> 22) as int) ==> final(self).bitmap() == old(
                self,
            ).bitmap(),
    {
        proof {
            lemma_dir_index_bound(page@);
        }
        let idx = page.addr.into_inner() >> 22;
        bm_write(&mut self.bitmap, idx, false);
    }

    /// The count of free pages, walked word by word, not cached.
    pub fn free(&self) -> (r: usize)
        requires
            self.wf(),
        ensures
            r == count_free(self.bitmap(), 1024),
    {
        bm_count_free(&self.bitmap)
    }

    /// The count of used pages.
    pub fn used(&self) -> (r: usize)
        requires
            self.wf(),
        ensures
            r == 1024 - count_free(self.bitmap(), 1024),
    {
        proof {
            lemma_count_free_le(self.bitmap(), 1024);
        }
        1024 - self.free()
    }
}

} // verus!
