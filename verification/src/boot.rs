//! The one-shot boot computation: derive the usable physical range from
//! the loader's memory map and the kernel image bounds, seed the frame and
//! page allocators, commit the kernel heap eagerly (those pages are leased
//! forever), and build the descriptor tables and controller setup — in
//! dependency order, exactly once. The shell parses the multiboot
//! structure into plain values, hands them in, and performs the privileged
//! installs afterwards; every decision is made and proved here.

use vstd::prelude::*;
use crate::addr::{Physical, Virtual};
use crate::bits::bm_get;
use crate::entry::{default_entry, empty_entry, entry_present, granule_aligned, Entry, EntryV};
use crate::frame;
use crate::gdt::{self, gdt_empty_entry, gdt_encode, Gdt};
use crate::idt::{self, gate_entry, idt_empty_entry, Idt};
use crate::page;
use crate::pic::{init_words, Pic, PIC1, PIC2};
use crate::table::{dir_index, lemma_dir_index_bound, lemma_granule_addr, lemma_shr22_monotone,
    ActiveTable, InactiveTable, SELF_MAP};
use crate::{FRAME_SIZE, KERNEL_BASE};

verus! {

/// Immutable record of the boot outcome: kernel image bounds, heap bounds,
/// and the free-memory estimate. Produced once and never mutated.
#[derive(Debug, PartialEq, Eq, Hash)]
pub struct Kinfo {
    pub kernel_start: u32,
    pub kernel_end: u32,
    pub heap_start: u32,
    pub heap_end: u32,
    pub free_memory: u32,
}

impl Kinfo {
    /// The kernel image's byte size.
    pub fn kernel_size(&self) -> (r: u32)
        requires
            self.kernel_start <= self.kernel_end,
        ensures
            r == self.kernel_end - self.kernel_start,
    {
        self.kernel_end - self.kernel_start
    }

    /// The heap's byte size.
    pub fn heap_size(&self) -> (r: u32)
        requires
            self.heap_start <= self.heap_end,
        ensures
            r == self.heap_end - self.heap_start,
    {
        self.heap_end - self.heap_start
    }
}

/// One area of the loader's memory map: first byte and one past the last
/// byte, as 32-bit physical addresses.
#[derive(Debug, Clone, Copy, PartialEq, Eq, Hash, Structural)]
pub struct MemArea {
    pub start: u32,
    pub end: u32,
}

/// What the boot computation needs from the multiboot structure, as plain
/// values: the memory map and the load addresses of the image's sections.
pub struct BootInfo {
    pub areas: Vec<MemArea>,
    pub sections: Vec<u32>,
}

/// An address with the higher-half offset taken back off, where it
/// carries one.
pub open spec fn adjusted(a: u32) -> u32 {
    if a > KERNEL_BASE {
        (a - KERNEL_BASE) as u32
    } else {
        a
    }
}

pub open spec fn max_u32(a: u32, b: u32) -> u32 {
    if a < b {
        b
    } else {
        a
    }
}

/// Running maximum of the adjusted area starts over the first `n` areas.
pub open spec fn fold_area_min(areas: Seq<MemArea>, n: int, acc: u32) -> u32
    decreases n,
{
    if n <= 0 {
        acc
    } else {
        max_u32(fold_area_min(areas, n - 1, acc), adjusted(areas[n - 1].start))
    }
}

/// Running maximum of the area ends over the first `n` areas.
pub open spec fn fold_area_max(areas: Seq<MemArea>, n: int, acc: u32) -> u32
    decreases n,
{
    if n <= 0 {
        acc
    } else {
        max_u32(fold_area_max(areas, n - 1, acc), areas[n - 1].end)
    }
}

/// Running maximum of the adjusted section starts over the first `n`
/// sections.
pub open spec fn fold_sect_min(sects: Seq<u32>, n: int, acc: u32) -> u32
    decreases n,
{
    if n <= 0 {
        acc
    } else {
        max_u32(fold_sect_min(sects, n - 1, acc), adjusted(sects[n - 1]))
    }
}

/// The lowest physical address past everything the kernel must not touch:
/// its own image end and every memory-map area and section start, each
/// brought down from the higher half, before rounding.
pub open spec fn raw_min(kernel_end: u32, areas: Seq<MemArea>, sects: Seq<u32>) -> u32 {
    fold_sect_min(
        sects,
        sects.len() as int,
        fold_area_min(areas, areas.len() as int, (kernel_end - KERNEL_BASE) as u32),
    )
}

/// The highest mapped physical address the memory map names, before
/// rounding.
pub open spec fn raw_max(areas: Seq<MemArea>) -> u32 {
    fold_area_max(areas, areas.len() as int, 0)
}

/// The usable physical range, rounded to granule boundaries: first byte of
/// the first whole free granule, last byte of the last whole mapped
/// granule, and the byte count between them.
#[derive(Debug, Clone, Copy, PartialEq, Eq, Hash, Structural)]
pub struct MemBounds {
    pub min: u32,
    pub max: u32,
    pub size: u32,
}

/// What rounding the raw bounds yields: none when the raw minimum sits too
/// high for a whole granule to follow it, when the raw maximum does not
/// reach the end of the first granule, or when rounding leaves an empty
/// range.
pub open spec fn spec_bounds(kernel_end: u32, areas: Seq<MemArea>, sects: Seq<u32>) -> Option<
    MemBounds,
> {
    let rmin = raw_min(kernel_end, areas, sects);
    let rmax = raw_max(areas);
    if rmin > 0xffbfffff || rmax < FRAME_SIZE {
        None
    } else {
        let min = ((rmin + FRAME_SIZE) as u32) & 0xffc00000;
        let max = ((rmax & 0xffc00000) - 1) as u32;
        if min > max {
            None
        } else {
            Some(MemBounds { min, max, size: (max - min + 1) as u32 })
        }
    }
}

/// Rounding up to the next granule keeps the result aligned; rounding the
/// maximum down to the last whole granule leaves an address one below an
/// aligned one, below the topmost granule.
proof fn lemma_round_bounds(rmin: u32, rmax: u32)
    by (bit_vector)
    requires
        rmin <= 0xffbfffff,
        rmax >= 0x400000,
    ensures
        ((rmin + 0x400000) as u32 & 0xffc00000) & 0x3fffff == 0,
        ((((rmax & 0xffc00000) - 1) as u32 + 1) as u32) & 0x3fffff == 0,
        (((rmax & 0xffc00000) - 1) as u32) < 0xffc00000,
        rmax & 0xffc00000 >= 0x400000,
{
}

/// Computes the usable physical range exactly as `spec_bounds` states it.
/// Returns none, rather than halting, when the loader's map leaves no
/// whole granule to manage.
pub fn memory_bounds(kernel_end: u32, boot: &BootInfo) -> (r: Option<MemBounds>)
    requires
        kernel_end >= KERNEL_BASE,
    ensures
        r == spec_bounds(kernel_end, boot.areas@, boot.sections@),
        r.is_some() ==> {
            let b = r.unwrap();
            &&& granule_aligned(b.min)
            &&& b.min <= b.max < 0xffc00000
            &&& (b.max + 1) as u32 & 0x3fffff == 0
            &&& b.size == b.max - b.min + 1
        },
{
    let mut mem_min = kernel_end - KERNEL_BASE;
    let mut mem_max: u32 = 0;

    let mut i: usize = 0;
    while i < boot.areas.len()
        invariant
            i <= boot.areas@.len(),
            kernel_end >= KERNEL_BASE,
            mem_min == fold_area_min(boot.areas@, i as int, (kernel_end - KERNEL_BASE) as u32),
            mem_max == fold_area_max(boot.areas@, i as int, 0u32),
        decreases boot.areas@.len() - i,
    {
        let area = boot.areas[i];
        let mut addr = area.start;
        if addr > KERNEL_BASE {
            addr = addr - KERNEL_BASE;
        }
        if addr > mem_min {
            mem_min = addr;
        }
        if area.end > mem_max {
            mem_max = area.end;
        }
        i += 1;
    }

    let ghost area_min = mem_min;
    let mut i: usize = 0;
    while i < boot.sections.len()
        invariant
            i <= boot.sections@.len(),
            mem_min == fold_sect_min(boot.sections@, i as int, area_min),
        decreases boot.sections@.len() - i,
    {
        let mut addr = boot.sections[i];
        if addr > KERNEL_BASE {
            addr = addr - KERNEL_BASE;
        }
        if addr > mem_min {
            mem_min = addr;
        }
        i += 1;
    }

    // round to whole granules
    if mem_min > 0xffbfffff || mem_max < FRAME_SIZE {
        return None;
    }
    proof {
        lemma_round_bounds(mem_min, mem_max);
    }
    let min = (mem_min + FRAME_SIZE) & 0xffc00000;
    let max = (mem_max & 0xffc00000) - 1;
    if min > max {
        return None;
    }
    Some(MemBounds { min, max, size: max - min + 1 })
}


/// The physical base address of granule `g`.
pub open spec fn granule_base(g: int) -> u32 {
    (g as u32) << 22
}

/// Granule arithmetic of the boot directory's third mapping: everything
/// stays aligned and low enough for a higher-half alias.
proof fn lemma_boot_paging(third: u32)
    by (bit_vector)
    requires
        third < 0x20000000,
    ensures
        0u32 & 0x3fffff == 0,
        0u32 >> 22 == 0,
        (third & 0xffc00000) & 0x3fffff == 0,
        third & 0xffc00000 <= 0x1fc00000,
{
}

/// Prepares and installs the boot page directory, whose 1024 entries live
/// at physical `addr`: identity-maps the first granule, aliases it at the
/// kernel base, maps the granule just past the directory when the boot
/// code's reckoning names one, loads the directory (which writes the
/// self-map entry), and finally drops the identity mapping, execution
/// having moved to the higher half. The jump, the stack patching and the
/// control-register writes around this are the shell's one-time unsafe
/// steps; every directory slot this leaves behind is stated below.
pub fn init_paging(addr: Physical) -> (r: ActiveTable)
    requires
        addr@ < 0x0fff0000,
    ensures
        r.wf(),
        r.window() == SELF_MAP + (addr@ & 0x3fffff),
        ({
            let size = (addr@ + 0x2000) as u32;
            let page = ((addr@ + size) as u32) & 0xffc00000;
            let s0 = Seq::new(1024, |i: int| empty_entry());
            let s1 = s0.update(0, default_entry(0)).update(
                dir_index(KERNEL_BASE),
                default_entry(0),
            );
            let s2 = if page > 0 {
                s1.update(dir_index((KERNEL_BASE + page) as u32), default_entry(page))
            } else {
                s1
            };
            r@ == s2.update(1023, default_entry(addr@ & 0xffc00000)).update(0, empty_entry())
        }),
{
    let mut entries: Vec<Entry> = Vec::new();
    let mut i: usize = 0;
    while i < 1024
        invariant
            i <= 1024,
            entries@.len() == i,
            forall|j: int| 0 <= j < i ==> entries@[j]@ == empty_entry(),
        decreases 1024 - i,
    {
        entries.push(Entry::empty());
        i += 1;
    }
    proof {
        assert(entries@.map_values(|e: Entry| e@) =~= Seq::new(1024, |k: int| empty_entry()));
    }
    let mut table = InactiveTable::new(entries, addr);

    proof {
        lemma_boot_paging((addr@ + (addr@ + 0x2000)) as u32);
    }
    // the first granule, identity-mapped and aliased at the kernel base
    let _ = table.default_map(Virtual::new(0), Physical::new(0));
    let _ = table.default_map(Virtual::new(KERNEL_BASE), Physical::new(0));
    // the granule just past the directory, when the boot code crosses one
    let size = addr.into_inner() + 0x2000;
    let page = (addr.into_inner() + size) & 0xffc00000;
    if page > 0 {
        let _ = table.default_map(Virtual::new(KERNEL_BASE + page), Physical::new(page));
    }

    let mut active = table.load();
    let _ = active.unmap(Virtual::new(0));
    active
}

/// Establishes the kernel heap: maps and commits every page/frame pair the
/// heap will ever use, eagerly — these pages are deliberately leased
/// forever and never freed. The page allocator must hold the heap window
/// free, with everything below the window in its scan group already taken
/// (so the scan lands exactly on the window), and the frame allocator must
/// be freshly seeded with a range that has room; the heap pages then map
/// the first frames of that range, in order.
pub fn init_heap(
    table: &mut ActiveTable,
    pages: &mut page::Allocator,
    frames: &mut frame::Allocator,
    heap_start: u32,
    heap_end: u32,
)
    requires
        old(table).wf(),
        old(pages).wf(),
        old(frames).wf(),
        granule_aligned(heap_start),
        granule_aligned(heap_end),
        heap_start + FRAME_SIZE <= heap_end,
        forall|g: int|
            (heap_start >> 27) << 5 <= g < heap_start >> 22 ==> bm_get(old(pages).bitmap(), g),
        forall|g: int|
            heap_start >> 22 <= g < heap_end >> 22 ==> !bm_get(old(pages).bitmap(), g),
        forall|i: int|
            0 <= i < 1024 ==> bm_get(old(frames).bitmap(), i) == !(old(frames).start() <= i < old(
                frames,
            ).end()),
        old(frames).end() - old(frames).start() >= (heap_end >> 22) - (heap_start >> 22),
    ensures
        final(table).wf(),
        final(pages).wf(),
        final(frames).wf(),
        final(table).window() == old(table).window(),
        final(frames).start() == old(frames).start(),
        final(frames).end() == old(frames).end(),
        ({
            let gs = (heap_start >> 22) as int;
            let ge = (heap_end >> 22) as int;
            let fs = old(frames).start() as int;
            &&& forall|i: int|
                0 <= i < 1024 ==> bm_get(final(pages).bitmap(), i) == (bm_get(
                    old(pages).bitmap(),
                    i,
                ) || (gs <= i < ge))
            &&& forall|i: int|
                0 <= i < 1024 && !(gs <= i < ge) ==> final(table)@[i] == old(table)@[i]
            &&& forall|i: int|
                gs <= i < ge ==> final(table)@[i] == default_entry(granule_base(fs + (i - gs)))
            &&& forall|i: int|
                0 <= i < 1024 ==> bm_get(final(frames).bitmap(), i) == !(fs + (ge - gs) <= i
                    < old(frames).end())
        }),
{
    proof {
        lemma_shr22_monotone(heap_start, heap_end);
        lemma_dir_index_bound(heap_end);
        crate::table::lemma_hint_base(heap_start);
    }
    let gs = heap_start >> 22;
    let n = (heap_end >> 22) - gs;
    let mut k: u32 = 0;
    while k < n
        invariant
            table.wf(),
            pages.wf(),
            frames.wf(),
            table.window() == old(table).window(),
            frames.start() == old(frames).start(),
            frames.end() == old(frames).end(),
            gs == heap_start >> 22,
            n == (heap_end >> 22) - gs,
            gs + n < 1024,
            k <= n,
            granule_aligned(heap_start),
            (heap_start >> 27) << 5 <= gs,
            forall|g: int|
                (heap_start >> 27) << 5 <= g < gs ==> bm_get(old(pages).bitmap(), g),
            forall|g: int| gs <= g < gs + n ==> !bm_get(old(pages).bitmap(), g),
            forall|i: int|
                0 <= i < 1024 ==> bm_get(pages.bitmap(), i) == (bm_get(old(pages).bitmap(), i)
                    || (gs <= i < gs + k)),
            forall|i: int|
                0 <= i < 1024 ==> bm_get(frames.bitmap(), i) == !(old(frames).start() + k <= i
                    < old(frames).end()),
            frames.end() - frames.start() >= n,
            forall|i: int|
                0 <= i < 1024 && !(gs <= i < gs + k) ==> table@[i] == old(table)@[i],
            forall|i: int|
                gs <= i < gs + k ==> table@[i] == default_entry(
                    granule_base(old(frames).start() + k - k + (i - gs)),
                ),
        decreases n - k,
    {
        proof {
            assert(!bm_get(pages.bitmap(), gs + k));
            assert(!bm_get(frames.bitmap(), frames.start() + k));
        }
        let page = pages.allocate_at(Virtual::new(heap_start)).unwrap();
        let fr = frames.allocate().unwrap();
        proof {
            lemma_granule_addr(page.view() >> 22);
            lemma_granule_addr(fr.view() >> 22);
        }
        let _ = table.default_map(*page.addr(), *fr.addr());
        k += 1;
    }
}


/// The boot code segment descriptor: flat 4GB, page granularity, 32-bit,
/// present, ring 0, executable, readable.
pub open spec fn kernel_code_entry() -> gdt::EntryV {
    gdt_encode(0, 0xfffff, 0xc0, 0x9a)
}

/// The boot data segment descriptor: flat 4GB, page granularity, 32-bit,
/// present, ring 0, writable.
pub open spec fn kernel_data_entry() -> gdt::EntryV {
    gdt_encode(0, 0xfffff, 0xc0, 0x92)
}

/// What each slot of the boot descriptor table holds: the null descriptor,
/// the code segment at selector 0x8, the data segment at selector 0x10.
pub open spec fn boot_gdt_entry(i: int) -> gdt::EntryV {
    if i == 1 {
        kernel_code_entry()
    } else if i == 2 {
        kernel_data_entry()
    } else {
        gdt_empty_entry()
    }
}

/// Builds the boot descriptor table over an eight-entry array living at
/// `base`: a flat ring-0 code segment at selector 0x8 and a flat ring-0
/// data segment at selector 0x10, everything else null.
pub fn build_gdt(base: Physical) -> (r: Gdt)
    ensures
        r@.len() == 8,
        r.base() == base@,
        forall|i: int| 0 <= i < 8 ==> r@[i] == boot_gdt_entry(i),
{
    let mut entries: Vec<gdt::Entry> = Vec::new();
    let mut i: usize = 0;
    while i < 8
        invariant
            i <= 8,
            entries@.len() == i,
            forall|j: int| 0 <= j < i ==> entries@[j]@ == gdt_empty_entry(),
        decreases 8 - i,
    {
        entries.push(gdt::Entry::empty());
        i += 1;
    }
    let mut table = Gdt::with_table(entries, base);
    proof {
        assert((0u8 | 0x80) | 0x40 == 0xc0 && ((((0x10u8 | 0x80) & !0x60) | 0) | 0x08) | 0x02
            == 0x9a && (((0x10u8 | 0x80) & !0x60) | 0) | 0x02 == 0x92) by (bit_vector);
    }
    table.new_entry(
        0x8,
        gdt::EntryBuilder::new()
            .base(0)
            .limit(0xfffff)
            .granularity(gdt::Granularity::Page)
            .size(32)
            .present()
            .ring(gdt::RingLevel::Ring0)
            .executable()
            .read_write()
            .build(),
    );
    table.new_entry(
        0x10,
        gdt::EntryBuilder::new()
            .base(0)
            .limit(0xfffff)
            .granularity(gdt::Granularity::Page)
            .size(32)
            .present()
            .ring(gdt::RingLevel::Ring0)
            .read_write()
            .build(),
    );
    proof {
        assert forall|i: int| 0 <= i < 8 implies table@[i] == boot_gdt_entry(i) by {
        }
    }
    table
}

/// The raw service-routine addresses the boot table binds, one per
/// installed vector: the CPU fault routines, the keyboard line and the
/// syscall gate. The shell takes each address from its trampoline.
#[derive(Clone, Copy, Debug, PartialEq, Eq, Hash, Structural)]
pub struct Handlers {
    pub de: u32,
    pub db: u32,
    pub ni: u32,
    pub bp: u32,
    pub of: u32,
    pub br: u32,
    pub ud: u32,
    pub nm: u32,
    pub df: u32,
    pub ts: u32,
    pub np: u32,
    pub ss: u32,
    pub gp: u32,
    pub pf: u32,
    pub mf: u32,
    pub ac: u32,
    pub mc: u32,
    pub xm: u32,
    pub ve: u32,
    pub sx: u32,
    pub keyboard: u32,
    pub syscall: u32,
}

/// What each vector of the boot interrupt table holds: an entry for every
/// CPU fault vector, the keyboard line at 0x21 (IRQ 1 remapped), the
/// syscall gate at 0x80, and the absent entry everywhere else.
pub open spec fn boot_vector(h: Handlers, v: int) -> idt::EntryV {
    if v == 0x00 {
        gate_entry(h.de)
    } else if v == 0x01 {
        gate_entry(h.db)
    } else if v == 0x02 {
        gate_entry(h.ni)
    } else if v == 0x03 {
        gate_entry(h.bp)
    } else if v == 0x04 {
        gate_entry(h.of)
    } else if v == 0x05 {
        gate_entry(h.br)
    } else if v == 0x06 {
        gate_entry(h.ud)
    } else if v == 0x07 {
        gate_entry(h.nm)
    } else if v == 0x08 {
        gate_entry(h.df)
    } else if v == 0x0a {
        gate_entry(h.ts)
    } else if v == 0x0b {
        gate_entry(h.np)
    } else if v == 0x0c {
        gate_entry(h.ss)
    } else if v == 0x0d {
        gate_entry(h.gp)
    } else if v == 0x0e {
        gate_entry(h.pf)
    } else if v == 0x10 {
        gate_entry(h.mf)
    } else if v == 0x11 {
        gate_entry(h.ac)
    } else if v == 0x12 {
        gate_entry(h.mc)
    } else if v == 0x13 {
        gate_entry(h.xm)
    } else if v == 0x14 {
        gate_entry(h.ve)
    } else if v == 0x1e {
        gate_entry(h.sx)
    } else if v == 0x21 {
        gate_entry(h.keyboard)
    } else if v == 0x80 {
        gate_entry(h.syscall)
    } else {
        idt_empty_entry()
    }
}

/// Builds the boot interrupt table over a 256-entry array living at
/// `base`: every CPU fault vector bound to its routine — through the
/// error-code binder exactly for the vectors whose fault pushes one — plus
/// the keyboard and syscall vectors; all others start absent.
pub fn build_idt(base: Physical, isrs: &Handlers) -> (r: Idt)
    ensures
        r@.len() == 256,
        r.base() == base@,
        forall|v: int| 0 <= v < 256 ==> r@[v] == boot_vector(*isrs, v),
{
    let mut entries: Vec<idt::Entry> = Vec::new();
    let mut i: usize = 0;
    while i < 256
        invariant
            i <= 256,
            entries@.len() == i,
            forall|j: int| 0 <= j < i ==> entries@[j]@ == idt_empty_entry(),
        decreases 256 - i,
    {
        entries.push(idt::Entry::empty());
        i += 1;
    }
    let mut table = Idt::with_table(entries, base);

    table.new_interrupt_handler(0x0, isrs.de);
    table.new_interrupt_handler(0x1, isrs.db);
    table.new_interrupt_handler(0x2, isrs.ni);
    table.new_interrupt_handler(0x3, isrs.bp);
    table.new_interrupt_handler(0x4, isrs.of);
    table.new_interrupt_handler(0x5, isrs.br);
    table.new_interrupt_handler(0x6, isrs.ud);
    table.new_interrupt_handler(0x7, isrs.nm);
    table.new_exception_handler(0x8, isrs.df);
    table.new_exception_handler(0xa, isrs.ts);
    table.new_exception_handler(0xb, isrs.np);
    table.new_exception_handler(0xc, isrs.ss);
    table.new_exception_handler(0xd, isrs.gp);
    table.new_exception_handler(0xe, isrs.pf);
    table.new_interrupt_handler(0x10, isrs.mf);
    table.new_exception_handler(0x11, isrs.ac);
    table.new_interrupt_handler(0x12, isrs.mc);
    table.new_interrupt_handler(0x13, isrs.xm);
    table.new_interrupt_handler(0x14, isrs.ve);
    table.new_exception_handler(0x1e, isrs.sx);

    table.new_interrupt_handler(0x21, isrs.keyboard);
    table.new_interrupt_handler(0x80, isrs.syscall);

    proof {
        assert forall|v: int| 0 <= v < 256 implies table@[v] == boot_vector(*isrs, v) by {
        }
    }
    table
}


/// Why the boot sequence cannot proceed: the loader's map leaves no whole
/// granule to manage; the heap window is not free (or would sit too high
/// to address); or the usable range has no room for the heap's granules.
#[derive(Debug, Clone, Copy, PartialEq, Eq, Hash, Structural)]
pub enum BootError {
    NoUsableMemory,
    HeapUnavailable,
    OutOfFrames,
}

/// The singletons the boot sequence constructs, owned by one context
/// object rather than ambient globals: the live table, both allocators,
/// the descriptor tables, the two interrupt controllers, and the boot
/// snapshot.
pub struct Kernel {
    pub kinfo: Kinfo,
    pub table: ActiveTable,
    pub frames: frame::Allocator,
    pub pages: page::Allocator,
    pub gdt: Gdt,
    pub idt: Idt,
    pub master: Pic,
    pub slave: Pic,
}

/// Whether the two heap granules above the usable range's start are free
/// in the live table, with everything below them in their scan group
/// already taken (the heap commit then lands exactly on them).
pub open spec fn window_available(t: Seq<EntryV>, heap_start: u32) -> bool {
    &&& forall|g: int|
        (heap_start >> 27) << 5 <= g < heap_start >> 22 ==> entry_present(t[g])
    &&& forall|g: int|
        heap_start >> 22 <= g < (heap_start >> 22) + 2 ==> !entry_present(t[g])
}

/// Adding the higher-half offset to an aligned address low enough keeps
/// granule alignment, and the two-granule heap window stays in bounds.
proof fn lemma_heap_window(m: u32)
    by (bit_vector)
    requires
        m & 0x3fffff == 0,
        m <= 0x177fffff,
    ensures
        ((0xe0000000 + m) as u32) & 0x3fffff == 0,
        (((0xe0000000 + m) as u32 + 0x800000) as u32) & 0x3fffff == 0,
        ((((0xe0000000 + m) as u32) + 0x800000) as u32 >> 22) == ((0xe0000000 + m) as u32 >> 22)
            + 2,
        ((0xe0000000 + m) as u32 >> 22) + 2 < 1024,
{
}

/// A granule-aligned range holds exactly its granule count times the
/// granule size in bytes.
proof fn lemma_bounds_size(min: u32, max: u32)
    by (bit_vector)
    requires
        min & 0x3fffff == 0,
        ((max + 1) as u32) & 0x3fffff == 0,
        min <= max,
        max < 0xffc00000,
    ensures
        ((max >> 22) + 1 - (min >> 22)) * 0x400000 == max - min + 1,
{
}

/// Masking interrupt line one out of the all-masked word.
proof fn lemma_pic_masks()
    by (bit_vector)
    ensures
        0xffu8 & !(1u8 << 1) == 0xfd,
{
}

/// The one-shot boot sequence, in dependency order: compute the usable
/// physical range, seed the frame allocator from it and the page allocator
/// from the live table, commit the kernel heap, build the descriptor
/// tables over the heap's first bytes, and run the interrupt controllers'
/// init handshake (masks all set, then the keyboard line unmasked). Every
/// failure names its cause instead of proceeding partially; the shell
/// halts on it with a diagnostic. Guarding against a second run, loading
/// the tables and enabling interrupts are the shell's.
pub fn kinit(
    table: ActiveTable,
    boot: &BootInfo,
    kernel_start: u32,
    kernel_end: u32,
    isrs: &Handlers,
    master_mask: u8,
    slave_mask: u8,
) -> (r: Result<Kernel, BootError>)
    requires
        table.wf(),
        kernel_end >= KERNEL_BASE,
    ensures
        ({
            let b = spec_bounds(kernel_end, boot.areas@, boot.sections@);
            if b is None {
                r == Result::<Kernel, BootError>::Err(BootError::NoUsableMemory)
            } else {
                let bounds = b.unwrap();
                let hs = (KERNEL_BASE + bounds.min) as u32;
                if bounds.min > 0x177fffff || !window_available(table@, hs) {
                    r == Result::<Kernel, BootError>::Err(BootError::HeapUnavailable)
                } else if (bounds.max >> 22) + 1 - (bounds.min >> 22) < 2 {
                    r == Result::<Kernel, BootError>::Err(BootError::OutOfFrames)
                } else {
                    let he = (hs + 2 * FRAME_SIZE) as u32;
                    let gs = (hs >> 22) as int;
                    let fs = (bounds.min >> 22) as int;
                    let fe = ((bounds.max >> 22) + 1) as int;
                    &&& r is Ok
                    &&& ({
                        let k = r.unwrap();
                        &&& k.kinfo == (Kinfo {
                            kernel_start,
                            kernel_end,
                            heap_start: hs,
                            heap_end: he,
                            free_memory: (bounds.size - 2 * FRAME_SIZE) as u32,
                        })
                        &&& k.table.wf()
                        &&& k.table.window() == table.window()
                        &&& forall|i: int|
                            0 <= i < 1024 && !(gs <= i < gs + 2) ==> k.table@[i] == table@[i]
                        &&& forall|i: int|
                            gs <= i < gs + 2 ==> k.table@[i] == default_entry(
                                granule_base(fs + (i - gs)),
                            )
                        &&& k.pages.wf()
                        &&& forall|i: int|
                            0 <= i < 1024 ==> bm_get(k.pages.bitmap(), i) == (entry_present(
                                table@[i],
                            ) || (gs <= i < gs + 2))
                        &&& k.frames.wf()
                        &&& k.frames.start() == fs
                        &&& k.frames.end() == fe
                        &&& forall|i: int|
                            0 <= i < 1024 ==> bm_get(k.frames.bitmap(), i) == !(fs + 2 <= i < fe)
                        &&& k.gdt@.len() == 8
                        &&& k.gdt.base() == hs
                        &&& forall|i: int| 0 <= i < 8 ==> k.gdt@[i] == boot_gdt_entry(i)
                        &&& k.idt@.len() == 256
                        &&& k.idt.base() == hs + 64
                        &&& forall|v: int| 0 <= v < 256 ==> k.idt@[v] == boot_vector(*isrs, v)
                        &&& k.master.com() == PIC1
                        &&& k.master.dat() == PIC1 + 1
                        &&& k.master.mask_view() == 0xfd
                        &&& k.master.sent() == init_words(
                            PIC1,
                            (PIC1 + 1) as u16,
                            0x20,
                            0b0100,
                            master_mask,
                        ).push(((PIC1 + 1) as u16, 0xffu8)).push(((PIC1 + 1) as u16, 0xfdu8))
                        &&& k.slave.com() == PIC2
                        &&& k.slave.dat() == PIC2 + 1
                        &&& k.slave.mask_view() == 0xff
                        &&& k.slave.sent() == init_words(
                            PIC2,
                            (PIC2 + 1) as u16,
                            0x28,
                            0b0010,
                            slave_mask,
                        ).push(((PIC2 + 1) as u16, 0xffu8))
                    })
                }
            }
        }),
{
    let bounds = match memory_bounds(kernel_end, boot) {
        Some(b) => b,
        None => {
            return Err(BootError::NoUsableMemory);
        },
    };
    if bounds.min > 0x177fffff {
        return Err(BootError::HeapUnavailable);
    }
    proof {
        lemma_heap_window(bounds.min);
    }

    let mut frames = frame::Allocator::with_range(bounds.min..bounds.max);
    let mut pages = page::Allocator::with_used(&table);

    let heap_start = KERNEL_BASE + bounds.min;
    let heap_end = heap_start + 2 * FRAME_SIZE;

    // the heap commit must land exactly on the window's granules
    proof {
        crate::table::lemma_hint_base(heap_start);
        lemma_dir_index_bound(heap_start);
    }
    let wbase = (heap_start >> 27) << 5;
    let gs = heap_start >> 22;
    let mut g = wbase;
    while g < gs
        invariant
            table.wf(),
            Some(bounds) == spec_bounds(kernel_end, boot.areas@, boot.sections@),
            bounds.min <= 0x177fffff,
            heap_start == KERNEL_BASE + bounds.min,
            wbase == (heap_start >> 27) << 5,
            gs == heap_start >> 22,
            gs < 1024,
            wbase <= g <= gs,
            forall|j: int| wbase <= j < g ==> entry_present(table@[j]),
        decreases gs - g,
    {
        proof {
            lemma_granule_addr(g);
        }
        if !table.is_used(Virtual::new(g << 22)) {
            return Err(BootError::HeapUnavailable);
        }
        g += 1;
    }
    let mut g = gs;
    while g < gs + 2
        invariant
            table.wf(),
            Some(bounds) == spec_bounds(kernel_end, boot.areas@, boot.sections@),
            bounds.min <= 0x177fffff,
            heap_start == KERNEL_BASE + bounds.min,
            gs == heap_start >> 22,
            gs + 2 < 1024,
            gs <= g <= gs + 2,
            forall|j: int| gs <= j < g ==> !entry_present(table@[j]),
        decreases gs + 2 - g,
    {
        proof {
            lemma_granule_addr(g);
        }
        if table.is_used(Virtual::new(g << 22)) {
            return Err(BootError::HeapUnavailable);
        }
        g += 1;
    }

    // the usable range must have room for the heap's granules
    if (bounds.max >> 22) + 1 - (bounds.min >> 22) < 2 {
        return Err(BootError::OutOfFrames);
    }

    let mut table = table;
    init_heap(&mut table, &mut pages, &mut frames, heap_start, heap_end);

    let gdt = build_gdt(Physical::new(heap_start));
    let idt = build_idt(Physical::new(heap_start + 64), isrs);

    let master = Pic::new(PIC1, master_mask);
    let slave = Pic::new(PIC2, slave_mask);
    let (mut master, mut slave) = crate::pic::init_pair(master, slave);
    master.set_all();
    slave.set_all();
    let _ = master.clear_mask(1);

    proof {
        lemma_pic_masks();
        lemma_shr22_monotone(bounds.min, bounds.max);
        lemma_bounds_size(bounds.min, bounds.max);
        assert(master.sent() =~= init_words(PIC1, (PIC1 + 1) as u16, 0x20, 0b0100, master_mask)
            .push(((PIC1 + 1) as u16, 0xffu8)).push(((PIC1 + 1) as u16, 0xfdu8)));
        assert(slave.sent() =~= init_words(PIC2, (PIC2 + 1) as u16, 0x28, 0b0010, slave_mask)
            .push(((PIC2 + 1) as u16, 0xffu8)));
    }

    let kinfo = Kinfo {
        kernel_start,
        kernel_end,
        heap_start,
        heap_end,
        free_memory: bounds.size - (heap_end - heap_start),
    };

    Ok(Kernel { kinfo, table, frames, pages, gdt, idt, master, slave })
}

} // verus!
