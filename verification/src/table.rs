//! The page-directory abstraction: a 1024-entry table of 4MB mappings,
//! in its two lifecycle states. An `InactiveTable` is editable and not
//! installed; `load` consumes it, writes the self-map entry through which
//! the directory stays addressable once paging is live, and yields the
//! `ActiveTable`. `switch` exchanges the live table for a prepared inactive
//! one and remaps the old live table at a caller-chosen virtual address.
//!
//! The backing memory is addressed by directory slot index; the address at
//! which the backing array lives is carried as a plain value (`base`), and
//! installing a table into the paging hardware is the job of the unverified
//! shell, which performs the actual control-register write.

use vstd::prelude::*;
use crate::addr::{Physical, Virtual};
use crate::entry::{
    base_of, default_entry, empty_entry, entry_present, granule_aligned, Entry, EntryBuilder,
    EntryV, PageSize, FLAG_PRESENT, FLAG_RW, FLAG_SIZE,
};
use crate::FRAME_SIZE;

verus! {

/// The directory slot a virtual address selects (its top ten bits).
pub open spec fn dir_index(v: u32) -> int {
    (v >> 22) as int
}

/// The virtual window through which an active table maps its own backing
/// memory: the topmost granule, directory slot 1023.
pub const SELF_MAP: u32 = 0xffc00000;

/// Every virtual address selects one of the 1024 directory slots.
pub proof fn lemma_dir_index_bound(v: u32)
    by (bit_vector)
    ensures
        v >> 22 < 1024,
{
}

/// Masking an address down to its granule keeps it 4MB-aligned, equals
/// masking with the high ten bits, and the offset that is masked away is
/// below the granule size.
pub proof fn lemma_granule_mask(p: u32)
    by (bit_vector)
    ensures
        (p & !0x3fffffu32) & 0x3fffffu32 == 0,
        p & !0x3fffffu32 == p & 0xffc00000u32,
        p & 0x3fffffu32 <= 0x3fffff,
{
}

/// Shifting right preserves order.
pub proof fn lemma_shr22_monotone(a: u32, b: u32)
    by (bit_vector)
    requires
        a <= b,
    ensures
        a >> 22 <= b >> 22,
{
}

/// The first page index of the bit group a hint address selects.
pub proof fn lemma_hint_base(v: u32)
    by (bit_vector)
    ensures
        (v >> 27) << 5 <= 992,
        (0u32 >> 27) << 5 == 0,
        (v >> 27) << 5 <= v >> 22,
{
}

/// The self-map window selects the topmost directory slot.
pub proof fn lemma_self_map_slot()
    by (bit_vector)
    ensures
        0xffc00000u32 >> 22 == 1023,
{
}

/// The address of granule `g` decodes back to `g` and is 4MB-aligned.
pub proof fn lemma_granule_addr(g: u32)
    by (bit_vector)
    requires
        g < 1024,
    ensures
        (g << 22) >> 22 == g,
        (g << 22) & 0x3fffffu32 == 0,
        (g << 22) <= 0xffc00000u32,
{
}

/// A mapped default entry is present; the empty entry is not.
pub proof fn lemma_entry_presence(a: u32)
    ensures
        entry_present(default_entry(a)),
        !entry_present(empty_entry()),
{
    assert((FLAG_PRESENT | FLAG_RW | FLAG_SIZE) & FLAG_PRESENT != 0) by (bit_vector);
    assert(0u16 & FLAG_PRESENT == 0) by (bit_vector);
}

/// Mapping, then asking: after writing entry `e` to the slot of `v`, the
/// slot of `v` reads as used exactly when `e` is present; after writing a
/// default mapping it reads as used; after unmapping it does not.
pub proof fn lemma_map_unmap_round_trip(t: Seq<EntryV>, v: u32, e: EntryV, a: u32)
    requires
        t.len() == 1024,
    ensures
        entry_present(t.update(dir_index(v), e)[dir_index(v)]) == entry_present(e),
        entry_present(t.update(dir_index(v), default_entry(a))[dir_index(v)]),
        !entry_present(t.update(dir_index(v), empty_entry())[dir_index(v)]),
{
    lemma_dir_index_bound(v);
    lemma_entry_presence(a);
}

/// A 1024-entry page directory, addressed by slot index.
pub struct Table {
    entries: Vec<Entry>,
}

impl View for Table {
    type V = Seq<EntryV>;

    closed spec fn view(&self) -> Seq<EntryV> {
        self.entries@.map_values(|e: Entry| e@)
    }
}

impl Table {
    pub open spec fn wf(&self) -> bool {
        self@.len() == 1024
    }

    /// Takes ownership of the backing entries. A page directory has exactly
    /// 1024 slots; anything else is a programming error.
    pub fn new(entries: Vec<Entry>) -> (r: Table)
        requires
            entries@.len() == 1024,
        ensures
            r.wf(),
            r@ == entries@.map_values(|e: Entry| e@),
    {
        Table { entries }
    }

    /// Overwrites the slot of `virt` with `entry` and returns the previous
    /// entry if that slot was present, so double-mapping is detectable
    /// without separate bookkeeping.
    pub fn map(&mut self, virt: Virtual, entry: Entry) -> (r: Option<Entry>)
        requires
            old(self).wf(),
        ensures
            final(self).wf(),
            final(self)@ == old(self)@.update(dir_index(virt@), entry@),
            r.is_some() == entry_present(old(self)@[dir_index(virt@)]),
            r.is_some() ==> r.unwrap()@ == old(self)@[dir_index(virt@)],
    {
        proof {
            lemma_dir_index_bound(virt@);
        }
        let idx = (virt.into_inner() >> 22) as usize;
        let prev = self.entries[idx];
        let old_used = prev.is_used();
        self.entries.set(idx, entry);
        proof {
            assert(self@ =~= old(self)@.update(dir_index(virt@), entry@));
        }
        if old_used {
            Some(prev)
        } else {
            None
        }
    }

    /// The common-case mapping: present, read/write, huge page, physical
    /// base `phys` (which must be 4MB-aligned).
    pub fn default_map(&mut self, virt: Virtual, phys: Physical) -> (r: Option<Entry>)
        requires
            old(self).wf(),
            granule_aligned(phys@),
        ensures
            final(self).wf(),
            final(self)@ == old(self)@.update(dir_index(virt@), default_entry(phys@)),
            r.is_some() == entry_present(old(self)@[dir_index(virt@)]),
            r.is_some() ==> r.unwrap()@ == old(self)@[dir_index(virt@)],
    {
        let entry = EntryBuilder::new()
            .addr(phys)
            .present()
            .read_write()
            .page_size(PageSize::Huge)
            .build();
        proof {
            assert(((((0u16 | FLAG_PRESENT) | FLAG_RW) & !FLAG_SIZE) | FLAG_SIZE) == (
            FLAG_PRESENT | FLAG_RW | FLAG_SIZE)) by (bit_vector);
        }
        self.map(virt, entry)
    }

    /// Writes the empty, not-present entry into the slot of `virt`.
    pub fn unmap(&mut self, virt: Virtual) -> (r: Option<Entry>)
        requires
            old(self).wf(),
        ensures
            final(self).wf(),
            final(self)@ == old(self)@.update(dir_index(virt@), empty_entry()),
            r.is_some() == entry_present(old(self)@[dir_index(virt@)]),
            r.is_some() ==> r.unwrap()@ == old(self)@[dir_index(virt@)],
    {
        self.map(virt, Entry::empty())
    }

    /// Whether the slot of `virt` is marked present.
    pub fn is_used(&self, virt: Virtual) -> (r: bool)
        requires
            self.wf(),
        ensures
            r == entry_present(self@[dir_index(virt@)]),
    {
        proof {
            lemma_dir_index_bound(virt@);
        }
        let idx = (virt.into_inner() >> 22) as usize;
        self.entries[idx].is_used()
    }
}

/// The page directory currently installed in the paging hardware, visible
/// through its self-map window.
pub struct ActiveTable {
    table: Table,
    window: u32,
}

impl View for ActiveTable {
    type V = Seq<EntryV>;

    closed spec fn view(&self) -> Seq<EntryV> {
        self.table@
    }
}

impl ActiveTable {
    pub open spec fn wf(&self) -> bool {
        self@.len() == 1024
    }

    /// The virtual address at which this table edits itself: the self-map
    /// window plus the table's offset within its granule.
    pub closed spec fn window(&self) -> u32 {
        self.window
    }

    pub fn map(&mut self, virt: Virtual, entry: Entry) -> (r: Option<Entry>)
        requires
            old(self).wf(),
        ensures
            final(self).wf(),
            final(self).window() == old(self).window(),
            final(self)@ == old(self)@.update(dir_index(virt@), entry@),
            r.is_some() == entry_present(old(self)@[dir_index(virt@)]),
            r.is_some() ==> r.unwrap()@ == old(self)@[dir_index(virt@)],
    {
        self.table.map(virt, entry)
    }

    pub fn default_map(&mut self, virt: Virtual, phys: Physical) -> (r: Option<Entry>)
        requires
            old(self).wf(),
            granule_aligned(phys@),
        ensures
            final(self).wf(),
            final(self).window() == old(self).window(),
            final(self)@ == old(self)@.update(dir_index(virt@), default_entry(phys@)),
            r.is_some() == entry_present(old(self)@[dir_index(virt@)]),
            r.is_some() ==> r.unwrap()@ == old(self)@[dir_index(virt@)],
    {
        self.table.default_map(virt, phys)
    }

    pub fn unmap(&mut self, virt: Virtual) -> (r: Option<Entry>)
        requires
            old(self).wf(),
        ensures
            final(self).wf(),
            final(self).window() == old(self).window(),
            final(self)@ == old(self)@.update(dir_index(virt@), empty_entry()),
            r.is_some() == entry_present(old(self)@[dir_index(virt@)]),
            r.is_some() ==> r.unwrap()@ == old(self)@[dir_index(virt@)],
    {
        self.table.unmap(virt)
    }

    pub fn is_used(&self, virt: Virtual) -> (r: bool)
        requires
            self.wf(),
        ensures
            r == entry_present(self@[dir_index(virt@)]),
    {
        self.table.is_used(virt)
    }
}

/// A page directory that is not installed: freely editable, addressable at
/// the plain address `base`.
pub struct InactiveTable {
    table: Table,
    base: u32,
}

impl View for InactiveTable {
    type V = Seq<EntryV>;

    closed spec fn view(&self) -> Seq<EntryV> {
        self.table@
    }
}

impl InactiveTable {
    pub open spec fn wf(&self) -> bool {
        self@.len() == 1024
    }

    /// The address at which the backing entries live. While the boot-time
    /// identity mapping holds, it is also the table's physical address.
    pub closed spec fn base(&self) -> u32 {
        self.base
    }

    /// Takes ownership of the backing entries, which live at `base`.
    pub fn new(entries: Vec<Entry>, base: Physical) -> (r: InactiveTable)
        requires
            entries@.len() == 1024,
        ensures
            r.wf(),
            r@ == entries@.map_values(|e: Entry| e@),
            r.base() == base@,
    {
        InactiveTable { table: Table::new(entries), base: base.into_inner() }
    }

    /// The physical address of the backing memory, valid while the table
    /// is addressed through the boot-time identity mapping.
    pub fn into_physical(self) -> (r: Physical)
        ensures
            r@ == self.base(),
    {
        Physical::new(self.base)
    }

    pub fn map(&mut self, virt: Virtual, entry: Entry) -> (r: Option<Entry>)
        requires
            old(self).wf(),
        ensures
            final(self).wf(),
            final(self).base() == old(self).base(),
            final(self)@ == old(self)@.update(dir_index(virt@), entry@),
            r.is_some() == entry_present(old(self)@[dir_index(virt@)]),
            r.is_some() ==> r.unwrap()@ == old(self)@[dir_index(virt@)],
    {
        self.table.map(virt, entry)
    }

    pub fn default_map(&mut self, virt: Virtual, phys: Physical) -> (r: Option<Entry>)
        requires
            old(self).wf(),
            granule_aligned(phys@),
        ensures
            final(self).wf(),
            final(self).base() == old(self).base(),
            final(self)@ == old(self)@.update(dir_index(virt@), default_entry(phys@)),
            r.is_some() == entry_present(old(self)@[dir_index(virt@)]),
            r.is_some() ==> r.unwrap()@ == old(self)@[dir_index(virt@)],
    {
        self.table.default_map(virt, phys)
    }

    pub fn unmap(&mut self, virt: Virtual) -> (r: Option<Entry>)
        requires
            old(self).wf(),
        ensures
            final(self).wf(),
            final(self).base() == old(self).base(),
            final(self)@ == old(self)@.update(dir_index(virt@), empty_entry()),
            r.is_some() == entry_present(old(self)@[dir_index(virt@)]),
            r.is_some() ==> r.unwrap()@ == old(self)@[dir_index(virt@)],
    {
        self.table.unmap(virt)
    }

    pub fn is_used(&self, virt: Virtual) -> (r: bool)
        requires
            self.wf(),
        ensures
            r == entry_present(self@[dir_index(virt@)]),
    {
        self.table.is_used(virt)
    }

    /// Consumes the inactive table and makes it the live directory: writes
    /// the self-map entry (slot 1023) pointing at the table's own granule,
    /// and re-derives the table at the self-map window, offset by the
    /// table's position within its granule. Installing the table's physical
    /// address into the paging hardware is the shell's one control-register
    /// write; everything this function computes is stated here.
    pub fn load(self) -> (r: ActiveTable)
        requires
            self.wf(),
        ensures
            r.wf(),
            r@ == self@.update(1023, default_entry(self.base() & 0xffc00000)),
            r.window() == SELF_MAP + (self.base() & 0x3fffff),
    {
        let phys = self.base;
        let offset = phys & (FRAME_SIZE - 1);
        let masked = phys & !(FRAME_SIZE - 1);
        proof {
            lemma_granule_mask(phys);
            lemma_self_map_slot();
        }
        let mut table = self.table;
        let _ = table.default_map(Virtual::new(SELF_MAP), Physical::new(masked));
        ActiveTable { table, window: SELF_MAP + offset }
    }

    /// Exchanges the live directory for this prepared one. The new active
    /// and inactive window addresses are derived from the current physical
    /// addresses' low bits: `active`'s own base granule is read back out of
    /// its self-map slot, this table's granule out of the live slot that
    /// covers `base`, and the old live table is remapped at `addr` so its
    /// backing memory stays reachable. The self-map entry of the table
    /// being installed is written before the exchange, so the new live
    /// table remains editable. `addr` must be granule-aligned and must not
    /// be the self-map window itself.
    pub fn switch(self, active: ActiveTable, addr: Virtual) -> (r: (ActiveTable, InactiveTable))
        requires
            self.wf(),
            active.wf(),
            granule_aligned(addr@),
            addr@ < 0xffc00000u32,
        ensures
            r.0.wf(),
            r.1.wf(),
            ({
                let old_phys = base_of(active@[1023]);
                let new_phys = base_of(active@[dir_index(self.base())]);
                &&& r.0@ == self@.update(1023, default_entry(new_phys & 0xffc00000)).update(
                    dir_index(addr@),
                    default_entry(old_phys & 0xffc00000),
                )
                &&& r.0.window() == SELF_MAP + (new_phys & 0x3fffff)
                &&& r.1@ == active@
                &&& r.1.base() == addr@ + (old_phys & 0x3fffff)
            }),
    {
        proof {
            lemma_self_map_slot();
            lemma_dir_index_bound(self.base);
        }
        let old_phys = active.table.entries[1023].into_physical().into_inner();
        let old_offset = old_phys & (FRAME_SIZE - 1);

        let idx = (self.base >> 22) as usize;
        let new_phys = active.table.entries[idx].into_physical().into_inner();
        let new_offset = new_phys & (FRAME_SIZE - 1);

        proof {
            lemma_granule_mask(new_phys);
            lemma_granule_mask(old_phys);
        }

        let mut table = self.table;
        let _ = table.default_map(Virtual::new(SELF_MAP), Physical::new(new_phys & !(FRAME_SIZE - 1)));
        let _ = table.default_map(addr, Physical::new(old_phys & !(FRAME_SIZE - 1)));

        let new_active = ActiveTable { table, window: SELF_MAP + new_offset };
        let new_inactive = InactiveTable {
            table: active.table,
            base: addr.into_inner() + old_offset,
        };
        (new_active, new_inactive)
    }
}

} // verus!
