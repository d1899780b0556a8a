//! Page-directory entry codec: bit-level encode/decode of a single 4MB
//! page-directory entry. The wire format is 8 bytes on hardware; the two
//! 16-bit halves modelled here are the low address field (bits 16..31 of
//! the physical base, which must be 4MB-aligned) and the flag word.
//! This kernel only uses huge pages.

use vstd::prelude::*;
use crate::addr::Physical;
use crate::FRAME_SIZE;

verus! {

pub const FLAG_GLOBAL: u16 = 0b100000000;

pub const FLAG_SIZE: u16 = 0b010000000;

pub const FLAG_DIRTY: u16 = 0b001000000;

pub const FLAG_ACCESS: u16 = 0b000100000;

pub const FLAG_NOCACHE: u16 = 0b000010000;

pub const FLAG_WTHR: u16 = 0b000001000;

pub const FLAG_USER: u16 = 0b000000100;

pub const FLAG_RW: u16 = 0b000000010;

pub const FLAG_PRESENT: u16 = 0b000000001;

/// Ghost image of a packed directory entry: the stored 16-bit address
/// field and the 16-bit flag word.
pub struct EntryV {
    pub addr: u16,
    pub flags: u16,
}

/// The physical base address an entry stores: its address field shifted
/// back into bits 16..31.
pub open spec fn base_of(v: EntryV) -> u32 {
    (v.addr as u32) << 16
}

/// Whether an entry is marked present.
pub open spec fn entry_present(v: EntryV) -> bool {
    v.flags & FLAG_PRESENT != 0
}

/// A 4MB-aligned address.
pub open spec fn granule_aligned(a: u32) -> bool {
    a & ((FRAME_SIZE - 1) as u32) == 0
}

/// The packed image of base address `addr` (4MB-aligned) with flag word
/// `flags`.
pub open spec fn encode(addr: u32, flags: u16) -> EntryV {
    EntryV { addr: (addr >> 16) as u16, flags }
}

/// The all-zero, not-present entry.
pub open spec fn empty_entry() -> EntryV {
    EntryV { addr: 0, flags: 0 }
}

/// The image of the common-case mapping: present, read/write, huge page.
pub open spec fn default_entry(addr: u32) -> EntryV {
    encode(addr, FLAG_PRESENT | FLAG_RW | FLAG_SIZE)
}

/// Encoding a 4MB-aligned address and decoding it back yields the address
/// exactly.
pub proof fn lemma_entry_round_trip(p: u32)
    requires
        granule_aligned(p),
    ensures
        base_of(encode(p, FLAG_PRESENT | FLAG_RW | FLAG_SIZE)) == p,
        forall|f: u16| base_of(encode(p, f)) == p,
{
    assert(p & 0x3fffffu32 == 0 ==> (((p >> 16) as u16) as u32) << 16 == p) by (bit_vector);
}

/// One slot of the 1024-entry page directory.
#[derive(Clone, Copy, Debug, PartialEq, Eq, Hash, Structural)]
pub struct Entry {
    addr: u16,
    flags: u16,
}

impl View for Entry {
    type V = EntryV;

    closed spec fn view(&self) -> EntryV {
        EntryV { addr: self.addr, flags: self.flags }
    }
}

impl Entry {
    /// The all-zero, not-present entry.
    pub fn empty() -> (r: Entry)
        ensures
            r@ == empty_entry(),
    {
        Entry { addr: 0, flags: 0 }
    }

    /// The stored physical base address.
    pub fn into_physical(&self) -> (r: Physical)
        ensures
            r@ == base_of(self@),
    {
        Physical::new((self.addr as u32) << 16)
    }

    /// Whether the present flag is set.
    pub fn is_used(&self) -> (r: bool)
        ensures
            r == entry_present(self@),
    {
        self.flags & FLAG_PRESENT != 0
    }
}

#[derive(Clone, Copy, Debug, PartialEq, Eq, Hash, Structural)]
pub enum PageSize {
    Normal,
    Huge,
}

/// The flag bit a page size selects.
pub open spec fn size_flag(s: PageSize) -> u16 {
    match s {
        PageSize::Normal => 0,
        PageSize::Huge => FLAG_SIZE,
    }
}

/// The flag word of a builder, with the unset state reading as zero.
pub open spec fn flags_or_zero(f: Option<u16>) -> u16 {
    match f {
        Some(x) => x,
        None => 0,
    }
}

/// Accumulates the fields of a directory entry; `build` packs them once
/// every mandatory field is present and the address is 4MB-aligned.
#[derive(Clone, Copy, Debug, PartialEq, Eq, Hash)]
pub struct EntryBuilder {
    addr: Option<Physical>,
    flags: Option<u16>,
}

impl EntryBuilder {
    /// The address field supplied so far.
    pub closed spec fn addr_view(self) -> Option<u32> {
        match self.addr {
            Some(p) => Some(p@),
            None => None,
        }
    }

    /// The flag word supplied so far.
    pub closed spec fn flags_view(self) -> Option<u16> {
        self.flags
    }

    pub fn new() -> (r: EntryBuilder)
        ensures
            r.addr_view() == None::<u32>,
            r.flags_view() == None::<u16>,
    {
        EntryBuilder { addr: None, flags: None }
    }

    /// Packs the accumulated fields. Every mandatory field must have been
    /// supplied, and the physical base must be 4MB-aligned: anything else
    /// is a programming error, so those inputs are excluded here and
    /// rejected by `try_build`.
    pub fn build(self) -> (r: Entry)
        requires
            self.addr_view().is_some(),
            self.flags_view().is_some(),
            granule_aligned(self.addr_view().unwrap()),
        ensures
            r@ == encode(self.addr_view().unwrap(), self.flags_view().unwrap()),
    {
        let addr = self.addr.unwrap().into_inner();
        let flags = self.flags.unwrap();
        proof {
            assert((addr >> 16) < 0x10000) by (bit_vector);
        }
        Entry { addr: (addr >> 16) as u16, flags }
    }

    /// Fails construction (returns none) when a mandatory field is missing
    /// or the physical base is not 4MB-aligned, rather than truncating.
    pub fn try_build(self) -> (r: Option<Entry>)
        ensures
            r.is_some() == (self.addr_view().is_some() && self.flags_view().is_some()
                && granule_aligned(self.addr_view().unwrap())),
            r.is_some() ==> r.unwrap()@ == encode(
                self.addr_view().unwrap(),
                self.flags_view().unwrap(),
            ),
    {
        if self.addr.is_none() || self.flags.is_none() {
            return None;
        }
        if self.addr.unwrap().into_inner() & (FRAME_SIZE - 1) != 0 {
            return None;
        }
        Some(self.build())
    }

    /// The explicit null entry: address zero, no flags.
    pub fn nul(self) -> (r: EntryBuilder)
        ensures
            r.addr_view() == Some(0u32),
            r.flags_view() == Some(0u16),
    {
        EntryBuilder { addr: Some(Physical::new(0)), flags: Some(0) }
    }

    pub fn addr(self, addr: Physical) -> (r: EntryBuilder)
        ensures
            r.addr_view() == Some(addr@),
            r.flags_view() == self.flags_view(),
    {
        EntryBuilder { addr: Some(addr), flags: self.flags }
    }

    pub fn present(self) -> (r: EntryBuilder)
        ensures
            r.addr_view() == self.addr_view(),
            r.flags_view() == Some(flags_or_zero(self.flags_view()) | FLAG_PRESENT),
    {
        EntryBuilder { addr: self.addr, flags: Some(self.flags.unwrap_or(0) | FLAG_PRESENT) }
    }

    pub fn global(self) -> (r: EntryBuilder)
        ensures
            r.addr_view() == self.addr_view(),
            r.flags_view() == Some(flags_or_zero(self.flags_view()) | FLAG_GLOBAL),
    {
        EntryBuilder { addr: self.addr, flags: Some(self.flags.unwrap_or(0) | FLAG_GLOBAL) }
    }

    pub fn no_cache(self) -> (r: EntryBuilder)
        ensures
            r.addr_view() == self.addr_view(),
            r.flags_view() == Some(flags_or_zero(self.flags_view()) | FLAG_NOCACHE),
    {
        EntryBuilder { addr: self.addr, flags: Some(self.flags.unwrap_or(0) | FLAG_NOCACHE) }
    }

    pub fn write_through(self) -> (r: EntryBuilder)
        ensures
            r.addr_view() == self.addr_view(),
            r.flags_view() == Some(flags_or_zero(self.flags_view()) | FLAG_WTHR),
    {
        EntryBuilder { addr: self.addr, flags: Some(self.flags.unwrap_or(0) | FLAG_WTHR) }
    }

    pub fn user(self) -> (r: EntryBuilder)
        ensures
            r.addr_view() == self.addr_view(),
            r.flags_view() == Some(flags_or_zero(self.flags_view()) | FLAG_USER),
    {
        EntryBuilder { addr: self.addr, flags: Some(self.flags.unwrap_or(0) | FLAG_USER) }
    }

    pub fn read_write(self) -> (r: EntryBuilder)
        ensures
            r.addr_view() == self.addr_view(),
            r.flags_view() == Some(flags_or_zero(self.flags_view()) | FLAG_RW),
    {
        EntryBuilder { addr: self.addr, flags: Some(self.flags.unwrap_or(0) | FLAG_RW) }
    }

    /// Selects the page size; within its own bit group the last write wins.
    pub fn page_size(self, size: PageSize) -> (r: EntryBuilder)
        ensures
            r.addr_view() == self.addr_view(),
            r.flags_view() == Some(
                (flags_or_zero(self.flags_view()) & !FLAG_SIZE) | size_flag(size),
            ),
    {
        let bit = match size {
            PageSize::Normal => 0,
            PageSize::Huge => FLAG_SIZE,
        };
        EntryBuilder {
            addr: self.addr,
            flags: Some((self.flags.unwrap_or(0) & !FLAG_SIZE) | bit),
        }
    }
}

} // verus!
