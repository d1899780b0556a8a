//! Global descriptor table: classic 8-byte x86 segment descriptors (split
//! limit/base fields, access byte, flags nibble), a builder that packs one
//! only when every mandatory field was supplied, and the flat entry array
//! with its register image. Loading the table into the CPU is the shell's
//! job.

use vstd::prelude::*;
use crate::addr::Physical;

verus! {

pub const FLAG_PAGE_GR: u8 = 0b10000000;

pub const FLAG_SIZE_32: u8 = 0b01000000;

pub const ACCESS_PRESENT: u8 = 0b10000000;

pub const ACCESS_RING3: u8 = 0b01100000;

/// Bit 4 of the access byte has to be one in every code or data segment.
pub const ACCESS_ONE: u8 = 0b00010000;

pub const ACCESS_EXEC: u8 = 0b00001000;

pub const ACCESS_DIR: u8 = 0b00000100;

pub const ACCESS_RW: u8 = 0b00000010;

/// Ghost image of a packed segment descriptor, field by wire field.
pub struct EntryV {
    pub limit_1: u16,
    pub base_1: u16,
    pub base_2: u8,
    pub access: u8,
    pub limit_2_flags: u8,
    pub base_3: u8,
}

/// How the packed fields are carved out of base, limit, flags and access.
pub open spec fn gdt_encode(base: u32, limit: u32, flags: u8, access: u8) -> EntryV {
    EntryV {
        limit_1: (limit & 0xffff) as u16,
        base_1: (base & 0xffff) as u16,
        base_2: ((base & 0xff0000) >> 16) as u8,
        access,
        limit_2_flags: flags | (((limit & 0xf0000) >> 16) as u8),
        base_3: ((base & 0xff000000) >> 24) as u8,
    }
}

pub open spec fn gdt_empty_entry() -> EntryV {
    EntryV { limit_1: 0, base_1: 0, base_2: 0, access: 0, limit_2_flags: 0, base_3: 0 }
}

/// The carved fields fit their wire widths.
pub proof fn lemma_gdt_encode_bounds(base: u32, limit: u32)
    by (bit_vector)
    ensures
        limit & 0xffff <= 0xffff,
        base & 0xffff <= 0xffff,
        (base & 0xff0000) >> 16 <= 0xff,
        (limit & 0xf0000) >> 16 <= 0xf,
        (base & 0xff000000) >> 24 <= 0xff,
{
}

/// One packed segment descriptor.
#[derive(Clone, Copy, Debug, PartialEq, Eq, Hash, Structural)]
pub struct Entry {
    limit_1: u16,
    base_1: u16,
    base_2: u8,
    access: u8,
    limit_2_flags: u8,
    base_3: u8,
}

impl View for Entry {
    type V = EntryV;

    closed spec fn view(&self) -> EntryV {
        EntryV {
            limit_1: self.limit_1,
            base_1: self.base_1,
            base_2: self.base_2,
            access: self.access,
            limit_2_flags: self.limit_2_flags,
            base_3: self.base_3,
        }
    }
}

impl Entry {
    /// The all-zero descriptor.
    pub fn empty() -> (r: Entry)
        ensures
            r@ == gdt_empty_entry(),
    {
        Entry { limit_1: 0, base_1: 0, base_2: 0, access: 0, limit_2_flags: 0, base_3: 0 }
    }
}

#[derive(Clone, Copy, Debug, PartialEq, Eq, Hash, Structural)]
pub enum RingLevel {
    Ring0,
    Ring1,
    Ring2,
    Ring3,
}

/// The two ring bits of the access byte a ring level selects.
pub open spec fn ring_bits(r: RingLevel) -> u8 {
    match r {
        RingLevel::Ring0 => 0,
        RingLevel::Ring1 => 0b00100000,
        RingLevel::Ring2 => 0b01000000,
        RingLevel::Ring3 => 0b01100000,
    }
}

#[derive(Clone, Copy, Debug, PartialEq, Eq, Hash, Structural)]
pub enum Granularity {
    Bit,
    Page,
}

/// The access byte so far, with the unset state reading as its default
/// (only the mandatory one-bit set).
pub open spec fn access_or_default(a: Option<u8>) -> u8 {
    match a {
        Some(x) => x,
        None => ACCESS_ONE,
    }
}

/// The flags nibble so far, with the unset state reading as zero.
pub open spec fn flags_or_zero(f: Option<u8>) -> u8 {
    match f {
        Some(x) => x,
        None => 0,
    }
}

/// What a plain or-a-bit setter (present, executable, read/write) leaves in
/// the access byte.
pub open spec fn with_bit(a: Option<u8>, b: u8) -> Option<u8> {
    Some(access_or_default(a) | b)
}

/// What the ring setter leaves in the access byte: the old ring bits are
/// cleared, then the new level's bits are or-ed in.
pub open spec fn with_ring(a: Option<u8>, r: RingLevel) -> Option<u8> {
    Some((access_or_default(a) & !ACCESS_RING3) | ring_bits(r))
}

/// The ring bits of every level lie within the ring mask.
pub proof fn lemma_ring_bits_in_mask(r: RingLevel)
    ensures
        ring_bits(r) & ACCESS_RING3 == ring_bits(r),
{
    assert(0u8 & 0x60 == 0 && 0x20u8 & 0x60 == 0x20 && 0x40u8 & 0x60 == 0x40 && 0x60u8 & 0x60
        == 0x60) by (bit_vector);
}

/// Builder law: a bit setter whose bit lies outside the ring group and the
/// ring setter can be chained in either order.
pub proof fn lemma_ring_commutes(a: Option<u8>, r: RingLevel, b: u8)
    requires
        b & ACCESS_RING3 == 0,
    ensures
        with_bit(with_ring(a, r), b) == with_ring(with_bit(a, b), r),
{
    lemma_ring_bits_in_mask(r);
    let x = access_or_default(a);
    let rb = ring_bits(r);
    assert(((x & !0x60u8) | rb) | b == (((x | b) & !0x60u8) | rb)) by (bit_vector)
        requires
            rb & 0x60u8 == rb,
            b & 0x60u8 == 0,
    ;
}

/// Builder law: two plain bit setters commute.
pub proof fn lemma_bits_commute(a: Option<u8>, b1: u8, b2: u8)
    ensures
        with_bit(with_bit(a, b1), b2) == with_bit(with_bit(a, b2), b1),
{
    let x = access_or_default(a);
    assert((x | b1) | b2 == (x | b2) | b1) by (bit_vector);
}

/// Builder law: within the ring bit group the last write wins.
pub proof fn lemma_ring_last_wins(a: Option<u8>, r1: RingLevel, r2: RingLevel)
    ensures
        with_ring(with_ring(a, r1), r2) == with_ring(a, r2),
{
    lemma_ring_bits_in_mask(r1);
    let x = access_or_default(a);
    let rb1 = ring_bits(r1);
    assert((((x & !0x60u8) | rb1) & !0x60u8) == (x & !0x60u8)) by (bit_vector)
        requires
            rb1 & 0x60u8 == rb1,
    ;
}

/// Accumulates the fields of a segment descriptor: base, limit, flags
/// nibble, access byte. `build` packs them; missing mandatory fields fail
/// construction.
#[derive(Clone, Copy, Debug, PartialEq, Eq, Hash)]
pub struct EntryBuilder {
    base: Option<u32>,
    limit: Option<u32>,
    flags: Option<u8>,
    access: Option<u8>,
}

impl EntryBuilder {
    pub closed spec fn base_view(self) -> Option<u32> {
        self.base
    }

    pub closed spec fn limit_view(self) -> Option<u32> {
        self.limit
    }

    pub closed spec fn flags_view(self) -> Option<u8> {
        self.flags
    }

    pub closed spec fn access_view(self) -> Option<u8> {
        self.access
    }

    pub fn new() -> (r: EntryBuilder)
        ensures
            r.base_view() == None::<u32>,
            r.limit_view() == None::<u32>,
            r.flags_view() == None::<u8>,
            r.access_view() == None::<u8>,
    {
        EntryBuilder { base: None, limit: None, flags: None, access: None }
    }

    /// Packs the accumulated fields. A missing mandatory field is a
    /// programming error, excluded here and rejected by `try_build`.
    pub fn build(self) -> (r: Entry)
        requires
            self.base_view().is_some(),
            self.limit_view().is_some(),
            self.flags_view().is_some(),
            self.access_view().is_some(),
        ensures
            r@ == gdt_encode(
                self.base_view().unwrap(),
                self.limit_view().unwrap(),
                self.flags_view().unwrap(),
                self.access_view().unwrap(),
            ),
    {
        let base = self.base.unwrap();
        let limit = self.limit.unwrap();
        let flags = self.flags.unwrap();
        let access = self.access.unwrap();
        proof {
            lemma_gdt_encode_bounds(base, limit);
        }
        Entry {
            limit_1: (limit & 0xffff) as u16,
            base_1: (base & 0xffff) as u16,
            base_2: ((base & 0xff0000) >> 16) as u8,
            access,
            limit_2_flags: flags | (((limit & 0xf0000) >> 16) as u8),
            base_3: ((base & 0xff000000) >> 24) as u8,
        }
    }

    /// Returns none instead of building when a mandatory field is missing.
    pub fn try_build(self) -> (r: Option<Entry>)
        ensures
            r.is_some() == (self.base_view().is_some() && self.limit_view().is_some()
                && self.flags_view().is_some() && self.access_view().is_some()),
            r.is_some() ==> r.unwrap()@ == gdt_encode(
                self.base_view().unwrap(),
                self.limit_view().unwrap(),
                self.flags_view().unwrap(),
                self.access_view().unwrap(),
            ),
    {
        if self.base.is_none() || self.limit.is_none() || self.flags.is_none()
            || self.access.is_none() {
            return None;
        }
        Some(self.build())
    }

    /// The explicit null descriptor: everything zero but the mandatory
    /// access bit.
    pub fn nul(self) -> (r: EntryBuilder)
        ensures
            r.base_view() == Some(0u32),
            r.limit_view() == Some(0u32),
            r.flags_view() == Some(0u8),
            r.access_view() == Some(ACCESS_ONE),
    {
        EntryBuilder { base: Some(0), limit: Some(0), flags: Some(0), access: Some(ACCESS_ONE) }
    }

    pub fn base(self, base: u32) -> (r: EntryBuilder)
        ensures
            r.base_view() == Some(base),
            r.limit_view() == self.limit_view(),
            r.flags_view() == self.flags_view(),
            r.access_view() == self.access_view(),
    {
        EntryBuilder { base: Some(base), limit: self.limit, flags: self.flags, access: self.access }
    }

    pub fn limit(self, limit: u32) -> (r: EntryBuilder)
        ensures
            r.base_view() == self.base_view(),
            r.limit_view() == Some(limit),
            r.flags_view() == self.flags_view(),
            r.access_view() == self.access_view(),
    {
        EntryBuilder { base: self.base, limit: Some(limit), flags: self.flags, access: self.access }
    }

    /// Whether the limit counts bytes or whole pages.
    pub fn granularity(self, granularity: Granularity) -> (r: EntryBuilder)
        ensures
            r.base_view() == self.base_view(),
            r.limit_view() == self.limit_view(),
            r.access_view() == self.access_view(),
            r.flags_view() == Some(
                match granularity {
                    Granularity::Page => flags_or_zero(self.flags_view()) | FLAG_PAGE_GR,
                    Granularity::Bit => flags_or_zero(self.flags_view()) & !FLAG_PAGE_GR,
                },
            ),
    {
        let f = self.flags.unwrap_or(0);
        let f2 = match granularity {
            Granularity::Page => f | FLAG_PAGE_GR,
            Granularity::Bit => f & !FLAG_PAGE_GR,
        };
        EntryBuilder { base: self.base, limit: self.limit, flags: Some(f2), access: self.access }
    }

    /// The segment's operand size. Only 16 and 32 exist on this hardware;
    /// anything else is a programming error.
    pub fn size(self, size: u8) -> (r: EntryBuilder)
        requires
            size == 16 || size == 32,
        ensures
            r.base_view() == self.base_view(),
            r.limit_view() == self.limit_view(),
            r.access_view() == self.access_view(),
            r.flags_view() == Some(
                if size == 16 {
                    flags_or_zero(self.flags_view()) & !FLAG_SIZE_32
                } else {
                    flags_or_zero(self.flags_view()) | FLAG_SIZE_32
                },
            ),
    {
        let f = self.flags.unwrap_or(0);
        let f2 = if size == 16 {
            f & !FLAG_SIZE_32
        } else {
            f | FLAG_SIZE_32
        };
        EntryBuilder { base: self.base, limit: self.limit, flags: Some(f2), access: self.access }
    }

    pub fn present(self) -> (r: EntryBuilder)
        ensures
            r.base_view() == self.base_view(),
            r.limit_view() == self.limit_view(),
            r.flags_view() == self.flags_view(),
            r.access_view() == with_bit(self.access_view(), ACCESS_PRESENT),
    {
        EntryBuilder {
            base: self.base,
            limit: self.limit,
            flags: self.flags,
            access: Some(self.access.unwrap_or(ACCESS_ONE) | ACCESS_PRESENT),
        }
    }

    /// Selects the privilege ring; within its own bit group the last write
    /// wins.
    pub fn ring(self, ring: RingLevel) -> (r: EntryBuilder)
        ensures
            r.base_view() == self.base_view(),
            r.limit_view() == self.limit_view(),
            r.flags_view() == self.flags_view(),
            r.access_view() == with_ring(self.access_view(), ring),
    {
        let bits = match ring {
            RingLevel::Ring0 => 0,
            RingLevel::Ring1 => 0b00100000,
            RingLevel::Ring2 => 0b01000000,
            RingLevel::Ring3 => 0b01100000,
        };
        EntryBuilder {
            base: self.base,
            limit: self.limit,
            flags: self.flags,
            access: Some((self.access.unwrap_or(ACCESS_ONE) & !ACCESS_RING3) | bits),
        }
    }

    pub fn executable(self) -> (r: EntryBuilder)
        ensures
            r.base_view() == self.base_view(),
            r.limit_view() == self.limit_view(),
            r.flags_view() == self.flags_view(),
            r.access_view() == with_bit(self.access_view(), ACCESS_EXEC),
    {
        EntryBuilder {
            base: self.base,
            limit: self.limit,
            flags: self.flags,
            access: Some(self.access.unwrap_or(ACCESS_ONE) | ACCESS_EXEC),
        }
    }

    pub fn read_write(self) -> (r: EntryBuilder)
        ensures
            r.base_view() == self.base_view(),
            r.limit_view() == self.limit_view(),
            r.flags_view() == self.flags_view(),
            r.access_view() == with_bit(self.access_view(), ACCESS_RW),
    {
        EntryBuilder {
            base: self.base,
            limit: self.limit,
            flags: self.flags,
            access: Some(self.access.unwrap_or(ACCESS_ONE) | ACCESS_RW),
        }
    }
}

/// Ghost image of the descriptor-table register: byte limit and linear
/// base address.
pub struct GdtrV {
    pub limit: u16,
    pub base: u32,
}

/// The register image the `lgdt` instruction takes.
pub struct Gdtr {
    limit: u16,
    base: u32,
}

impl View for Gdtr {
    type V = GdtrV;

    closed spec fn view(&self) -> GdtrV {
        GdtrV { limit: self.limit, base: self.base }
    }
}

impl Gdtr {
    /// The register image's byte limit.
    pub fn limit(&self) -> (r: u16)
        ensures
            r == self@.limit,
    {
        self.limit
    }

    /// The register image's linear base address.
    pub fn base(&self) -> (r: u32)
        ensures
            r == self@.base,
    {
        self.base
    }
}

/// The descriptor table itself: a flat entry array living at a known
/// address.
pub struct Gdt {
    table: Vec<Entry>,
    base: u32,
}

impl View for Gdt {
    type V = Seq<EntryV>;

    closed spec fn view(&self) -> Seq<EntryV> {
        self.table@.map_values(|e: Entry| e@)
    }
}

impl Gdt {
    /// The address at which the entry array lives.
    pub closed spec fn base(&self) -> u32 {
        self.base
    }

    /// Takes ownership of the backing entries, which live at `base`.
    pub fn with_table(table: Vec<Entry>, base: Physical) -> (r: Gdt)
        ensures
            r@ == table@.map_values(|e: Entry| e@),
            r.base() == base@,
    {
        Gdt { table, base: base.into_inner() }
    }

    /// The register image: the table's byte size minus one, and its base.
    pub fn gdtr(&self) -> (r: Gdtr)
        requires
            1 <= self@.len() <= 8192,
        ensures
            r@.limit == self@.len() * 8 - 1,
            r@.base == self.base(),
    {
        Gdtr { limit: (self.table.len() * 8 - 1) as u16, base: self.base }
    }

    /// Installs `entry` as selector `num`. A selector must be a multiple of
    /// the 8-byte entry size and lie within the table; anything else is a
    /// programming error.
    pub fn new_entry(&mut self, num: u16, entry: Entry)
        requires
            old(self).wf_index(num),
        ensures
            final(self)@ == old(self)@.update(num as int / 8, entry@),
            final(self).base() == old(self).base(),
    {
        let idx = (num / 8) as usize;
        self.table.set(idx, entry);
        proof {
            assert(self@ =~= old(self)@.update(num as int / 8, entry@));
        }
    }

    /// A selector that is a multiple of eight and lies within the table.
    pub open spec fn wf_index(&self, num: u16) -> bool {
        num % 8 == 0 && num / 8 < self@.len()
    }

    /// The descriptor currently installed as selector `num`.
    pub fn entry_at(&self, num: u16) -> (r: Entry)
        requires
            self.wf_index(num),
        ensures
            r@ == self@[num as int / 8],
    {
        self.table[(num / 8) as usize]
    }
}

} // verus!
