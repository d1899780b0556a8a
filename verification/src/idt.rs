//! Interrupt descriptor table: classic 8-byte x86 interrupt gates (split
//! offset fields, selector, gate-type/ring access byte), the builder that
//! packs one, and the flat 256-entry table binding raw service-routine
//! addresses. A vector is either absent (all-zero, not present) or bound
//! to a handler; loading the table into the CPU is the shell's job.

use vstd::prelude::*;
use crate::addr::Physical;
use crate::interrupt::pushes_error_code;

verus! {

pub const ATTR_PRESENT: u8 = 0b10000000;

pub const ATTR_STORAGE: u8 = 0b00010000;

pub const ATTR_RING3: u8 = 0b01100000;

pub const ATTR_INT_GATE: u8 = 0x0e;

pub const ATTR_TRP_GATE: u8 = 0x0f;

/// Ghost image of a packed interrupt gate, field by wire field.
pub struct EntryV {
    pub offset_1: u16,
    pub selector: u16,
    pub zero: u8,
    pub flags: u8,
    pub offset_2: u16,
}

/// How the packed fields are carved out of offset, selector and flags.
pub open spec fn idt_encode(offset: u32, selector: u16, flags: u8) -> EntryV {
    EntryV {
        offset_1: (offset & 0xffff) as u16,
        selector,
        zero: 0,
        flags,
        offset_2: ((offset >> 16) & 0xffff) as u16,
    }
}

pub open spec fn idt_empty_entry() -> EntryV {
    EntryV { offset_1: 0, selector: 0, zero: 0, flags: 0, offset_2: 0 }
}

/// Whether an entry is marked present.
pub open spec fn idt_present(v: EntryV) -> bool {
    v.flags & ATTR_PRESENT != 0
}

/// The service-routine address an entry stores, its two halves joined.
pub open spec fn entry_offset(v: EntryV) -> u32 {
    ((v.offset_2 as u32) << 16) | (v.offset_1 as u32)
}

/// The image of the one gate shape this kernel installs: present,
/// ring 3, interrupt gate, selector 8.
pub open spec fn gate_entry(isr: u32) -> EntryV {
    idt_encode(isr, 8, 0xee)
}

/// The carved fields fit their wire widths, and joining them back yields
/// the offset exactly.
pub proof fn lemma_idt_encode_offset(offset: u32)
    by (bit_vector)
    ensures
        offset & 0xffff <= 0xffff,
        (offset >> 16) & 0xffff <= 0xffff,
        ((((offset >> 16) & 0xffff) as u16 as u32) << 16) | ((offset & 0xffff) as u16 as u32)
            == offset,
{
}

/// One packed interrupt gate.
#[derive(Clone, Copy, Debug, PartialEq, Eq, Hash, Structural)]
pub struct Entry {
    offset_1: u16,
    selector: u16,
    zero: u8,
    flags: u8,
    offset_2: u16,
}

impl View for Entry {
    type V = EntryV;

    closed spec fn view(&self) -> EntryV {
        EntryV {
            offset_1: self.offset_1,
            selector: self.selector,
            zero: self.zero,
            flags: self.flags,
            offset_2: self.offset_2,
        }
    }
}

impl Entry {
    /// The all-zero, not-present gate.
    pub fn empty() -> (r: Entry)
        ensures
            r@ == idt_empty_entry(),
    {
        Entry { offset_1: 0, selector: 0, zero: 0, flags: 0, offset_2: 0 }
    }

    /// Whether the entry is marked present.
    pub fn is_present(&self) -> (r: bool)
        ensures
            r == idt_present(self@),
    {
        self.flags & ATTR_PRESENT != 0
    }

    /// The stored service-routine address.
    pub fn offset(&self) -> (r: u32)
        ensures
            r == entry_offset(self@),
    {
        ((self.offset_2 as u32) << 16) | (self.offset_1 as u32)
    }
}

#[derive(Clone, Copy, Debug, PartialEq, Eq, Hash, Structural)]
pub enum RingLevel {
    Ring0,
    Ring1,
    Ring2,
    Ring3,
}

/// The two ring bits of the access byte a ring level selects.
pub open spec fn ring_bits(r: RingLevel) -> u8 {
    match r {
        RingLevel::Ring0 => 0,
        RingLevel::Ring1 => 0b00100000,
        RingLevel::Ring2 => 0b01000000,
        RingLevel::Ring3 => 0b01100000,
    }
}

#[derive(Clone, Copy, Debug, PartialEq, Eq, Hash, Structural)]
pub enum Gate {
    Interrupt,
    Trap,
}

/// Which type nibble each kind selects.
pub open spec fn gate_bits(g: Gate) -> u8 {
    match g {
        Gate::Interrupt => ATTR_INT_GATE,
        Gate::Trap => ATTR_TRP_GATE,
    }
}

/// The flag byte so far, with the unset state reading as zero.
pub open spec fn flags_or_zero(f: Option<u8>) -> u8 {
    match f {
        Some(x) => x,
        None => 0,
    }
}

/// What a plain or-a-bit setter (present) leaves in the flag byte.
pub open spec fn with_bit(f: Option<u8>, b: u8) -> Option<u8> {
    Some(flags_or_zero(f) | b)
}

/// What a bit-group setter leaves in the flag byte: the group's old bits
/// (under `mask`) are cleared, then the new value is or-ed in.
pub open spec fn with_group(f: Option<u8>, mask: u8, v: u8) -> Option<u8> {
    Some((flags_or_zero(f) & !mask) | v)
}

/// A bit-group setter and an or-a-bit setter whose bit lies outside the
/// group can be chained in either order.
pub proof fn lemma_group_bit_commutes(x: u8, m: u8, v: u8, b: u8)
    by (bit_vector)
    requires
        v & m == v,
        b & m == 0,
    ensures
        ((x & !m) | v) | b == ((x | b) & !m) | v,
{
}

/// Setters of two disjoint bit groups can be chained in either order.
pub proof fn lemma_groups_commute(x: u8, m1: u8, v1: u8, m2: u8, v2: u8)
    by (bit_vector)
    requires
        v1 & m1 == v1,
        v2 & m2 == v2,
        m1 & m2 == 0,
    ensures
        (((x & !m1) | v1) & !m2) | v2 == (((x & !m2) | v2) & !m1) | v1,
{
}

/// Within one bit group the last write wins.
pub proof fn lemma_group_last_wins(x: u8, m: u8, v1: u8, v2: u8)
    by (bit_vector)
    requires
        v1 & m == v1,
    ensures
        (((x & !m) | v1) & !m) | v2 == (x & !m) | v2,
{
}

/// The constant bit facts the builder laws instantiate: ring bits lie in
/// the ring mask, gate-type bits in their own nibble, the two groups are
/// disjoint, and the present bit touches neither.
pub proof fn lemma_idt_masks()
    by (bit_vector)
    ensures
        0u8 & 0x60 == 0,
        0x20u8 & 0x60 == 0x20,
        0x40u8 & 0x60 == 0x40,
        0x60u8 & 0x60 == 0x60,
        0x0eu8 & 0x0f == 0x0e,
        0x0fu8 & 0x0f == 0x0f,
        0x60u8 & 0x0f == 0,
        0x80u8 & 0x60 == 0,
        0x80u8 & 0x0f == 0,
{
}

/// Builder law: the present and ring setters commute.
pub proof fn lemma_present_ring_commutes(f: Option<u8>, r: RingLevel)
    ensures
        with_bit(with_group(f, ATTR_RING3, ring_bits(r)), ATTR_PRESENT) == with_group(
            with_bit(f, ATTR_PRESENT),
            ATTR_RING3,
            ring_bits(r),
        ),
{
    lemma_idt_masks();
    lemma_group_bit_commutes(flags_or_zero(f), ATTR_RING3, ring_bits(r), ATTR_PRESENT);
}

/// Builder law: the present and gate setters commute.
pub proof fn lemma_present_gate_commutes(f: Option<u8>, g: Gate)
    ensures
        with_bit(with_group(f, ATTR_TRP_GATE, gate_bits(g)), ATTR_PRESENT) == with_group(
            with_bit(f, ATTR_PRESENT),
            ATTR_TRP_GATE,
            gate_bits(g),
        ),
{
    lemma_idt_masks();
    lemma_group_bit_commutes(flags_or_zero(f), ATTR_TRP_GATE, gate_bits(g), ATTR_PRESENT);
}

/// Builder law: the ring and gate setters commute.
pub proof fn lemma_ring_gate_commutes(f: Option<u8>, r: RingLevel, g: Gate)
    ensures
        with_group(with_group(f, ATTR_RING3, ring_bits(r)), ATTR_TRP_GATE, gate_bits(g))
            == with_group(with_group(f, ATTR_TRP_GATE, gate_bits(g)), ATTR_RING3, ring_bits(r)),
{
    lemma_idt_masks();
    lemma_groups_commute(flags_or_zero(f), ATTR_RING3, ring_bits(r), ATTR_TRP_GATE, gate_bits(g));
}

/// Builder law: within the ring group the last write wins, and likewise
/// within its own type nibble.
pub proof fn lemma_last_write_wins(f: Option<u8>, r1: RingLevel, r2: RingLevel, g1: Gate, g2: Gate)
    ensures
        with_group(with_group(f, ATTR_RING3, ring_bits(r1)), ATTR_RING3, ring_bits(r2))
            == with_group(f, ATTR_RING3, ring_bits(r2)),
        with_group(with_group(f, ATTR_TRP_GATE, gate_bits(g1)), ATTR_TRP_GATE, gate_bits(g2))
            == with_group(f, ATTR_TRP_GATE, gate_bits(g2)),
{
    lemma_idt_masks();
    lemma_group_last_wins(flags_or_zero(f), ATTR_RING3, ring_bits(r1), ring_bits(r2));
    lemma_group_last_wins(flags_or_zero(f), ATTR_TRP_GATE, gate_bits(g1), gate_bits(g2));
}

/// Accumulates the fields of an interrupt gate: routine offset, segment
/// selector, flag byte. `build` packs them; missing mandatory fields fail
/// construction.
#[derive(Clone, Copy, Debug, PartialEq, Eq, Hash)]
pub struct EntryBuilder {
    offset: Option<u32>,
    selector: Option<u16>,
    flags: Option<u8>,
}

impl EntryBuilder {
    pub closed spec fn offset_view(self) -> Option<u32> {
        self.offset
    }

    pub closed spec fn selector_view(self) -> Option<u16> {
        self.selector
    }

    pub closed spec fn flags_view(self) -> Option<u8> {
        self.flags
    }

    pub fn new() -> (r: EntryBuilder)
        ensures
            r.offset_view() == None::<u32>,
            r.selector_view() == None::<u16>,
            r.flags_view() == None::<u8>,
    {
        EntryBuilder { offset: None, selector: None, flags: None }
    }

    /// Packs the accumulated fields. A missing mandatory field is a
    /// programming error, excluded here and rejected by `try_build`.
    pub fn build(self) -> (r: Entry)
        requires
            self.offset_view().is_some(),
            self.selector_view().is_some(),
            self.flags_view().is_some(),
        ensures
            r@ == idt_encode(
                self.offset_view().unwrap(),
                self.selector_view().unwrap(),
                self.flags_view().unwrap(),
            ),
    {
        let offset = self.offset.unwrap();
        proof {
            lemma_idt_encode_offset(offset);
        }
        Entry {
            offset_1: (offset & 0xffff) as u16,
            selector: self.selector.unwrap(),
            zero: 0,
            flags: self.flags.unwrap(),
            offset_2: ((offset >> 16) & 0xffff) as u16,
        }
    }

    /// Returns none instead of building when a mandatory field is missing.
    pub fn try_build(self) -> (r: Option<Entry>)
        ensures
            r.is_some() == (self.offset_view().is_some() && self.selector_view().is_some()
                && self.flags_view().is_some()),
            r.is_some() ==> r.unwrap()@ == idt_encode(
                self.offset_view().unwrap(),
                self.selector_view().unwrap(),
                self.flags_view().unwrap(),
            ),
    {
        if self.offset.is_none() || self.selector.is_none() || self.flags.is_none() {
            return None;
        }
        Some(self.build())
    }

    /// The explicit null gate: everything zero, not present.
    pub fn nul(self) -> (r: EntryBuilder)
        ensures
            r.offset_view() == Some(0u32),
            r.selector_view() == Some(0u16),
            r.flags_view() == Some(0u8),
    {
        EntryBuilder { offset: Some(0), selector: Some(0), flags: Some(0) }
    }

    /// The service routine's address.
    pub fn isr(self, isr: u32) -> (r: EntryBuilder)
        ensures
            r.offset_view() == Some(isr),
            r.selector_view() == self.selector_view(),
            r.flags_view() == self.flags_view(),
    {
        EntryBuilder { offset: Some(isr), selector: self.selector, flags: self.flags }
    }

    pub fn selector(self, sel: u16) -> (r: EntryBuilder)
        ensures
            r.offset_view() == self.offset_view(),
            r.selector_view() == Some(sel),
            r.flags_view() == self.flags_view(),
    {
        EntryBuilder { offset: self.offset, selector: Some(sel), flags: self.flags }
    }

    pub fn present(self) -> (r: EntryBuilder)
        ensures
            r.offset_view() == self.offset_view(),
            r.selector_view() == self.selector_view(),
            r.flags_view() == with_bit(self.flags_view(), ATTR_PRESENT),
    {
        EntryBuilder {
            offset: self.offset,
            selector: self.selector,
            flags: Some(self.flags.unwrap_or(0) | ATTR_PRESENT),
        }
    }

    /// Selects the privilege ring; within its own bit group the last write
    /// wins.
    pub fn ring(self, ring: RingLevel) -> (r: EntryBuilder)
        ensures
            r.offset_view() == self.offset_view(),
            r.selector_view() == self.selector_view(),
            r.flags_view() == with_group(self.flags_view(), ATTR_RING3, ring_bits(ring)),
    {
        let bits = match ring {
            RingLevel::Ring0 => 0,
            RingLevel::Ring1 => 0b00100000,
            RingLevel::Ring2 => 0b01000000,
            RingLevel::Ring3 => 0b01100000,
        };
        EntryBuilder {
            offset: self.offset,
            selector: self.selector,
            flags: Some((self.flags.unwrap_or(0) & !ATTR_RING3) | bits),
        }
    }

    /// Selects which gate type the entry uses; within its own bit group the
    /// last write wins.
    pub fn gate(self, gate: Gate) -> (r: EntryBuilder)
        ensures
            r.offset_view() == self.offset_view(),
            r.selector_view() == self.selector_view(),
            r.flags_view() == with_group(self.flags_view(), ATTR_TRP_GATE, gate_bits(gate)),
    {
        let bits = match gate {
            Gate::Interrupt => ATTR_INT_GATE,
            Gate::Trap => ATTR_TRP_GATE,
        };
        EntryBuilder {
            offset: self.offset,
            selector: self.selector,
            flags: Some((self.flags.unwrap_or(0) & !ATTR_TRP_GATE) | bits),
        }
    }
}

/// Ghost image of the descriptor-table register: byte limit and linear
/// base address.
pub struct IdtrV {
    pub limit: u16,
    pub base: u32,
}

/// The register image the `lidt` instruction takes.
pub struct Idtr {
    limit: u16,
    base: u32,
}

impl View for Idtr {
    type V = IdtrV;

    closed spec fn view(&self) -> IdtrV {
        IdtrV { limit: self.limit, base: self.base }
    }
}

impl Idtr {
    /// The register image's byte limit.
    pub fn limit(&self) -> (r: u16)
        ensures
            r == self@.limit,
    {
        self.limit
    }

    /// The register image's linear base address.
    pub fn base(&self) -> (r: u32)
        ensures
            r == self@.base,
    {
        self.base
    }
}

/// The interrupt descriptor table itself: a flat entry array living at a
/// known address, one gate per vector.
pub struct Idt {
    table: Vec<Entry>,
    base: u32,
}

impl View for Idt {
    type V = Seq<EntryV>;

    closed spec fn view(&self) -> Seq<EntryV> {
        self.table@.map_values(|e: Entry| e@)
    }
}

impl Idt {
    /// The address at which the entry array lives.
    pub closed spec fn base(&self) -> u32 {
        self.base
    }

    /// Takes ownership of the backing entries, which live at `base`.
    pub fn with_table(table: Vec<Entry>, base: Physical) -> (r: Idt)
        ensures
            r@ == table@.map_values(|e: Entry| e@),
            r.base() == base@,
    {
        Idt { table, base: base.into_inner() }
    }

    /// The register image: the table's byte size minus one, and its base.
    pub fn idtr(&self) -> (r: Idtr)
        requires
            1 <= self@.len() <= 8192,
        ensures
            r@.limit == self@.len() * 8 - 1,
            r@.base == self.base(),
    {
        Idtr { limit: (self.table.len() * 8 - 1) as u16, base: self.base }
    }

    /// The entry currently bound to a vector.
    pub fn entry_at(&self, num: u8) -> (r: Entry)
        requires
            num < self@.len(),
        ensures
            r@ == self@[num as int],
    {
        self.table[num as usize]
    }

    /// Binds `entry` to vector `num`. A vector outside the table is a
    /// programming error.
    pub fn new_handler(&mut self, num: u8, entry: Entry)
        requires
            num < old(self)@.len(),
        ensures
            final(self)@ == old(self)@.update(num as int, entry@),
            final(self).base() == old(self).base(),
    {
        self.table.set(num as usize, entry);
        proof {
            assert(self@ =~= old(self)@.update(num as int, entry@));
        }
    }

    /// Builds and binds the one gate shape this kernel uses: present,
    /// ring 3, interrupt gate, selector 8.
    fn new_default_handler(&mut self, num: u8, isr: u32)
        requires
            num < old(self)@.len(),
        ensures
            final(self)@ == old(self)@.update(num as int, gate_entry(isr)),
            final(self).base() == old(self).base(),
    {
        let entry = EntryBuilder::new()
            .present()
            .isr(isr)
            .selector(8)
            .ring(RingLevel::Ring3)
            .gate(Gate::Interrupt)
            .build();
        proof {
            assert((((0u8 | 0x80) & !0x60) | 0x60) & !0x0f | 0x0e == 0xee) by (bit_vector);
        }
        self.new_handler(num, entry);
    }

    /// Binds a fault routine to a vector whose fault pushes a hardware
    /// error code; the trampoline for such a vector consumes that code, so
    /// installing one anywhere else is a programming error.
    pub fn new_exception_handler(&mut self, num: u8, isr: u32)
        requires
            num < old(self)@.len(),
            pushes_error_code(num),
        ensures
            final(self)@ == old(self)@.update(num as int, gate_entry(isr)),
            final(self).base() == old(self).base(),
    {
        self.new_default_handler(num, isr);
    }

    /// Binds a routine to a vector that pushes no error code.
    pub fn new_interrupt_handler(&mut self, num: u8, isr: u32)
        requires
            num < old(self)@.len(),
            !pushes_error_code(num),
        ensures
            final(self)@ == old(self)@.update(num as int, gate_entry(isr)),
            final(self).base() == old(self).base(),
    {
        self.new_default_handler(num, isr);
    }
}

} // verus!
