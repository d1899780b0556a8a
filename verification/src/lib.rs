//! Memory-management and protection-domain bootstrap core of a small
//! higher-half x86 kernel: 4MB-page directories, frame/page bitmap
//! allocators, descriptor tables (GDT/IDT), interrupt dispatch, and the
//! one-shot boot computation, all stated and proved over plain values.
//! Hardware access (port I/O, control registers, the multiboot handoff)
//! lives in the unverified shell around this crate.

pub mod addr;
pub mod bits;
pub mod entry;
pub mod table;
pub mod frame;
pub mod page;
pub mod gdt;
pub mod idt;
pub mod interrupt;
pub mod pic;
pub mod boot;
pub mod keyboard;
pub mod keycode;
pub mod scancode;
pub mod vga;

use vstd::prelude::*;

verus! {

/// Size of one granule: the only mapping unit this kernel supports
/// (a "huge" 4MB page / frame).
pub const FRAME_SIZE: u32 = 0x400000;

/// Size of one granule, under the name the virtual side uses.
pub const PAGE_SIZE: u32 = 0x400000;

/// Virtual base address of the higher-half kernel image.
pub const KERNEL_BASE: u32 = 0xe0000000;

} // verus!
