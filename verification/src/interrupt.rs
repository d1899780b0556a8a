//! Interrupt delivery, as a two-part contract: a platform entry stub
//! (outside this crate) captures the exact register and error-code shape
//! of each vector kind, and this module specifies the decoded argument
//! shapes and the dispatch decision: which routine a vector invokes, and
//! whether it receives the hardware error code. Faults that push an error
//! code must never be decoded with the shape of those that do not.

use vstd::prelude::*;
use crate::idt::{entry_offset, idt_present, gate_entry, Idt};

verus! {

/// The general-purpose registers as the trampoline saves them.
#[derive(Clone, Copy, Debug, PartialEq, Eq, Structural)]
pub struct Args {
    pub eax: u32,
    pub edx: u32,
    pub ecx: u32,
    pub ebx: u32,
    pub edi: u32,
    pub esi: u32,
    pub esp: u32,
    pub ebp: u32,
}

impl Default for Args {
    /// All registers zero.
    fn default() -> (r: Args)
        ensures
            r == (Args { eax: 0, edx: 0, ecx: 0, ebx: 0, edi: 0, esi: 0, esp: 0, ebp: 0 }),
    {
        Args { eax: 0, edx: 0, ecx: 0, ebx: 0, edi: 0, esi: 0, esp: 0, ebp: 0 }
    }
}

/// The stack shape of a fault that pushes an error code: return frame plus
/// the code the processor pushed.
#[derive(Clone, Copy, Debug, PartialEq, Eq)]
pub struct ErrArgs<E> {
    pub eip: u32,
    pub cs: u32,
    pub eflags: u32,
    pub err: E,
}

/// Unconstructible argument (no constructor is exported), making it
/// impossible to call an interrupt handler as an ordinary function.
pub struct NoCall {
    _priv: (),
}

/// What the processor pushes when an interrupt or exception fires.
#[derive(Clone, Copy, Debug, PartialEq, Eq, Structural)]
pub struct ExceptionStackFrame {
    pub eip: u32,
    pub cs: u32,
    pub eflags: u32,
    pub sp: u32,
    pub ss: u32,
}

/// The CPU-defined fault vectors that push a hardware error code: double
/// fault, invalid TSS, segment not present, stack-segment fault, general
/// protection fault, page fault, alignment check, security exception.
pub open spec fn spec_pushes_error_code(vector: u8) -> bool {
    vector == 0x8 || vector == 0xa || vector == 0xb || vector == 0xc || vector == 0xd || vector
        == 0xe || vector == 0x11 || vector == 0x1e
}

/// Whether a fault on this vector pushes a hardware error code.
#[verifier::when_used_as_spec(spec_pushes_error_code)]
pub fn pushes_error_code(vector: u8) -> (r: bool)
    ensures
        r == spec_pushes_error_code(vector),
{
    vector == 0x8 || vector == 0xa || vector == 0xb || vector == 0xc || vector == 0xd || vector
        == 0xe || vector == 0x11 || vector == 0x1e
}

/// The decoded outcome of one interrupt: no handler installed (an
/// unrecoverable condition), a plain invocation, or an invocation that
/// carries the pushed error code.
#[derive(Clone, Copy, Debug, PartialEq, Eq, Structural)]
pub enum Invocation {
    Unhandled,
    Plain(u32),
    WithCode(u32, u32),
}

/// Decides how an interrupt on `vector` is delivered, given the entry table
/// and the error code exactly when the vector pushes one: an absent gate
/// is unhandled; a present gate invokes its routine, with the code on
/// error-code vectors and never otherwise.
pub fn dispatch(idt: &Idt, vector: u8, code: Option<u32>) -> (r: Invocation)
    requires
        idt@.len() == 256,
        code.is_some() == pushes_error_code(vector),
    ensures
        ({
            let e = idt@[vector as int];
            &&& !idt_present(e) ==> r == Invocation::Unhandled
            &&& (idt_present(e) && pushes_error_code(vector)) ==> r == Invocation::WithCode(
                entry_offset(e),
                code.unwrap(),
            )
            &&& (idt_present(e) && !pushes_error_code(vector)) ==> r == Invocation::Plain(
                entry_offset(e),
            )
        }),
{
    let entry = idt.entry_at(vector);
    if !entry.is_present() {
        Invocation::Unhandled
    } else {
        match code {
            Some(c) => Invocation::WithCode(entry.offset(), c),
            None => Invocation::Plain(entry.offset()),
        }
    }
}

/// Installing a fault routine on the page-fault vector leaves a present
/// gate holding exactly that routine's address, on a vector that pushes an
/// error code: dispatching it therefore always invokes the routine with
/// the pushed code, never with the argument shape of a code-less vector.
pub proof fn lemma_fault_handler_dispatch(t: Seq<crate::idt::EntryV>, isr: u32)
    requires
        t.len() == 256,
    ensures
        ({
            let t2 = t.update(0xe, gate_entry(isr));
            &&& idt_present(t2[0xe])
            &&& entry_offset(t2[0xe]) == isr
            &&& pushes_error_code(0xe)
        }),
{
    assert(0xeeu8 & 0x80 != 0) by (bit_vector);
    crate::idt::lemma_idt_encode_offset(isr);
}

} // verus!
