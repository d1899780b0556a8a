//! GDT/IDT builders: order independence, failure on missing fields, and
//! the packed register images.

use hhkernel::addr::Physical;
use hhkernel::gdt;
use hhkernel::idt;

#[test]
fn gdt_builder_fails_without_mandatory_fields() {
    assert!(gdt::EntryBuilder::new().try_build().is_none());
    assert!(gdt::EntryBuilder::new().base(0).try_build().is_none());
    assert!(gdt::EntryBuilder::new().base(0).limit(0xfffff).try_build().is_none());
    assert!(
        gdt::EntryBuilder::new()
            .base(0)
            .limit(0xfffff)
            .granularity(gdt::Granularity::Page)
            .present()
            .try_build()
            .is_some()
    );
}

#[test]
fn gdt_builder_order_independent() {
    let a = gdt::EntryBuilder::new()
        .base(0x12345678)
        .limit(0xabcde)
        .granularity(gdt::Granularity::Page)
        .size(32)
        .present()
        .ring(gdt::RingLevel::Ring0)
        .executable()
        .read_write()
        .build();
    let b = gdt::EntryBuilder::new()
        .read_write()
        .executable()
        .ring(gdt::RingLevel::Ring0)
        .present()
        .size(32)
        .granularity(gdt::Granularity::Page)
        .limit(0xabcde)
        .base(0x12345678)
        .build();
    assert_eq!(a, b);
}

#[test]
fn gdt_builder_ring_last_write_wins() {
    let a = gdt::EntryBuilder::new()
        .base(0)
        .limit(0)
        .granularity(gdt::Granularity::Bit)
        .present()
        .ring(gdt::RingLevel::Ring3)
        .ring(gdt::RingLevel::Ring0)
        .build();
    let b = gdt::EntryBuilder::new()
        .base(0)
        .limit(0)
        .granularity(gdt::Granularity::Bit)
        .present()
        .ring(gdt::RingLevel::Ring0)
        .build();
    assert_eq!(a, b);
}

#[test]
fn gdt_table_and_register_image() {
    let mut entries = Vec::new();
    for _ in 0..8 {
        entries.push(gdt::Entry::empty());
    }
    let mut table = gdt::Gdt::with_table(entries, Physical::new(0xe0400000));
    let code = gdt::EntryBuilder::new()
        .base(0)
        .limit(0xfffff)
        .granularity(gdt::Granularity::Page)
        .size(32)
        .present()
        .ring(gdt::RingLevel::Ring0)
        .executable()
        .read_write()
        .build();
    table.new_entry(0x8, code);
    assert_eq!(table.entry_at(0x8), code);
    assert_eq!(table.entry_at(0x10), gdt::Entry::empty());
    let gdtr = table.gdtr();
    assert_eq!(gdtr.limit(), 8 * 8 - 1);
    assert_eq!(gdtr.base(), 0xe0400000);
}

#[test]
fn idt_builder_fails_without_mandatory_fields() {
    assert!(idt::EntryBuilder::new().try_build().is_none());
    assert!(idt::EntryBuilder::new().isr(0x1000).try_build().is_none());
    assert!(idt::EntryBuilder::new().isr(0x1000).selector(8).try_build().is_none());
    assert!(
        idt::EntryBuilder::new().isr(0x1000).selector(8).present().try_build().is_some()
    );
}

#[test]
fn idt_builder_order_independent() {
    let a = idt::EntryBuilder::new()
        .present()
        .isr(0xdeadbeef)
        .selector(8)
        .ring(idt::RingLevel::Ring3)
        .gate(idt::Gate::Interrupt)
        .build();
    let b = idt::EntryBuilder::new()
        .gate(idt::Gate::Interrupt)
        .ring(idt::RingLevel::Ring3)
        .selector(8)
        .isr(0xdeadbeef)
        .present()
        .build();
    assert_eq!(a, b);
    assert!(a.is_present());
    assert_eq!(a.offset(), 0xdeadbeef);
}

#[test]
fn idt_builder_group_last_write_wins() {
    let a = idt::EntryBuilder::new()
        .isr(0)
        .selector(8)
        .present()
        .gate(idt::Gate::Trap)
        .gate(idt::Gate::Interrupt)
        .ring(idt::RingLevel::Ring1)
        .ring(idt::RingLevel::Ring3)
        .build();
    let b = idt::EntryBuilder::new()
        .isr(0)
        .selector(8)
        .present()
        .gate(idt::Gate::Interrupt)
        .ring(idt::RingLevel::Ring3)
        .build();
    assert_eq!(a, b);
}

#[test]
fn idt_nul_gate_is_absent() {
    let entry = idt::EntryBuilder::new().nul().try_build().unwrap();
    assert!(!entry.is_present());
    assert_eq!(entry.offset(), 0);
}

#[test]
fn idt_table_and_register_image() {
    let mut entries = Vec::new();
    for _ in 0..256 {
        entries.push(idt::Entry::empty());
    }
    let mut table = idt::Idt::with_table(entries, Physical::new(0xe0400040));
    table.new_exception_handler(0xe, 0xcafe0000);
    table.new_interrupt_handler(0x21, 0x1234);
    assert!(table.entry_at(0xe).is_present());
    assert_eq!(table.entry_at(0xe).offset(), 0xcafe0000);
    assert!(table.entry_at(0x21).is_present());
    assert!(!table.entry_at(0x40).is_present());
    let idtr = table.idtr();
    assert_eq!(idtr.limit(), 256 * 8 - 1);
    assert_eq!(idtr.base(), 0xe0400040);
}
