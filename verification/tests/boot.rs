//! The boot computation end to end: memory bounds, the boot page table,
//! the heap commit, and the failure cases.

use hhkernel::addr::{Physical, Virtual};
use hhkernel::boot::{
    build_gdt, build_idt, init_paging, kinit, memory_bounds, BootError, BootInfo, Handlers,
    MemArea,
};
use hhkernel::gdt;
use hhkernel::interrupt::{dispatch, Invocation};

fn handlers() -> Handlers {
    Handlers {
        de: 0x1000,
        db: 0x1100,
        ni: 0x1200,
        bp: 0x1300,
        of: 0x1400,
        br: 0x1500,
        ud: 0x1600,
        nm: 0x1700,
        df: 0x1800,
        ts: 0x1900,
        np: 0x1a00,
        ss: 0x1b00,
        gp: 0x1c00,
        pf: 0x1d00,
        mf: 0x1e00,
        ac: 0x1f00,
        mc: 0x2000,
        xm: 0x2100,
        ve: 0x2200,
        sx: 0x2300,
        keyboard: 0x2400,
        syscall: 0x2500,
    }
}

fn synthetic_boot_info() -> BootInfo {
    BootInfo {
        areas: vec![MemArea { start: 0x100000, end: 0x2000000 }],
        sections: vec![0xe0100000, 0xe0140000],
    }
}

#[test]
fn bounds_of_the_synthetic_map() {
    let boot = synthetic_boot_info();
    let b = memory_bounds(0xe0152000, &boot).unwrap();
    assert_eq!(b.min, 0x400000);
    assert_eq!(b.max, 0x1ffffff);
    assert_eq!(b.size, 0x1c00000);
}

#[test]
fn bounds_of_an_empty_map() {
    let boot = BootInfo { areas: vec![], sections: vec![] };
    assert!(memory_bounds(0xe0152000, &boot).is_none());
}

#[test]
fn bounds_with_nothing_past_the_kernel() {
    // the map ends before one whole granule fits above the kernel image
    let boot = BootInfo {
        areas: vec![MemArea { start: 0x100000, end: 0x500000 }],
        sections: vec![],
    };
    assert!(memory_bounds(0xe0152000, &boot).is_none());
}

#[test]
fn boot_table_mappings() {
    let table = init_paging(Physical::new(0x152000));
    // the identity mapping of low memory is dropped after the jump
    assert!(!table.is_used(Virtual::new(0)));
    // the higher-half alias and the self-map stay
    assert!(table.is_used(Virtual::new(0xe0000000)));
    assert!(table.is_used(Virtual::new(0xffc00000)));
}

#[test]
fn boot_sequence_commits_the_heap() {
    let table = init_paging(Physical::new(0x152000));
    let boot = synthetic_boot_info();
    let kernel = kinit(table, &boot, 0xe0100000, 0xe0152000, &handlers(), 0xb8, 0x8e)
        .expect("the synthetic map boots");

    // the heap window sits right above the usable range's start, two
    // granules long, and free memory is what the heap left over
    assert_eq!(kernel.kinfo.kernel_start, 0xe0100000);
    assert_eq!(kernel.kinfo.kernel_end, 0xe0152000);
    assert_eq!(kernel.kinfo.heap_start, 0xe0400000);
    assert_eq!(kernel.kinfo.heap_end, 0xe0c00000);
    assert_eq!(kernel.kinfo.heap_size(), 0x800000);
    assert_eq!(kernel.kinfo.kernel_size(), 0x52000);
    assert_eq!(kernel.kinfo.free_memory, 0x1400000);

    // exactly heap_size >> 22 granules are committed
    assert_eq!(kernel.frames.used(), 2);
    assert_eq!(kernel.frames.free(), 5);
    assert!(kernel.table.is_used(Virtual::new(0xe0400000)));
    assert!(kernel.table.is_used(Virtual::new(0xe0800000)));
    assert!(!kernel.table.is_used(Virtual::new(0xe0c00000)));
    // the page allocator counts the boot mappings plus the heap window
    assert_eq!(kernel.pages.used(), 4);

    // descriptor tables live at the start of the heap
    let gdtr = kernel.gdt.gdtr();
    assert_eq!(gdtr.base(), 0xe0400000);
    assert_eq!(gdtr.limit(), 63);
    let idtr = kernel.idt.idtr();
    assert_eq!(idtr.base(), 0xe0400040);
    assert_eq!(idtr.limit(), 2047);
    assert!(kernel.idt.entry_at(0xe).is_present());
    assert_eq!(kernel.idt.entry_at(0xe).offset(), 0x1d00);

    // controller masks: everything masked, then the keyboard line cleared
    assert_eq!(kernel.master.mask(), 0xfd);
    assert_eq!(kernel.slave.mask(), 0xff);
    let master_log = kernel.master.sent_log();
    assert_eq!(
        master_log.as_slice(),
        &[
            (0x20, 0x11),
            (0x21, 0x20),
            (0x21, 0b0100),
            (0x21, 1),
            (0x20, 0x20),
            (0x21, 0xb8),
            (0x21, 0xff),
            (0x21, 0xfd),
        ]
    );
    let slave_log = kernel.slave.sent_log();
    assert_eq!(
        slave_log.as_slice(),
        &[(0xa0, 0x11), (0xa1, 0x28), (0xa1, 0b0010), (0xa1, 1), (0xa0, 0x20), (0xa1, 0x8e), (0xa1, 0xff)]
    );
}

#[test]
fn boot_fails_without_usable_memory() {
    let table = init_paging(Physical::new(0x152000));
    let boot = BootInfo { areas: vec![], sections: vec![] };
    let r = kinit(table, &boot, 0xe0100000, 0xe0152000, &handlers(), 0xff, 0xff);
    assert_eq!(r.err().unwrap(), BootError::NoUsableMemory);
}

#[test]
fn boot_fails_when_the_heap_window_is_taken() {
    let mut table = init_paging(Physical::new(0x152000));
    // occupy the granule the heap would claim
    table.default_map(Virtual::new(0xe0400000), Physical::new(0x400000));
    let boot = synthetic_boot_info();
    let r = kinit(table, &boot, 0xe0100000, 0xe0152000, &handlers(), 0xff, 0xff);
    assert_eq!(r.err().unwrap(), BootError::HeapUnavailable);
}

#[test]
fn boot_fails_without_room_for_the_heap() {
    let table = init_paging(Physical::new(0x152000));
    // one whole granule of usable memory: not enough for the two-granule heap
    let boot = BootInfo {
        areas: vec![MemArea { start: 0x100000, end: 0x900000 }],
        sections: vec![],
    };
    let r = kinit(table, &boot, 0xe0100000, 0xe0152000, &handlers(), 0xff, 0xff);
    assert_eq!(r.err().unwrap(), BootError::OutOfFrames);
}

#[test]
fn boot_gdt_entries() {
    let table = build_gdt(Physical::new(0xe0400000));
    let code = gdt::EntryBuilder::new()
        .base(0)
        .limit(0xfffff)
        .granularity(gdt::Granularity::Page)
        .size(32)
        .present()
        .ring(gdt::RingLevel::Ring0)
        .executable()
        .read_write()
        .build();
    let data = gdt::EntryBuilder::new()
        .base(0)
        .limit(0xfffff)
        .granularity(gdt::Granularity::Page)
        .size(32)
        .present()
        .ring(gdt::RingLevel::Ring0)
        .read_write()
        .build();
    assert_eq!(table.entry_at(0), gdt::Entry::empty());
    assert_eq!(table.entry_at(0x8), code);
    assert_eq!(table.entry_at(0x10), data);
    assert_eq!(table.entry_at(0x18), gdt::Entry::empty());
}

#[test]
fn boot_idt_binds_every_fault_vector() {
    let h = handlers();
    let table = build_idt(Physical::new(0xe0400040), &h);
    assert_eq!(table.entry_at(0x0).offset(), 0x1000);
    assert!(table.entry_at(0x0).is_present());
    assert_eq!(table.entry_at(0x8).offset(), 0x1800);
    assert_eq!(table.entry_at(0xe).offset(), 0x1d00);
    assert_eq!(table.entry_at(0x1e).offset(), 0x2300);
    assert_eq!(table.entry_at(0x21).offset(), 0x2400);
    assert_eq!(table.entry_at(0x80).offset(), 0x2500);
    assert!(!table.entry_at(0x9).is_present());
    assert!(!table.entry_at(0x22).is_present());
    // the page-fault vector dispatches with its error code, never without
    let r = dispatch(&table, 0xe, Some(0xdead));
    assert_eq!(r, Invocation::WithCode(0x1d00, 0xdead));
    let r = dispatch(&table, 0x21, None);
    assert_eq!(r, Invocation::Plain(0x2400));
    let r = dispatch(&table, 0x40, None);
    assert_eq!(r, Invocation::Unhandled);
}
