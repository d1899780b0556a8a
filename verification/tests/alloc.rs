//! Frame and page bitmap allocators.

use hhkernel::addr::{Physical, Virtual};
use hhkernel::entry::Entry;
use hhkernel::frame;
use hhkernel::page;
use hhkernel::table::InactiveTable;

fn empty_entries() -> Vec<Entry> {
    let mut v = Vec::new();
    for _ in 0..1024 {
        v.push(Entry::empty());
    }
    v
}

#[test]
fn frame_allocator_stays_in_range_and_exhausts() {
    // seven whole granules: 0x400000 through 0x1ffffff
    let mut alloc = frame::Allocator::with_range(0x00400000..0x01ffffff);
    assert_eq!(alloc.free(), 7);
    assert_eq!(alloc.used(), 0);

    let mut seen = Vec::new();
    for _ in 0..7 {
        let f = alloc.allocate().expect("a granule of the range");
        let addr = f.addr().into_inner();
        assert!(addr % 0x400000 == 0);
        assert!((0x00400000..0x02000000).contains(&addr));
        assert!(!seen.contains(&addr), "granules must be distinct");
        seen.push(addr);
    }
    assert!(alloc.allocate().is_none(), "the eighth allocation must fail");
    assert_eq!(alloc.free(), 0);
    assert_eq!(alloc.used(), 7);
}

#[test]
fn frame_allocator_hands_out_lowest_first() {
    let mut alloc = frame::Allocator::with_range(0x00800000..0x01000000);
    assert_eq!(alloc.allocate().unwrap().addr().into_inner(), 0x00800000);
    assert_eq!(alloc.allocate().unwrap().addr().into_inner(), 0x00c00000);
    assert_eq!(alloc.allocate().unwrap().addr().into_inner(), 0x01000000);
    assert!(alloc.allocate().is_none());
}

#[test]
fn frame_deallocate_frees_the_granule_again() {
    let mut alloc = frame::Allocator::with_range(0x00400000..0x00ffffff);
    let a = alloc.allocate().unwrap();
    let b = alloc.allocate().unwrap();
    let a_addr = a.addr().into_inner();
    assert_eq!(alloc.free(), 1);
    alloc.deallocate(a);
    assert_eq!(alloc.free(), 2);
    // the freed granule is the lowest free one again
    assert_eq!(alloc.allocate().unwrap().addr().into_inner(), a_addr);
    assert_eq!(b.addr().into_inner(), 0x00800000);
}

#[test]
fn page_allocator_agrees_with_the_table() {
    let mut table = InactiveTable::new(empty_entries(), Physical::new(0x154000));
    table.default_map(Virtual::new(0xe0000000), Physical::new(0));
    let active = table.load();
    let mut alloc = page::Allocator::with_used(&active);
    // mapped: the kernel-base granule and the self-map slot
    assert_eq!(alloc.free(), 1022);
    assert_eq!(alloc.used(), 2);
    // the first free page below the kernel base is page zero
    assert_eq!(alloc.allocate().unwrap().addr().into_inner(), 0);
    // scanning from the kernel base skips the mapped granule
    let p = alloc.allocate_at(Virtual::new(0xe0000000)).unwrap();
    assert_eq!(p.addr().into_inner(), 0xe0400000);
}

#[test]
fn page_allocator_exhausts_after_every_page() {
    let mut table = InactiveTable::new(empty_entries(), Physical::new(0x154000));
    let active = table.load();
    let mut alloc = page::Allocator::with_used(&active);
    let free = alloc.free();
    assert_eq!(free, 1023);
    let mut last = None;
    for _ in 0..free {
        let p = alloc.allocate().expect("a free page");
        let addr = p.addr().into_inner();
        if let Some(prev) = last {
            assert!(addr > prev, "pages come lowest-first, so distinct");
        }
        last = Some(addr);
    }
    assert!(alloc.allocate().is_none());
    assert_eq!(alloc.used(), 1024);
}

#[test]
fn page_deallocate_is_idempotent_on_free_pages() {
    let mut table = InactiveTable::new(empty_entries(), Physical::new(0x154000));
    let active = table.load();
    let mut alloc = page::Allocator::with_used(&active);
    let p = alloc.allocate().unwrap();
    let addr = p.addr().into_inner();
    let free_before = alloc.free();
    alloc.deallocate(p);
    assert_eq!(alloc.free(), free_before + 1);
    // deallocating the already-free granule again changes nothing
    let mut again = page::Allocator::with_used(&active);
    let q = again.allocate().unwrap();
    assert_eq!(q.addr().into_inner(), addr);
    again.deallocate(q);
    let count = again.free();
    let r = again.allocate().unwrap();
    again.deallocate(r);
    assert_eq!(again.free(), count);
}

#[test]
fn pages_iterator_walks_pages() {
    let mut it = page::pages(0..0x00400000);
    assert_eq!(it.next().unwrap().into_inner(), 0);
    assert_eq!(it.next().unwrap().into_inner(), 0x00400000);
    assert!(it.next().is_none());
}
