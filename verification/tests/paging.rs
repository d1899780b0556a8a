//! Page-directory entry codec and table state machine.

use hhkernel::addr::{Physical, Virtual};
use hhkernel::entry::{Entry, EntryBuilder, PageSize};
use hhkernel::frame::frames;
use hhkernel::table::InactiveTable;

fn empty_entries() -> Vec<Entry> {
    let mut v = Vec::new();
    for _ in 0..1024 {
        v.push(Entry::empty());
    }
    v
}

#[test]
fn entry_round_trip_aligned() {
    let addr = Physical::new(0x00c00000);
    let entry = EntryBuilder::new()
        .addr(addr)
        .present()
        .read_write()
        .page_size(PageSize::Huge)
        .build();
    assert_eq!(entry.into_physical().into_inner(), 0x00c00000);
    assert!(entry.is_used());
}

#[test]
fn entry_round_trip_top_granule() {
    let entry = EntryBuilder::new().addr(Physical::new(0xffc00000)).present().build();
    assert_eq!(entry.into_physical().into_inner(), 0xffc00000);
}

#[test]
fn entry_unaligned_fails_construction() {
    let r = EntryBuilder::new().addr(Physical::new(0x00123456)).present().try_build();
    assert!(r.is_none());
}

#[test]
fn entry_builder_missing_fields() {
    assert!(EntryBuilder::new().try_build().is_none());
    assert!(EntryBuilder::new().addr(Physical::new(0)).try_build().is_none());
    assert!(EntryBuilder::new().present().try_build().is_none());
    assert!(EntryBuilder::new().addr(Physical::new(0)).present().try_build().is_some());
}

#[test]
fn entry_nul_is_not_present() {
    let entry = EntryBuilder::new().nul().try_build().unwrap();
    assert!(!entry.is_used());
    assert_eq!(entry.into_physical().into_inner(), 0);
}

#[test]
fn entry_empty() {
    let entry = Entry::empty();
    assert!(!entry.is_used());
    assert_eq!(entry.into_physical().into_inner(), 0);
}

#[test]
fn map_then_is_used_then_unmap() {
    let mut table = InactiveTable::new(empty_entries(), Physical::new(0x154000));
    let v = Virtual::new(0xe0000000);
    assert!(!table.is_used(v));
    let old = table.default_map(v, Physical::new(0x00400000));
    assert!(old.is_none());
    assert!(table.is_used(v));
    // remapping an occupied slot hands the previous entry back
    let old = table.default_map(v, Physical::new(0x00800000));
    assert!(old.is_some());
    assert_eq!(old.unwrap().into_physical().into_inner(), 0x00400000);
    // unmapping clears the present bit
    let old = table.unmap(v);
    assert!(old.is_some());
    assert!(!table.is_used(v));
    assert!(table.unmap(v).is_none());
}

#[test]
fn map_is_per_slot() {
    let mut table = InactiveTable::new(empty_entries(), Physical::new(0x154000));
    table.default_map(Virtual::new(0x00400000), Physical::new(0x00400000));
    assert!(table.is_used(Virtual::new(0x00400000)));
    // same granule, different offset: same slot
    assert!(table.is_used(Virtual::new(0x00412345)));
    // neighbouring granules untouched
    assert!(!table.is_used(Virtual::new(0)));
    assert!(!table.is_used(Virtual::new(0x00800000)));
}

#[test]
fn load_writes_self_map() {
    let mut table = InactiveTable::new(empty_entries(), Physical::new(0x154000));
    table.default_map(Virtual::new(0), Physical::new(0));
    let active = table.load();
    assert!(active.is_used(Virtual::new(0xffc00000)));
    assert!(active.is_used(Virtual::new(0)));
}

#[test]
fn switch_preserves_self_map_and_remaps_old() {
    // boot table at 0x154000, identity-mapped low memory
    let mut boot = InactiveTable::new(empty_entries(), Physical::new(0x154000));
    boot.default_map(Virtual::new(0), Physical::new(0));
    let active = boot.load();

    // candidate table addressable at 0x2000000; the live table knows the
    // granule of that address through its own entries
    let mut active = active;
    active.default_map(Virtual::new(0x02000000), Physical::new(0x02000000));
    let mut candidate = InactiveTable::new(empty_entries(), Physical::new(0x02000000));
    candidate.default_map(Virtual::new(0xe0000000), Physical::new(0));

    let (new_active, old_inactive) = candidate.switch(active, Virtual::new(0x00400000));
    // the new live table still reaches itself and carries its mappings
    assert!(new_active.is_used(Virtual::new(0xffc00000)));
    assert!(new_active.is_used(Virtual::new(0xe0000000)));
    // the old table's backing memory is mapped at the caller's address
    assert!(new_active.is_used(Virtual::new(0x00400000)));
    // the old table becomes the inactive one, entries intact
    assert!(old_inactive.is_used(Virtual::new(0)));
    assert!(old_inactive.is_used(Virtual::new(0xffc00000)));
}

#[test]
fn frames_iterator_walks_granules() {
    let mut it = frames(0x00400000..0x00c00000);
    assert_eq!(it.next().unwrap().into_inner(), 0x00400000);
    assert_eq!(it.next().unwrap().into_inner(), 0x00800000);
    assert_eq!(it.next().unwrap().into_inner(), 0x00c00000);
    assert!(it.next().is_none());
}
