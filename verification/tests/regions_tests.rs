use amiga_support::host::HostModel;
use amiga_support::regions::{allocate_regions, release_regions, RegionRequest};
use amiga_support::{LifecycleError, MEMF_CLEAR, MEMF_PUBLIC};

fn host(capacity: u64) -> HostModel {
    HostModel::boot(37, capacity, 0x1000, 32, 0xC0FFEE, true)
}

#[test]
fn combined_allocation_resolves_every_region_in_order() {
    let mut h = host(100_000);
    let reqs = vec![
        RegionRequest { flags: MEMF_PUBLIC | MEMF_CLEAR, length: 92 },
        RegionRequest { flags: MEMF_CLEAR, length: 1000 },
        RegionRequest { flags: MEMF_PUBLIC, length: 16 },
    ];
    let handle = allocate_regions(&mut h, &reqs).unwrap();
    assert_eq!(handle.count(), 3);
    for (i, req) in reqs.iter().enumerate() {
        let r = handle.region(i);
        assert_eq!(r.length, req.length, "each region satisfies its requested length");
        assert_eq!(r.flags, req.flags, "each region carries its requested flags");
        assert_ne!(r.addr, 0);
    }
    // zero-initialization was requested for the first two regions
    assert_ne!(handle.region(0).flags & MEMF_CLEAR, 0);
    assert_ne!(handle.region(1).flags & MEMF_CLEAR, 0);
    // regions are disjoint: packed back to back behind the table
    assert_eq!(handle.region(0).addr, handle.addr + 16 + 8 * 3);
    assert_eq!(handle.region(1).addr, handle.region(0).addr + 92);
    assert_eq!(handle.region(2).addr, handle.region(1).addr + 1000);
    // the whole block was charged in one piece: table plus payload
    assert_eq!(h.mem_free, 100_000 - (16 + 8 * 3 + 92 + 1000 + 16));
}

#[test]
fn failed_combined_allocation_leaves_no_observable_allocation() {
    let mut h = host(500);
    let before_free = h.mem_free;
    let before_addr = h.next_addr;
    let reqs = vec![
        RegionRequest { flags: MEMF_CLEAR, length: 400 },
        RegionRequest { flags: MEMF_CLEAR, length: 400 },
    ];
    let r = allocate_regions(&mut h, &reqs);
    assert_eq!(r.unwrap_err(), LifecycleError::AllocationFailed);
    assert_eq!(h.mem_free, before_free, "all-or-nothing: nothing stays allocated");
    assert_eq!(h.next_addr, before_addr);
    assert_eq!(h.entry_free_calls, 0);
    assert_eq!(h.entry_alloc_calls, 1, "the host was asked exactly once");
}

#[test]
fn release_returns_the_whole_block() {
    let mut h = host(10_000);
    let reqs = vec![RegionRequest { flags: MEMF_CLEAR, length: 100 }];
    let handle = allocate_regions(&mut h, &reqs).unwrap();
    let handle_addr = handle.addr;
    assert_eq!(h.mem_free, 10_000 - (16 + 8 + 100));
    release_regions(&mut h, handle);
    assert_eq!(h.mem_free, 10_000, "the block is given back in one call");
    assert_eq!(h.entry_free_calls, 1);
    assert_eq!(h.last_entry_freed, Some(handle_addr));
}
