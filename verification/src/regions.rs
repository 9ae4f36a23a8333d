//! The combined allocator adapter.
//!
//! A caller hands over an ordered, non-empty table of (requirement-flags,
//! byte-length) region requests; one host call satisfies all of them at once
//! or none at all. The host returns a single block holding a leading table
//! header followed by one packed descriptor per region, and signals failure
//! by setting the high bit of the returned reference. The whole block,
//! including the table itself, is owned by the caller and released with one
//! paired call.

use vstd::prelude::*;

use crate::LifecycleError;
use crate::host::HostModel;
use crate::host::config_same;
use crate::host::entry_log_same;
use crate::host::io_same;
use crate::host::mem_log_same;
use crate::host::mem_same;
use crate::host::registry_same;
use crate::host::signals_same;

verus! {

/// Byte size of the combined block's leading table header (node header plus
/// entry count).
pub const ENTRY_TABLE_HEADER: u32 = 16;

/// Byte size of one packed region descriptor in the combined block's table.
pub const ENTRY_DESCRIPTOR_SIZE: u32 = 8;

/// The most entries one combined request can carry: the table's entry count
/// is a 16-bit field.
pub const MAX_ENTRIES: usize = 0xFFFF;

/// The high bit of a combined allocation result: set exactly when the whole
/// request failed.
pub const ENTRY_FAIL_BIT: u32 = 0x8000_0000;

/// One region requirement: flags the region must satisfy and its byte length.
#[derive(Clone, Copy, Debug, PartialEq, Eq, Structural)]
pub struct RegionRequest {
    pub flags: u32,
    pub length: u32,
}

/// One resolved region of a successful combined allocation: its start
/// address, together with the length and flags it was requested with.
#[derive(Clone, Copy, Debug, PartialEq, Eq, Structural)]
pub struct ResolvedRegion {
    pub addr: u32,
    pub length: u32,
    pub flags: u32,
}

/// An owning handle to one combined allocation: the address of the block
/// (which is also what the paired release call takes) and its resolved
/// regions, in request order.
#[derive(Debug)]
pub struct RegionHandle {
    pub addr: u32,
    pub regions: Vec<ResolvedRegion>,
}

/// What the host's combined allocation call hands back: the raw reference
/// (with `ENTRY_FAIL_BIT` set on failure) and, on success, the resolved
/// regions in request order.
pub struct EntryResult {
    pub raw: u32,
    pub regions: Vec<ResolvedRegion>,
}

/// Sum of the requested byte lengths of a requirement table.
pub open spec fn total_length(reqs: Seq<RegionRequest>) -> int
    decreases reqs.len(),
{
    if reqs.len() == 0 {
        0
    } else {
        total_length(reqs.drop_last()) + reqs.last().length
    }
}

/// Bytes the packed table itself occupies for `n` entries.
pub open spec fn table_bytes(n: int) -> int {
    ENTRY_TABLE_HEADER + ENTRY_DESCRIPTOR_SIZE * n
}

/// Bytes one combined allocation takes from the host pool: the packed table
/// followed by every requested region.
pub open spec fn combined_charge(reqs: Seq<RegionRequest>) -> int {
    table_bytes(reqs.len() as int) + total_length(reqs)
}

/// Start address of region `i` of a combined block at `table`: the regions
/// follow the packed table in request order, back to back.
pub open spec fn region_addr(table: int, reqs: Seq<RegionRequest>, i: int) -> int {
    table + table_bytes(reqs.len() as int) + total_length(reqs.take(i))
}

/// Sum of the lengths recorded in a handle's resolved regions.
pub open spec fn resolved_length(regions: Seq<ResolvedRegion>) -> int
    decreases regions.len(),
{
    if regions.len() == 0 {
        0
    } else {
        resolved_length(regions.drop_last()) + regions.last().length
    }
}

/// Bytes the combined block behind a handle occupies, as the paired release
/// call computes them from the handle itself.
pub open spec fn handle_charge(h: RegionHandle) -> int {
    table_bytes(h.regions@.len() as int) + resolved_length(h.regions@)
}

/// One more entry of the table adds exactly its length to the prefix sum.
pub proof fn lemma_total_length_step(reqs: Seq<RegionRequest>, i: int)
    requires
        0 <= i < reqs.len(),
    ensures
        total_length(reqs.take(i + 1)) == total_length(reqs.take(i)) + reqs[i].length,
{
    assert(reqs.take(i + 1).drop_last() =~= reqs.take(i));
    assert(reqs.take(i + 1).last() == reqs[i]);
}

/// A prefix of the table never sums to more than the whole table.
pub proof fn lemma_total_length_prefix(reqs: Seq<RegionRequest>, i: int)
    requires
        0 <= i <= reqs.len(),
    ensures
        total_length(reqs.take(i)) <= total_length(reqs),
    decreases reqs.len() - i,
{
    if i == reqs.len() {
        assert(reqs.take(i) =~= reqs);
    } else {
        lemma_total_length_step(reqs, i);
        lemma_total_length_prefix(reqs, i + 1);
    }
}

/// Regions resolved with the requested lengths occupy exactly the requested
/// bytes.
pub proof fn lemma_resolved_matches(regions: Seq<ResolvedRegion>, reqs: Seq<RegionRequest>)
    requires
        regions.len() == reqs.len(),
        forall|i: int| 0 <= i < reqs.len() ==> #[trigger] regions[i].length == reqs[i].length,
    ensures
        resolved_length(regions) == total_length(reqs),
    decreases reqs.len(),
{
    if reqs.len() > 0 {
        lemma_resolved_matches(regions.drop_last(), reqs.drop_last());
    }
}

impl RegionHandle {
    /// How many regions the combined allocation resolved.
    pub fn count(&self) -> (n: usize)
        ensures
            n == self.regions@.len(),
    {
        self.regions.len()
    }

    /// The one accessor for positional indexing into the packed result
    /// table: region `i`, in request order.
    pub fn region(&self, i: usize) -> (r: &ResolvedRegion)
        requires
            i < self.regions@.len(),
        ensures
            *r == self.regions@[i as int],
    {
        &self.regions[i]
    }
}

impl HostModel {
    /// Host combined allocation. Either every region of the requirement
    /// table is satisfied, in request order, out of one block charged to the
    /// pool in one piece -- or the high failure bit is set on the returned
    /// reference and the pool is untouched: all-or-nothing.
    pub fn alloc_entry(&mut self, reqs: &Vec<RegionRequest>) -> (r: EntryResult)
        requires
            old(self).wf(),
            old(self).counters_within(1),
            0 < reqs@.len() <= MAX_ENTRIES,
            forall|i: int| 0 <= i < reqs@.len() ==> (#[trigger] reqs@[i]).length > 0,
        ensures
            final(self).wf(),
            (r.raw & ENTRY_FAIL_BIT == 0) <==> old(self).can_alloc(combined_charge(reqs@)),
            old(self).can_alloc(combined_charge(reqs@)) ==> {
                &&& r.raw == old(self).next_addr
                &&& r.regions@.len() == reqs@.len()
                &&& forall|i: int|
                    0 <= i < reqs@.len() ==> (#[trigger] r.regions@[i]) == (ResolvedRegion {
                        addr: region_addr(old(self).next_addr as int, reqs@, i) as u32,
                        length: reqs@[i].length,
                        flags: reqs@[i].flags,
                    })
                &&& final(self).mem_free == old(self).mem_free - combined_charge(reqs@)
                &&& final(self).next_addr == old(self).next_addr + combined_charge(reqs@)
            },
            !old(self).can_alloc(combined_charge(reqs@)) ==> {
                &&& r.raw == ENTRY_FAIL_BIT
                &&& r.regions@.len() == 0
                &&& mem_same(*old(self), *final(self))
            },
            final(self).entry_alloc_calls == old(self).entry_alloc_calls + 1,
            final(self).entry_free_calls == old(self).entry_free_calls,
            final(self).last_entry_freed == old(self).last_entry_freed,
            final(self).last_entry_request@ == reqs@,
            config_same(*old(self), *final(self)),
            mem_log_same(*old(self), *final(self)),
            signals_same(*old(self), *final(self)),
            io_same(*old(self), *final(self)),
            registry_same(*old(self), *final(self)),
    {
        let n = reqs.len();
        let mut payload: u64 = 0;
        let mut log: Vec<RegionRequest> = Vec::new();
        let mut i: usize = 0;
        while i < n
            invariant
                i <= n,
                n == reqs@.len(),
                n <= MAX_ENTRIES,
                payload == total_length(reqs@.take(i as int)),
                payload <= i * 0xFFFF_FFFF,
                log@ == reqs@.take(i as int),
            decreases n - i,
        {
            proof {
                lemma_total_length_step(reqs@, i as int);
                assert(reqs@.take(i as int).push(reqs@[i as int]) =~= reqs@.take(i + 1));
            }
            payload = payload + reqs[i].length as u64;
            log.push(reqs[i]);
            i = i + 1;
        }
        proof {
            assert(reqs@.take(n as int) =~= reqs@);
        }
        self.entry_alloc_calls = self.entry_alloc_calls + 1;
        self.last_entry_request = log;
        let charge: u64 = ENTRY_TABLE_HEADER as u64 + ENTRY_DESCRIPTOR_SIZE as u64 * n as u64
            + payload;
        if !(charge <= self.mem_free && self.next_addr as u64 + charge < 0x8000_0000) {
            proof {
                assert(0x8000_0000u32 & 0x8000_0000u32 == 0x8000_0000u32) by (bit_vector);
            }
            return EntryResult { raw: ENTRY_FAIL_BIT, regions: Vec::new() };
        }
        let table = self.next_addr;
        let mut cur: u32 = table + ENTRY_TABLE_HEADER + ENTRY_DESCRIPTOR_SIZE * (n as u32);
        let mut regions: Vec<ResolvedRegion> = Vec::new();
        let mut j: usize = 0;
        while j < n
            invariant
                j <= n,
                n == reqs@.len(),
                n <= MAX_ENTRIES,
                charge == combined_charge(reqs@),
                table as int + charge < 0x8000_0000,
                cur == region_addr(table as int, reqs@, j as int),
                regions@.len() == j,
                forall|k: int|
                    0 <= k < j ==> (#[trigger] regions@[k]) == (ResolvedRegion {
                        addr: region_addr(table as int, reqs@, k) as u32,
                        length: reqs@[k].length,
                        flags: reqs@[k].flags,
                    }),
            decreases n - j,
        {
            proof {
                lemma_total_length_step(reqs@, j as int);
                lemma_total_length_prefix(reqs@, j + 1);
            }
            regions.push(ResolvedRegion { addr: cur, length: reqs[j].length, flags: reqs[j].flags });
            cur = cur + reqs[j].length;
            j = j + 1;
        }
        self.mem_free = self.mem_free - charge;
        self.next_addr = self.next_addr + charge as u32;
        proof {
            let t = table;
            assert(t & 0x8000_0000u32 == 0) by (bit_vector)
                requires
                    t < 0x8000_0000u32,
            ;
        }
        EntryResult { raw: table, regions }
    }

    /// Host combined release: the whole block behind the handle address is
    /// given back to the pool in one call, clipped at the pool's capacity.
    pub fn free_entry(&mut self, handle_addr: u32, bytes: u64)
        requires
            old(self).wf(),
            old(self).counters_within(1),
        ensures
            final(self).wf(),
            final(self).mem_free == if old(self).mem_free + bytes <= old(self).capacity {
                old(self).mem_free + bytes
            } else {
                old(self).capacity as int
            },
            final(self).next_addr == old(self).next_addr,
            final(self).entry_free_calls == old(self).entry_free_calls + 1,
            final(self).entry_alloc_calls == old(self).entry_alloc_calls,
            final(self).last_entry_freed == Some(handle_addr),
            final(self).last_entry_request@ == old(self).last_entry_request@,
            config_same(*old(self), *final(self)),
            mem_log_same(*old(self), *final(self)),
            signals_same(*old(self), *final(self)),
            io_same(*old(self), *final(self)),
            registry_same(*old(self), *final(self)),
    {
        self.entry_free_calls = self.entry_free_calls + 1;
        self.last_entry_freed = Some(handle_addr);
        if bytes <= self.capacity - self.mem_free {
            self.mem_free = self.mem_free + bytes;
        } else {
            self.mem_free = self.capacity;
        }
    }
}

/// Satisfies every entry of a non-empty requirement table out of one host
/// call, or fails as a whole. On success the returned handle owns the block;
/// each resolved region starts at a fresh nonzero address and carries the
/// length and flags it was requested with, in request order. On failure
/// nothing stays allocated.
pub fn allocate_regions(host: &mut HostModel, reqs: &Vec<RegionRequest>) -> (r: Result<
    RegionHandle,
    LifecycleError,
>)
    requires
        old(host).wf(),
        old(host).counters_within(1),
        0 < reqs@.len() <= MAX_ENTRIES,
        forall|i: int| 0 <= i < reqs@.len() ==> (#[trigger] reqs@[i]).length > 0,
    ensures
        final(host).wf(),
        r is Ok <==> old(host).can_alloc(combined_charge(reqs@)),
        r matches Ok(h) ==> {
            &&& h.addr == old(host).next_addr
            &&& h.regions@.len() == reqs@.len()
            &&& forall|i: int|
                0 <= i < reqs@.len() ==> (#[trigger] h.regions@[i]) == (ResolvedRegion {
                    addr: region_addr(old(host).next_addr as int, reqs@, i) as u32,
                    length: reqs@[i].length,
                    flags: reqs@[i].flags,
                })
            &&& final(host).mem_free == old(host).mem_free - combined_charge(reqs@)
            &&& final(host).next_addr == old(host).next_addr + combined_charge(reqs@)
        },
        r is Err ==> {
            &&& r == Err::<RegionHandle, LifecycleError>(LifecycleError::AllocationFailed)
            &&& mem_same(*old(host), *final(host))
        },
        final(host).entry_alloc_calls == old(host).entry_alloc_calls + 1,
        final(host).entry_free_calls == old(host).entry_free_calls,
        final(host).last_entry_freed == old(host).last_entry_freed,
        final(host).last_entry_request@ == reqs@,
        config_same(*old(host), *final(host)),
        mem_log_same(*old(host), *final(host)),
        signals_same(*old(host), *final(host)),
        io_same(*old(host), *final(host)),
        registry_same(*old(host), *final(host)),
{
    let result = host.alloc_entry(reqs);
    proof {
        let x = result.raw;
        assert(x & 0x8000_0000u32 == 0 || x & 0x8000_0000u32 == 0x8000_0000u32) by (bit_vector);
    }
    if result.raw & ENTRY_FAIL_BIT == ENTRY_FAIL_BIT {
        Err(LifecycleError::AllocationFailed)
    } else {
        Ok(RegionHandle { addr: result.raw, regions: result.regions })
    }
}

/// Releases the entire combined block behind the handle in one host call;
/// every region address captured from the handle is invalid afterwards.
pub fn release_regions(host: &mut HostModel, handle: RegionHandle)
    requires
        old(host).wf(),
        old(host).counters_within(1),
        handle.regions@.len() <= MAX_ENTRIES,
    ensures
        final(host).wf(),
        final(host).mem_free == if old(host).mem_free + handle_charge(handle)
            <= old(host).capacity {
            old(host).mem_free + handle_charge(handle)
        } else {
            old(host).capacity as int
        },
        final(host).next_addr == old(host).next_addr,
        final(host).entry_free_calls == old(host).entry_free_calls + 1,
        final(host).entry_alloc_calls == old(host).entry_alloc_calls,
        final(host).last_entry_freed == Some(handle.addr),
        final(host).last_entry_request@ == old(host).last_entry_request@,
        config_same(*old(host), *final(host)),
        mem_log_same(*old(host), *final(host)),
        signals_same(*old(host), *final(host)),
        io_same(*old(host), *final(host)),
        registry_same(*old(host), *final(host)),
{
    let n = handle.regions.len();
    let mut payload: u64 = 0;
    let mut i: usize = 0;
    while i < n
        invariant
            i <= n,
            n == handle.regions@.len(),
            n <= MAX_ENTRIES,
            payload == resolved_length(handle.regions@.take(i as int)),
            payload <= i * 0xFFFF_FFFF,
        decreases n - i,
    {
        proof {
            assert(handle.regions@.take(i + 1).drop_last() =~= handle.regions@.take(i as int));
            assert(handle.regions@.take(i + 1).last() == handle.regions@[i as int]);
        }
        payload = payload + handle.regions[i].length as u64;
        i = i + 1;
    }
    proof {
        assert(handle.regions@.take(n as int) =~= handle.regions@);
    }
    let bytes: u64 = ENTRY_TABLE_HEADER as u64 + ENTRY_DESCRIPTOR_SIZE as u64 * n as u64 + payload;
    host.free_entry(handle.addr, bytes);
}

} // verus!
