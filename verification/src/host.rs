//! An explicit model of the host kernel collaborator.
//!
//! Every operation of this layer consumes host primitives: the global memory
//! pool, the signal-bit pool, the scheduler's task registration and the
//! named-port registry. [`HostModel`] carries that host state as an explicit
//! context value, in the shape the lifecycle logic depends on: a deterministic
//! bump allocator over a bounded pool (the host's all-or-nothing guarantee
//! made literal), a bounded signal-bit pool, the two registries, the reported
//! interface version, and a log of the calls made, so a caller can observe
//! which host services were invoked and with what.

use vstd::prelude::*;

use crate::regions::RegionRequest;

verus! {

/// The address and byte size handed to the most recent plain release call.
#[derive(Clone, Copy, Debug, PartialEq, Eq, Structural)]
pub struct FreedBlock {
    pub addr: u32,
    pub size: u32,
}

/// Explicit host kernel context.
///
/// Addresses are nonzero and kept below `0x8000_0000`, so that a returned
/// reference is never null and never carries the combined allocator's
/// high-bit failure sentinel. Allocation never reuses an address; releasing
/// returns bytes to the pool (clipped at the pool's capacity) but hands no
/// address back.
pub struct HostModel {
    /// Interface version the host reports on its library handle.
    pub version: u16,
    /// Total byte capacity of the host memory pool.
    pub capacity: u64,
    /// Bytes currently available in the host memory pool.
    pub mem_free: u64,
    /// Next fresh address the allocator hands out.
    pub next_addr: u32,
    /// Next signal bit index the signal pool hands out.
    pub next_signal: u8,
    /// How many signal bits the pool can still hand out.
    pub signals_avail: u8,
    /// The task reference the host reports as the caller's own task.
    pub current_task: u32,
    /// Whether the scheduler accepts the next task registration.
    pub add_task_ok: bool,
    /// Tasks currently registered with the scheduler.
    pub tasks: Vec<u32>,
    /// Ports currently present in the named-port registry.
    pub named_ports: Vec<u32>,
    /// How many plain allocation calls were made, successful or not.
    pub mem_alloc_calls: u64,
    /// How many plain release calls were made.
    pub mem_free_calls: u64,
    /// How many combined allocation calls were made, successful or not.
    pub entry_alloc_calls: u64,
    /// How many combined release calls were made.
    pub entry_free_calls: u64,
    /// How many signal-bit allocation calls were made, successful or not.
    pub signal_alloc_calls: u64,
    /// How many signal-bit release calls were made.
    pub signal_free_calls: u64,
    /// How many I/O dispatch calls were made.
    pub io_dispatch_calls: u64,
    /// Address and size of the block handed to the most recent plain release call.
    pub last_mem_freed: Option<FreedBlock>,
    /// Handle address given to the most recent combined release call.
    pub last_entry_freed: Option<u32>,
    /// Signal bit given to the most recent signal release call.
    pub last_signal_freed: Option<u8>,
    /// Request given to the most recent I/O dispatch call.
    pub last_io_dispatched: Option<u32>,
    /// The requirement table given to the most recent combined allocation call.
    pub last_entry_request: Vec<RegionRequest>,
}

/// The version, pool capacity, current-task reference and registration switch
/// are the same in both states.
pub open spec fn config_same(a: HostModel, b: HostModel) -> bool {
    &&& b.version == a.version
    &&& b.capacity == a.capacity
    &&& b.current_task == a.current_task
    &&& b.add_task_ok == a.add_task_ok
}

/// The memory pool (available bytes and next fresh address) is the same in
/// both states.
pub open spec fn mem_same(a: HostModel, b: HostModel) -> bool {
    &&& b.mem_free == a.mem_free
    &&& b.next_addr == a.next_addr
}

/// The plain allocate/release call log is the same in both states.
pub open spec fn mem_log_same(a: HostModel, b: HostModel) -> bool {
    &&& b.mem_alloc_calls == a.mem_alloc_calls
    &&& b.mem_free_calls == a.mem_free_calls
    &&& b.last_mem_freed == a.last_mem_freed
}

/// The combined allocate/release call log is the same in both states.
pub open spec fn entry_log_same(a: HostModel, b: HostModel) -> bool {
    &&& b.entry_alloc_calls == a.entry_alloc_calls
    &&& b.entry_free_calls == a.entry_free_calls
    &&& b.last_entry_freed == a.last_entry_freed
    &&& b.last_entry_request@ == a.last_entry_request@
}

/// The signal-bit pool and its call log are the same in both states.
pub open spec fn signals_same(a: HostModel, b: HostModel) -> bool {
    &&& b.next_signal == a.next_signal
    &&& b.signals_avail == a.signals_avail
    &&& b.signal_alloc_calls == a.signal_alloc_calls
    &&& b.signal_free_calls == a.signal_free_calls
    &&& b.last_signal_freed == a.last_signal_freed
}

/// The I/O dispatch log is the same in both states.
pub open spec fn io_same(a: HostModel, b: HostModel) -> bool {
    &&& b.io_dispatch_calls == a.io_dispatch_calls
    &&& b.last_io_dispatched == a.last_io_dispatched
}

/// The scheduler's task list and the named-port registry are the same in
/// both states.
pub open spec fn registry_same(a: HostModel, b: HostModel) -> bool {
    &&& b.tasks@ == a.tasks@
    &&& b.named_ports@ == a.named_ports@
}

/// Nothing observable about the host changed between the two states.
pub open spec fn host_unchanged(a: HostModel, b: HostModel) -> bool {
    &&& config_same(a, b)
    &&& mem_same(a, b)
    &&& mem_log_same(a, b)
    &&& entry_log_same(a, b)
    &&& signals_same(a, b)
    &&& io_same(a, b)
    &&& registry_same(a, b)
}

impl HostModel {
    /// Well-formedness of the host context: the pool never holds more than
    /// its capacity, fresh addresses are nonzero and below the failure-bit
    /// range, and the signal pool never exceeds the host's bit width.
    pub open spec fn wf(self) -> bool {
        &&& self.mem_free <= self.capacity
        &&& 1 <= self.next_addr < 0x8000_0000
        &&& self.next_signal + self.signals_avail <= 32
    }

    /// Every call counter has room for `k` more increments.
    pub open spec fn counters_within(self, k: int) -> bool {
        &&& self.mem_alloc_calls + k <= u64::MAX
        &&& self.mem_free_calls + k <= u64::MAX
        &&& self.entry_alloc_calls + k <= u64::MAX
        &&& self.entry_free_calls + k <= u64::MAX
        &&& self.signal_alloc_calls + k <= u64::MAX
        &&& self.signal_free_calls + k <= u64::MAX
        &&& self.io_dispatch_calls + k <= u64::MAX
    }

    /// The pool can satisfy a request of `size` bytes: enough bytes are
    /// available and the fresh-address range is not exhausted.
    pub open spec fn can_alloc(self, size: int) -> bool {
        &&& size <= self.mem_free
        &&& self.next_addr + size < 0x8000_0000
    }

    /// A host context at boot: an untouched pool and empty registries.
    pub fn boot(
        version: u16,
        capacity: u64,
        base_addr: u32,
        signals_avail: u8,
        current_task: u32,
        add_task_ok: bool,
    ) -> (h: HostModel)
        requires
            1 <= base_addr < 0x8000_0000,
            signals_avail <= 32,
        ensures
            h.wf(),
            h.version == version,
            h.capacity == capacity,
            h.mem_free == capacity,
            h.next_addr == base_addr,
            h.next_signal == 0,
            h.signals_avail == signals_avail,
            h.current_task == current_task,
            h.add_task_ok == add_task_ok,
            h.tasks@ == Seq::<u32>::empty(),
            h.named_ports@ == Seq::<u32>::empty(),
            h.mem_alloc_calls == 0,
            h.mem_free_calls == 0,
            h.entry_alloc_calls == 0,
            h.entry_free_calls == 0,
            h.signal_alloc_calls == 0,
            h.signal_free_calls == 0,
            h.io_dispatch_calls == 0,
            h.last_mem_freed is None,
            h.last_entry_freed is None,
            h.last_signal_freed is None,
            h.last_io_dispatched is None,
            h.last_entry_request@ == Seq::<RegionRequest>::empty(),
    {
        HostModel {
            version,
            capacity,
            mem_free: capacity,
            next_addr: base_addr,
            next_signal: 0,
            signals_avail,
            current_task,
            add_task_ok,
            tasks: Vec::new(),
            named_ports: Vec::new(),
            mem_alloc_calls: 0,
            mem_free_calls: 0,
            entry_alloc_calls: 0,
            entry_free_calls: 0,
            signal_alloc_calls: 0,
            signal_free_calls: 0,
            io_dispatch_calls: 0,
            last_mem_freed: None,
            last_entry_freed: None,
            last_signal_freed: None,
            last_io_dispatched: None,
            last_entry_request: Vec::new(),
        }
    }

    /// Host plain allocation: returns a fresh nonzero address on success and
    /// null exactly when the pool cannot satisfy the request.
    pub fn alloc_mem(&mut self, size: u32, flags: u32) -> (addr: u32)
        requires
            old(self).wf(),
            old(self).counters_within(1),
        ensures
            final(self).wf(),
            (addr != 0) <==> old(self).can_alloc(size as int),
            addr != 0 ==> {
                &&& addr == old(self).next_addr
                &&& final(self).mem_free == old(self).mem_free - size
                &&& final(self).next_addr == old(self).next_addr + size
            },
            addr == 0 ==> mem_same(*old(self), *final(self)),
            final(self).mem_alloc_calls == old(self).mem_alloc_calls + 1,
            final(self).mem_free_calls == old(self).mem_free_calls,
            final(self).last_mem_freed == old(self).last_mem_freed,
            config_same(*old(self), *final(self)),
            entry_log_same(*old(self), *final(self)),
            signals_same(*old(self), *final(self)),
            io_same(*old(self), *final(self)),
            registry_same(*old(self), *final(self)),
    {
        let _ = flags;
        self.mem_alloc_calls = self.mem_alloc_calls + 1;
        if size as u64 <= self.mem_free && size < 0x8000_0000 - self.next_addr {
            let addr = self.next_addr;
            self.mem_free = self.mem_free - size as u64;
            self.next_addr = self.next_addr + size;
            addr
        } else {
            0
        }
    }

    /// Host plain release: logs the released block and returns its bytes to
    /// the pool, clipped at the pool's capacity.
    pub fn free_mem(&mut self, addr: u32, size: u32)
        requires
            old(self).wf(),
            old(self).counters_within(1),
        ensures
            final(self).wf(),
            final(self).mem_free == if old(self).mem_free + size <= old(self).capacity {
                old(self).mem_free + size
            } else {
                old(self).capacity as int
            },
            final(self).next_addr == old(self).next_addr,
            final(self).mem_free_calls == old(self).mem_free_calls + 1,
            final(self).mem_alloc_calls == old(self).mem_alloc_calls,
            final(self).last_mem_freed == Some(FreedBlock { addr, size }),
            config_same(*old(self), *final(self)),
            entry_log_same(*old(self), *final(self)),
            signals_same(*old(self), *final(self)),
            io_same(*old(self), *final(self)),
            registry_same(*old(self), *final(self)),
    {
        self.mem_free_calls = self.mem_free_calls + 1;
        self.last_mem_freed = Some(FreedBlock { addr, size });
        if size as u64 <= self.capacity - self.mem_free {
            self.mem_free = self.mem_free + size as u64;
        } else {
            self.mem_free = self.capacity;
        }
    }

    /// Host signal-bit allocation: hands out the next free bit, or the
    /// failure sentinel `-1` exactly when the pool is exhausted.
    pub fn alloc_signal(&mut self) -> (bit: i32)
        requires
            old(self).wf(),
            old(self).counters_within(1),
        ensures
            final(self).wf(),
            (bit == -1) <==> old(self).signals_avail == 0,
            bit != -1 ==> {
                &&& bit == old(self).next_signal
                &&& 0 <= bit < 32
                &&& final(self).next_signal == old(self).next_signal + 1
                &&& final(self).signals_avail == old(self).signals_avail - 1
            },
            bit == -1 ==> {
                &&& final(self).next_signal == old(self).next_signal
                &&& final(self).signals_avail == old(self).signals_avail
            },
            final(self).signal_alloc_calls == old(self).signal_alloc_calls + 1,
            final(self).signal_free_calls == old(self).signal_free_calls,
            final(self).last_signal_freed == old(self).last_signal_freed,
            config_same(*old(self), *final(self)),
            mem_same(*old(self), *final(self)),
            mem_log_same(*old(self), *final(self)),
            entry_log_same(*old(self), *final(self)),
            io_same(*old(self), *final(self)),
            registry_same(*old(self), *final(self)),
    {
        self.signal_alloc_calls = self.signal_alloc_calls + 1;
        if self.signals_avail == 0 {
            -1
        } else {
            let bit = self.next_signal;
            self.next_signal = self.next_signal + 1;
            self.signals_avail = self.signals_avail - 1;
            bit as i32
        }
    }

    /// Host signal-bit release: logs the released bit. The model pool never
    /// reissues a bit, so availability is not restored.
    pub fn free_signal(&mut self, bit: u8)
        requires
            old(self).wf(),
            old(self).counters_within(1),
        ensures
            final(self).wf(),
            final(self).signal_free_calls == old(self).signal_free_calls + 1,
            final(self).last_signal_freed == Some(bit),
            final(self).signal_alloc_calls == old(self).signal_alloc_calls,
            final(self).next_signal == old(self).next_signal,
            final(self).signals_avail == old(self).signals_avail,
            config_same(*old(self), *final(self)),
            mem_same(*old(self), *final(self)),
            mem_log_same(*old(self), *final(self)),
            entry_log_same(*old(self), *final(self)),
            io_same(*old(self), *final(self)),
            registry_same(*old(self), *final(self)),
    {
        self.signal_free_calls = self.signal_free_calls + 1;
        self.last_signal_freed = Some(bit);
    }

    /// Host scheduler registration: returns the task reference on success.
    /// Whether the call succeeds is the context's `add_task_ok` switch; on
    /// interface versions before `VERSION_CHECKS_REGISTRATION` the returned
    /// value is meaningless to the real host's callers, but the scheduler
    /// still did or did not take the task.
    pub fn add_task(&mut self, task_addr: u32, entry_point: u32) -> (r: u32)
        requires
            old(self).wf(),
            task_addr != 0,
        ensures
            final(self).wf(),
            r == if old(self).add_task_ok {
                task_addr
            } else {
                0u32
            },
            old(self).add_task_ok ==> final(self).tasks@ == old(self).tasks@.push(task_addr),
            !old(self).add_task_ok ==> final(self).tasks@ == old(self).tasks@,
            final(self).named_ports@ == old(self).named_ports@,
            config_same(*old(self), *final(self)),
            mem_same(*old(self), *final(self)),
            mem_log_same(*old(self), *final(self)),
            entry_log_same(*old(self), *final(self)),
            signals_same(*old(self), *final(self)),
            io_same(*old(self), *final(self)),
    {
        let _ = entry_point;
        if self.add_task_ok {
            self.tasks.push(task_addr);
            task_addr
        } else {
            0
        }
    }

    /// Host scheduler deregistration: the task's first registry entry is
    /// withdrawn.
    pub fn rem_task(&mut self, task_addr: u32)
        requires
            old(self).wf(),
            old(self).tasks@.contains(task_addr),
        ensures
            final(self).wf(),
            final(self).tasks@ == old(self).tasks@.remove_value(task_addr),
            final(self).tasks@.len() == old(self).tasks@.len() - 1,
            final(self).named_ports@ == old(self).named_ports@,
            config_same(*old(self), *final(self)),
            mem_same(*old(self), *final(self)),
            mem_log_same(*old(self), *final(self)),
            entry_log_same(*old(self), *final(self)),
            signals_same(*old(self), *final(self)),
            io_same(*old(self), *final(self)),
    {
        let i = find_first(&self.tasks, task_addr);
        self.tasks.remove(i);
        proof {
            old(self).tasks@.index_of_first_ensures(task_addr);
        }
    }

    /// Host named-port registry insertion.
    pub fn add_port(&mut self, port_addr: u32)
        requires
            old(self).wf(),
        ensures
            final(self).wf(),
            final(self).named_ports@ == old(self).named_ports@.push(port_addr),
            final(self).tasks@ == old(self).tasks@,
            config_same(*old(self), *final(self)),
            mem_same(*old(self), *final(self)),
            mem_log_same(*old(self), *final(self)),
            entry_log_same(*old(self), *final(self)),
            signals_same(*old(self), *final(self)),
            io_same(*old(self), *final(self)),
    {
        self.named_ports.push(port_addr);
    }

    /// Host named-port registry withdrawal: the port's first registry entry
    /// is removed.
    pub fn rem_port(&mut self, port_addr: u32)
        requires
            old(self).wf(),
            old(self).named_ports@.contains(port_addr),
        ensures
            final(self).wf(),
            final(self).named_ports@ == old(self).named_ports@.remove_value(port_addr),
            final(self).named_ports@.len() == old(self).named_ports@.len() - 1,
            final(self).tasks@ == old(self).tasks@,
            config_same(*old(self), *final(self)),
            mem_same(*old(self), *final(self)),
            mem_log_same(*old(self), *final(self)),
            entry_log_same(*old(self), *final(self)),
            signals_same(*old(self), *final(self)),
            io_same(*old(self), *final(self)),
    {
        let i = find_first(&self.named_ports, port_addr);
        self.named_ports.remove(i);
        proof {
            old(self).named_ports@.index_of_first_ensures(port_addr);
        }
    }

    /// Host device dispatch: the request is handed to its device's low-level
    /// entry point for asynchronous execution; only the call is observable.
    pub fn dispatch_io(&mut self, req_addr: u32)
        requires
            old(self).wf(),
            old(self).counters_within(1),
        ensures
            final(self).wf(),
            final(self).io_dispatch_calls == old(self).io_dispatch_calls + 1,
            final(self).last_io_dispatched == Some(req_addr),
            config_same(*old(self), *final(self)),
            mem_same(*old(self), *final(self)),
            mem_log_same(*old(self), *final(self)),
            entry_log_same(*old(self), *final(self)),
            signals_same(*old(self), *final(self)),
            registry_same(*old(self), *final(self)),
    {
        self.io_dispatch_calls = self.io_dispatch_calls + 1;
        self.last_io_dispatched = Some(req_addr);
    }
}

/// Index of the first occurrence of `needle` in `v`, which must contain it.
fn find_first(v: &Vec<u32>, needle: u32) -> (i: usize)
    requires
        v@.contains(needle),
    ensures
        0 <= i < v@.len(),
        v@[i as int] == needle,
        v@.index_of_first(needle) == Some(i as int),
{
    let n = v.len();
    let mut i: usize = 0;
    while i < n && v[i] != needle
        invariant
            n == v@.len(),
            i <= n,
            v@.contains(needle),
            forall|j: int| 0 <= j < i ==> v@[j] != needle,
        decreases n - i,
    {
        i = i + 1;
    }
    proof {
        v@.index_of_first_ensures(needle);
        if i == n {
            assert(forall|j: int| 0 <= j < v@.len() ==> v@[j] != needle);
            assert(false);
        }
    }
    i
}

} // verus!
