//! Task lifecycle: constructing a new execution unit (control block plus
//! dedicated stack) out of one combined allocation, wiring its stack-pointer
//! triple and its owned-memory tracking list, registering it with the host
//! scheduler, and rolling the allocation back on registration failure -- but
//! only from the host interface version that reports such failure. On older
//! versions registration gives no failure indicator, the task counts as
//! created and the block leaks by design of the host contract.

use vstd::prelude::*;

use crate::LifecycleError;
use crate::MEMF_CLEAR;
use crate::MEMF_PUBLIC;
use crate::NT_TASK;
use crate::TASK_MEM_ENTRY_OFFSET;
use crate::TASK_SIZE;
use crate::VERSION_CHECKS_REGISTRATION;
use crate::host::HostModel;
use crate::host::config_same;
use crate::host::host_unchanged;
use crate::host::io_same;
use crate::host::mem_log_same;
use crate::host::mem_same;
use crate::host::signals_same;
use crate::list::ListHeader;
use crate::list::add_head;
use crate::list::initialize_list;
use crate::regions::RegionRequest;
use crate::regions::allocate_regions;
use crate::regions::combined_charge;
use crate::regions::lemma_resolved_matches;
use crate::regions::lemma_total_length_step;
use crate::regions::region_addr;
use crate::regions::release_regions;
use crate::regions::table_bytes;
use crate::regions::total_length;

verus! {

/// A task control block: its address, its node header fields, the
/// stack-pointer triple derived from the stack region, and the embedded
/// owned-memory tracking list header.
#[derive(Clone, Copy, Debug, PartialEq, Eq, Structural)]
pub struct Task {
    pub addr: u32,
    pub node_type: u8,
    pub pri: i8,
    pub name: u32,
    pub sp_lower: u32,
    pub sp_upper: u32,
    pub sp_reg: u32,
    pub mem_entry: ListHeader,
}

/// `stack_size` rounded up to the next multiple of four.
pub open spec fn round_up_stack(stack_size: int) -> int {
    ((stack_size + 3) / 4) * 4
}

/// The inputs a task creation rejects before any allocation: a priority
/// outside the host's signed-byte range, a zero stack, or a stack so large
/// that rounding it would leave the unsigned range.
pub open spec fn task_invalid(pri: int, stack_size: int) -> bool {
    pri < -128 || pri > 127 || stack_size == 0 || stack_size > 0xFFFF_FFFC
}

/// The two-entry region requirement table of one task creation: the control
/// block first (zeroed, globally accessible), the rounded stack second
/// (zeroed), in that fixed order because the result table preserves it.
pub open spec fn task_regions(rounded: u32) -> Seq<RegionRequest> {
    seq![
        RegionRequest { flags: MEMF_PUBLIC | MEMF_CLEAR, length: TASK_SIZE },
        RegionRequest { flags: MEMF_CLEAR, length: rounded },
    ]
}

/// The task a creation builds when its combined block lands at `table`: the
/// control block is the first region, the stack the second; the stack
/// pointer starts at the upper bound (the stack grows downward, empty); the
/// owned-memory list is initialized at its embedded offset and holds the
/// combined-allocation handle as its head node.
pub open spec fn built_task(table: u32, name: u32, pri: i8, rounded: u32) -> Task {
    Task {
        addr: (table + table_bytes(2)) as u32,
        node_type: NT_TASK,
        pri: pri,
        name: name,
        sp_lower: (table + table_bytes(2) + TASK_SIZE) as u32,
        sp_upper: (table + table_bytes(2) + TASK_SIZE + rounded) as u32,
        sp_reg: (table + table_bytes(2) + TASK_SIZE + rounded) as u32,
        mem_entry: ListHeader {
            base: (table + table_bytes(2) + TASK_MEM_ENTRY_OFFSET) as u32,
            head: table,
            tail: 0,
            tail_pred: table,
        },
    }
}

/// Spells out the sums behind a two-entry requirement table.
proof fn lemma_two_regions(reqs: Seq<RegionRequest>)
    requires
        reqs.len() == 2,
    ensures
        total_length(reqs.take(0)) == 0,
        total_length(reqs.take(1)) == reqs[0].length,
        total_length(reqs) == reqs[0].length + reqs[1].length,
        combined_charge(reqs) == table_bytes(2) + reqs[0].length + reqs[1].length,
{
    assert(reqs.take(0) =~= Seq::<RegionRequest>::empty());
    lemma_total_length_step(reqs, 0);
    lemma_total_length_step(reqs, 1);
    assert(reqs.take(2) =~= reqs);
}

/// Rounds a requested stack size up to the next multiple of four.
pub fn round_stack_size(stack_size: u32) -> (r: u32)
    requires
        stack_size <= 0xFFFF_FFFC,
    ensures
        r == round_up_stack(stack_size as int),
        r % 4 == 0,
        stack_size <= r < stack_size + 4,
{
    let rem = stack_size % 4;
    if rem == 0 {
        stack_size
    } else {
        stack_size + (4 - rem)
    }
}

/// Creates a new execution unit in one logical step.
///
/// The stack size is rounded up to a multiple of four; one combined
/// allocation provides the control block and the stack; the stack-pointer
/// triple is derived from the stack region; the owned-memory list is
/// bootstrapped and takes the combined handle at its head; the task is
/// registered with the host scheduler. If the host reports interface version
/// `VERSION_CHECKS_REGISTRATION` or later and registration failed, the whole
/// combined block is released and the creation fails; on older versions
/// registration reports nothing and the task counts as created regardless.
/// On success the new task is owned by the host scheduler.
pub fn create_task(
    host: &mut HostModel,
    name: u32,
    pri: i32,
    entry_point: u32,
    stack_size: u32,
) -> (r: Result<Task, LifecycleError>)
    requires
        old(host).wf(),
        old(host).counters_within(2),
    ensures
        final(host).wf(),
        task_invalid(pri as int, stack_size as int) ==> {
            &&& r == Err::<Task, LifecycleError>(LifecycleError::InvalidArgument)
            &&& host_unchanged(*old(host), *final(host))
        },
        !task_invalid(pri as int, stack_size as int) ==> ({
            let rounded = round_up_stack(stack_size as int) as u32;
            let charge = table_bytes(2) + TASK_SIZE + rounded;
            let table = old(host).next_addr;
            &&& final(host).entry_alloc_calls == old(host).entry_alloc_calls + 1
            &&& final(host).last_entry_request@ == task_regions(rounded)
            &&& (r is Ok <==> (old(host).can_alloc(charge) && (old(host).add_task_ok || old(
                host,
            ).version < VERSION_CHECKS_REGISTRATION)))
            &&& (!old(host).can_alloc(charge) ==> {
                &&& r == Err::<Task, LifecycleError>(LifecycleError::AllocationFailed)
                &&& mem_same(*old(host), *final(host))
                &&& final(host).tasks@ == old(host).tasks@
                &&& final(host).entry_free_calls == old(host).entry_free_calls
                &&& final(host).last_entry_freed == old(host).last_entry_freed
            })
            &&& (old(host).can_alloc(charge) ==> {
                &&& final(host).next_addr == table + charge
                &&& (old(host).add_task_ok ==> {
                    &&& r == Ok::<Task, LifecycleError>(built_task(table, name, pri as i8, rounded))
                    &&& final(host).tasks@ == old(host).tasks@.push(
                        (table + table_bytes(2)) as u32,
                    )
                    &&& final(host).mem_free == old(host).mem_free - charge
                    &&& final(host).entry_free_calls == old(host).entry_free_calls
                    &&& final(host).last_entry_freed == old(host).last_entry_freed
                })
                &&& (!old(host).add_task_ok && old(host).version >= VERSION_CHECKS_REGISTRATION
                    ==> {
                    &&& r == Err::<Task, LifecycleError>(LifecycleError::AllocationFailed)
                    &&& final(host).tasks@ == old(host).tasks@
                    &&& final(host).entry_free_calls == old(host).entry_free_calls + 1
                    &&& final(host).last_entry_freed == Some(table)
                    &&& final(host).mem_free == old(host).mem_free
                })
                &&& (!old(host).add_task_ok && old(host).version < VERSION_CHECKS_REGISTRATION
                    ==> {
                    &&& r == Ok::<Task, LifecycleError>(built_task(table, name, pri as i8, rounded))
                    &&& final(host).tasks@ == old(host).tasks@
                    &&& final(host).mem_free == old(host).mem_free - charge
                    &&& final(host).entry_free_calls == old(host).entry_free_calls
                })
            })
            &&& final(host).named_ports@ == old(host).named_ports@
        }),
        config_same(*old(host), *final(host)),
        signals_same(*old(host), *final(host)),
        io_same(*old(host), *final(host)),
        mem_log_same(*old(host), *final(host)),
{
    if pri < -128 || pri > 127 || stack_size == 0 || stack_size > 0xFFFF_FFFC {
        return Err(LifecycleError::InvalidArgument);
    }
    let rounded = round_stack_size(stack_size);
    let mut reqs: Vec<RegionRequest> = Vec::new();
    reqs.push(RegionRequest { flags: MEMF_PUBLIC | MEMF_CLEAR, length: TASK_SIZE });
    reqs.push(RegionRequest { flags: MEMF_CLEAR, length: rounded });
    proof {
        assert(reqs@ =~= task_regions(rounded));
        lemma_two_regions(reqs@);
    }
    let ghost table = host.next_addr;
    let handle = match allocate_regions(host, &reqs) {
        Err(_) => {
            return Err(LifecycleError::AllocationFailed);
        },
        Ok(h) => h,
    };
    proof {
        assert(reqs@.take(0) =~= Seq::<RegionRequest>::empty());
        assert(reqs@.take(1) =~= seq![reqs@[0]]);
        lemma_two_regions(seq![reqs@[0]].push(reqs@[1]));
        assert(region_addr(table as int, reqs@, 0) == table + table_bytes(2));
        assert(region_addr(table as int, reqs@, 1) == table + table_bytes(2) + TASK_SIZE);
    }
    let t_addr = handle.region(0).addr;
    let s_addr = handle.region(1).addr;
    let mut task = Task {
        addr: t_addr,
        node_type: NT_TASK,
        pri: pri as i8,
        name: name,
        sp_lower: s_addr,
        sp_upper: s_addr + rounded,
        sp_reg: s_addr + rounded,
        mem_entry: ListHeader {
            base: t_addr + TASK_MEM_ENTRY_OFFSET,
            head: 0,
            tail: 0,
            tail_pred: 0,
        },
    };
    initialize_list(&mut task.mem_entry);
    add_head(&mut task.mem_entry, handle.addr);
    let reg = host.add_task(task.addr, entry_point);
    if host.version >= VERSION_CHECKS_REGISTRATION {
        if reg == 0 {
            proof {
                lemma_resolved_matches(handle.regions@, reqs@);
            }
            release_regions(host, handle);
            return Err(LifecycleError::AllocationFailed);
        }
    }
    Ok(task)
}

/// Requests that the host scheduler terminate and reclaim a task it is
/// scheduling. The task's memory is the scheduler's to reclaim per its own
/// contract; this layer frees nothing itself.
pub fn destroy_task(host: &mut HostModel, task: &Task)
    requires
        old(host).wf(),
        old(host).tasks@.contains(task.addr),
    ensures
        final(host).wf(),
        final(host).tasks@ == old(host).tasks@.remove_value(task.addr),
        final(host).tasks@.len() == old(host).tasks@.len() - 1,
        final(host).named_ports@ == old(host).named_ports@,
        config_same(*old(host), *final(host)),
        mem_same(*old(host), *final(host)),
        mem_log_same(*old(host), *final(host)),
        crate::host::entry_log_same(*old(host), *final(host)),
        signals_same(*old(host), *final(host)),
        io_same(*old(host), *final(host)),
{
    host.rem_task(task.addr);
}

} // verus!
