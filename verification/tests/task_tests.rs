use amiga_support::host::HostModel;
use amiga_support::task::{create_task, destroy_task, round_stack_size};
use amiga_support::{
    LifecycleError, MEMF_CLEAR, MEMF_PUBLIC, NT_TASK, TASK_MEM_ENTRY_OFFSET, TASK_SIZE,
};

const NAME: u32 = 0x2000;
const ENTRY: u32 = 0x3000;

fn host(version: u16, add_task_ok: bool) -> HostModel {
    HostModel::boot(version, 100_000, 0x1000, 32, 0xC0FFEE, add_task_ok)
}

#[test]
fn stack_size_rounds_to_the_next_multiple_of_four() {
    assert_eq!(round_stack_size(1000), 1000);
    assert_eq!(round_stack_size(1001), 1004);
    assert_eq!(round_stack_size(1002), 1004);
    assert_eq!(round_stack_size(1003), 1004);
    assert_eq!(round_stack_size(1), 4);
}

#[test]
fn requirement_table_holds_control_block_then_rounded_stack() {
    let mut h = host(37, true);
    create_task(&mut h, NAME, 0, ENTRY, 1000).unwrap();
    let reqs: Vec<(u32, u32)> = h
        .last_entry_request
        .iter()
        .map(|r| (r.flags, r.length))
        .collect();
    assert_eq!(
        reqs,
        vec![
            (MEMF_PUBLIC | MEMF_CLEAR, TASK_SIZE),
            (MEMF_CLEAR, 1000),
        ],
        "1000 is already a multiple of four"
    );

    let mut h2 = host(37, true);
    create_task(&mut h2, NAME, 0, ENTRY, 1001).unwrap();
    assert_eq!(
        h2.last_entry_request[1].length, 1004,
        "1001 rounds up to 1004 in the requirement table"
    );
}

#[test]
fn created_task_is_wired_from_its_two_regions() {
    let mut h = host(37, true);
    let before_addr = h.next_addr;
    let t = create_task(&mut h, NAME, 5, ENTRY, 1000).unwrap();
    // region 0 is the control block, right behind the packed table
    assert_eq!(t.addr, before_addr + 16 + 8 * 2);
    assert_eq!(t.node_type, NT_TASK);
    assert_eq!(t.pri, 5);
    assert_eq!(t.name, NAME, "the name reference is taken, not copied");
    // region 1 is the stack; the triple is derived from it
    assert_eq!(t.sp_lower, t.addr + TASK_SIZE);
    assert_eq!(t.sp_upper, t.sp_lower + 1000);
    assert_eq!(t.sp_reg, t.sp_upper, "the stack starts empty and grows downward");
    // the owned-memory list is embedded at its fixed offset and holds the handle
    assert_eq!(t.mem_entry.base, t.addr + TASK_MEM_ENTRY_OFFSET);
    assert_eq!(t.mem_entry.head, before_addr, "the combined handle is the head node");
    assert_eq!(t.mem_entry.tail, 0);
    assert_eq!(t.mem_entry.tail_pred, before_addr);
    // the scheduler took the task
    assert_eq!(h.tasks, vec![t.addr]);
}

#[test]
fn invalid_priority_and_stack_are_rejected_before_allocation() {
    let mut h = host(37, true);
    assert_eq!(
        create_task(&mut h, NAME, 128, ENTRY, 1000).unwrap_err(),
        LifecycleError::InvalidArgument
    );
    assert_eq!(
        create_task(&mut h, NAME, -129, ENTRY, 1000).unwrap_err(),
        LifecycleError::InvalidArgument
    );
    assert_eq!(
        create_task(&mut h, NAME, 0, ENTRY, 0).unwrap_err(),
        LifecycleError::InvalidArgument
    );
    assert_eq!(h.entry_alloc_calls, 0, "no allocation was attempted");
}

#[test]
fn allocation_failure_fails_the_creation_with_nothing_allocated() {
    let mut h = HostModel::boot(37, 100, 0x1000, 32, 0xC0FFEE, true);
    assert_eq!(
        create_task(&mut h, NAME, 0, ENTRY, 1000).unwrap_err(),
        LifecycleError::AllocationFailed
    );
    assert_eq!(h.mem_free, 100);
    assert_eq!(h.tasks.len(), 0);
}

#[test]
fn registration_failure_on_checking_version_rolls_the_block_back() {
    let mut h = host(37, false);
    let handle_addr = h.next_addr;
    let r = create_task(&mut h, NAME, 0, ENTRY, 1000);
    assert_eq!(r.unwrap_err(), LifecycleError::AllocationFailed);
    assert_eq!(h.entry_free_calls, 1, "the combined block was released exactly once");
    assert_eq!(
        h.last_entry_freed,
        Some(handle_addr),
        "released with the exact handle the allocator returned"
    );
    assert_eq!(h.mem_free, 100_000, "nothing stays allocated");
    assert_eq!(h.tasks.len(), 0);
}

#[test]
fn registration_failure_on_old_version_goes_unreported() {
    let mut h = host(36, false);
    let t = create_task(&mut h, NAME, 0, ENTRY, 1000)
        .expect("on old hosts registration reports nothing and the task counts as created");
    assert_eq!(t.node_type, NT_TASK);
    assert_eq!(h.entry_free_calls, 0, "no rollback happens on old hosts");
    assert_eq!(
        h.mem_free,
        100_000 - (16 + 8 * 2 + TASK_SIZE as u64 + 1000),
        "the block leaks by design of the host contract"
    );
}

#[test]
fn destroy_task_withdraws_the_task_from_the_scheduler() {
    let mut h = host(37, true);
    let t = create_task(&mut h, NAME, 0, ENTRY, 1000).unwrap();
    assert_eq!(h.tasks, vec![t.addr]);
    destroy_task(&mut h, &t);
    assert_eq!(h.tasks.len(), 0);
}
