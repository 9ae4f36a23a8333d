use amiga_support::host::{FreedBlock, HostModel};
use amiga_support::port::{create_port, delete_port};
use amiga_support::{
    LifecycleError, MSGPORT_MSG_LIST_OFFSET, MSGPORT_SIZE, NT_MSGPORT, PA_SIGNAL, POISON_ADDR,
    POISON_TYPE,
};

const NAME: u32 = 0x5000;

fn host() -> HostModel {
    HostModel::boot(37, 100_000, 0x1000, 32, 0xC0FFEE, true)
}

#[test]
fn anonymous_port_gets_a_self_initialized_message_list() {
    let mut h = host();
    let p = create_port(&mut h, 0, 3).unwrap();
    assert_eq!(p.node_type, NT_MSGPORT);
    assert_eq!(p.flags, PA_SIGNAL);
    assert_eq!(p.pri, 3);
    assert_eq!(p.sig_task, 0xC0FFEE, "owned by the host's current task");
    assert!(p.sig_bit < 32);
    let list_base = p.addr + MSGPORT_MSG_LIST_OFFSET;
    assert_eq!(p.msg_list.base, list_base);
    assert_eq!(p.msg_list.head, list_base + 4);
    assert_eq!(p.msg_list.tail, 0);
    assert_eq!(p.msg_list.tail_pred, list_base);
    assert!(h.named_ports.is_empty(), "anonymous ports stay out of the registry");
}

#[test]
fn named_port_goes_into_the_registry() {
    let mut h = host();
    let p = create_port(&mut h, NAME, 0).unwrap();
    assert_eq!(p.name, NAME);
    assert_eq!(h.named_ports, vec![p.addr]);
    // the zero-filled message list was left as is; the registry linkage rules
    assert_eq!(p.msg_list.head, 0);
}

#[test]
fn out_of_range_priority_is_rejected_before_anything_is_acquired() {
    let mut h = host();
    assert_eq!(
        create_port(&mut h, NAME, 1000).unwrap_err(),
        LifecycleError::InvalidArgument
    );
    assert_eq!(h.signal_alloc_calls, 0);
    assert_eq!(h.mem_alloc_calls, 0);
}

#[test]
fn exhausted_signal_pool_fails_the_creation() {
    let mut h = HostModel::boot(37, 100_000, 0x1000, 0, 0xC0FFEE, true);
    assert_eq!(
        create_port(&mut h, NAME, 0).unwrap_err(),
        LifecycleError::AllocationFailed
    );
    assert_eq!(h.mem_alloc_calls, 0, "no memory is touched without a signal bit");
}

#[test]
fn memory_failure_rolls_the_signal_bit_back() {
    let mut h = HostModel::boot(37, 10, 0x1000, 32, 0xC0FFEE, true);
    let bit = h.next_signal;
    assert_eq!(
        create_port(&mut h, NAME, 0).unwrap_err(),
        LifecycleError::AllocationFailed
    );
    assert_eq!(h.signal_free_calls, 1, "the allocated bit is released again");
    assert_eq!(h.last_signal_freed, Some(bit));
    assert_eq!(h.mem_free, 10);
}

#[test]
fn deleted_named_port_is_unregistered_poisoned_and_released() {
    let mut h = host();
    let mut p = create_port(&mut h, NAME, 0).unwrap();
    let addr = p.addr;
    let bit = p.sig_bit;
    delete_port(&mut h, &mut p);
    assert!(h.named_ports.is_empty(), "withdrawn from the named-port registry");
    assert_eq!(p.node_type, POISON_TYPE);
    assert_eq!(p.msg_list.head, POISON_ADDR);
    assert_eq!(h.signal_free_calls, 1);
    assert_eq!(h.last_signal_freed, Some(bit));
    assert_eq!(h.last_mem_freed, Some(FreedBlock { addr, size: MSGPORT_SIZE }));
    assert_eq!(h.mem_free, 100_000);
}

#[test]
fn deleted_anonymous_port_skips_the_registry() {
    let mut h = host();
    let mut p = create_port(&mut h, 0, 0).unwrap();
    delete_port(&mut h, &mut p);
    assert_eq!(p.node_type, POISON_TYPE);
    assert_eq!(h.mem_free_calls, 1);
    assert!(h.named_ports.is_empty());
}
