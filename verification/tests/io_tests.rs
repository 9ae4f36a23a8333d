use amiga_support::host::{FreedBlock, HostModel};
use amiga_support::io::{begin_io, create_io_request, create_std_io, destroy_io_request};
use amiga_support::{LifecycleError, IOSTDREQ_SIZE, NT_MESSAGE, POISON_ADDR, POISON_TYPE};

const PORT: u32 = 0x4000;

fn host() -> HostModel {
    HostModel::boot(37, 100_000, 0x1000, 32, 0xC0FFEE, true)
}

#[test]
fn invalid_requests_are_rejected_without_any_allocation() {
    let mut h = host();
    assert_eq!(
        create_io_request(&mut h, PORT, 0).unwrap_err(),
        LifecycleError::InvalidArgument
    );
    assert_eq!(
        create_io_request(&mut h, PORT, -1).unwrap_err(),
        LifecycleError::InvalidArgument
    );
    assert_eq!(
        create_io_request(&mut h, PORT, 65536).unwrap_err(),
        LifecycleError::InvalidArgument
    );
    assert_eq!(
        create_io_request(&mut h, 0, 10).unwrap_err(),
        LifecycleError::InvalidArgument
    );
    assert_eq!(h.mem_alloc_calls, 0, "zero allocation calls were performed");
    assert_eq!(h.mem_free, 100_000);
}

#[test]
fn created_request_is_message_typed_and_tied_to_the_reply_port() {
    let mut h = host();
    let req = create_io_request(&mut h, PORT, 100).unwrap();
    assert_eq!(req.node_type, NT_MESSAGE);
    assert_eq!(req.length, 100);
    assert_eq!(req.reply_port, PORT);
    assert_eq!(req.device, 0, "the block is zero-filled");
    assert_eq!(req.unit, 0);
    assert_ne!(req.addr, 0);
    assert_eq!(h.mem_free, 100_000 - 100, "sized exactly as requested");
}

#[test]
fn largest_valid_size_is_accepted() {
    let mut h = host();
    let req = create_io_request(&mut h, PORT, 65535).unwrap();
    assert_eq!(req.length, 65535);
}

#[test]
fn exhausted_pool_reports_allocation_failure() {
    let mut h = HostModel::boot(37, 50, 0x1000, 32, 0xC0FFEE, true);
    assert_eq!(
        create_io_request(&mut h, PORT, 100).unwrap_err(),
        LifecycleError::AllocationFailed
    );
    assert_eq!(h.mem_alloc_calls, 1, "the host allocator was consulted");
    assert_eq!(h.mem_free, 50, "nothing stays allocated");
}

#[test]
fn destroyed_request_is_poisoned_before_release() {
    let mut h = host();
    let req = create_io_request(&mut h, PORT, 100).unwrap();
    let addr = req.addr;
    let mut slot = Some(req);
    destroy_io_request(&mut h, &mut slot);
    let carcass = slot.unwrap();
    assert_eq!(carcass.node_type, POISON_TYPE, "node type is poisoned");
    assert_eq!(carcass.device, POISON_ADDR, "device reference is poisoned");
    assert_eq!(carcass.unit, POISON_ADDR, "unit reference is poisoned");
    assert_eq!(
        h.last_mem_freed,
        Some(FreedBlock { addr, size: 100 }),
        "released with the recorded message length"
    );
    assert_eq!(h.mem_free_calls, 1);
    assert_eq!(h.mem_free, 100_000, "the backing memory went back to the host");
}

#[test]
fn destroying_a_null_request_is_a_no_op() {
    let mut h = host();
    let mut slot: Option<amiga_support::io::IoRequest> = None;
    destroy_io_request(&mut h, &mut slot);
    assert!(slot.is_none());
    assert_eq!(h.mem_free_calls, 0);
}

#[test]
fn std_request_has_the_standard_size() {
    let mut h = host();
    let req = create_std_io(&mut h, PORT).unwrap();
    assert_eq!(req.length as i32, IOSTDREQ_SIZE);
    assert_eq!(req.node_type, NT_MESSAGE);
    assert_eq!(
        create_std_io(&mut h, 0).unwrap_err(),
        LifecycleError::InvalidArgument
    );
}

#[test]
fn begin_io_hands_the_request_to_its_device() {
    let mut h = host();
    let req = create_io_request(&mut h, PORT, 32).unwrap();
    begin_io(&mut h, &req);
    assert_eq!(h.io_dispatch_calls, 1);
    assert_eq!(h.last_io_dispatched, Some(req.addr));
}
