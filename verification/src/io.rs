//! I/O request lifecycle: a message-typed request object tied to a reply
//! port, allocated zero-filled, poisoned on teardown so that use-after-free
//! is detectable, and handed to its device for asynchronous execution.

use vstd::prelude::*;

use crate::IOSTDREQ_SIZE;
use crate::LifecycleError;
use crate::MEMF_CLEAR;
use crate::MEMF_PUBLIC;
use crate::NT_MESSAGE;
use crate::POISON_ADDR;
use crate::POISON_TYPE;
use crate::host::FreedBlock;
use crate::host::HostModel;
use crate::host::config_same;
use crate::host::entry_log_same;
use crate::host::io_same;
use crate::host::mem_log_same;
use crate::host::mem_same;
use crate::host::registry_same;
use crate::host::signals_same;

verus! {

/// An I/O request object: the address of its backing block, the fields of
/// its embedded message header (node type, byte length, reply port), and the
/// device and unit references the device subsystem fills in later.
#[derive(Clone, Copy, Debug, PartialEq, Eq, Structural)]
pub struct IoRequest {
    pub addr: u32,
    pub node_type: u8,
    pub length: u16,
    pub reply_port: u32,
    pub device: u32,
    pub unit: u32,
}

/// The inputs on which a request creation is rejected before any allocation:
/// a null reply port, or a byte length outside `1..=0xFFFF`.
pub open spec fn io_request_invalid(reply_port: u32, size: int) -> bool {
    reply_port == 0 || size <= 0 || size > 0xFFFF
}

/// Allocates and initializes an I/O request of exactly `size` bytes,
/// zero-filled and globally accessible, message-typed and tied to
/// `reply_port`. Invalid input is rejected with no allocation call made;
/// otherwise the request is created exactly when the host pool can satisfy
/// it. The new request is owned by the caller.
pub fn create_io_request(host: &mut HostModel, reply_port: u32, size: i32) -> (r: Result<
    IoRequest,
    LifecycleError,
>)
    requires
        old(host).wf(),
        old(host).counters_within(1),
    ensures
        final(host).wf(),
        io_request_invalid(reply_port, size as int) ==> {
            &&& r == Err::<IoRequest, LifecycleError>(LifecycleError::InvalidArgument)
            &&& crate::host::host_unchanged(*old(host), *final(host))
        },
        !io_request_invalid(reply_port, size as int) ==> {
            &&& final(host).mem_alloc_calls == old(host).mem_alloc_calls + 1
            &&& (r is Ok <==> old(host).can_alloc(size as int))
            &&& (old(host).can_alloc(size as int) ==> {
                &&& r == Ok::<IoRequest, LifecycleError>(IoRequest {
                    addr: old(host).next_addr,
                    node_type: NT_MESSAGE,
                    length: size as u16,
                    reply_port,
                    device: 0,
                    unit: 0,
                })
                &&& final(host).mem_free == old(host).mem_free - size
                &&& final(host).next_addr == old(host).next_addr + size
            })
            &&& (!old(host).can_alloc(size as int) ==> {
                &&& r == Err::<IoRequest, LifecycleError>(LifecycleError::AllocationFailed)
                &&& mem_same(*old(host), *final(host))
            })
            &&& final(host).mem_free_calls == old(host).mem_free_calls
            &&& final(host).last_mem_freed == old(host).last_mem_freed
        },
        config_same(*old(host), *final(host)),
        entry_log_same(*old(host), *final(host)),
        signals_same(*old(host), *final(host)),
        io_same(*old(host), *final(host)),
        registry_same(*old(host), *final(host)),
{
    if reply_port == 0 || size <= 0 || size > 0xFFFF {
        return Err(LifecycleError::InvalidArgument);
    }
    let addr = host.alloc_mem(size as u32, MEMF_CLEAR | MEMF_PUBLIC);
    if addr == 0 {
        return Err(LifecycleError::AllocationFailed);
    }
    Ok(IoRequest {
        addr,
        node_type: NT_MESSAGE,
        length: size as u16,
        reply_port,
        device: 0,
        unit: 0,
    })
}

/// Allocates a standard-sized I/O request tied to `reply_port`: a request of
/// exactly the host's standard request structure size.
pub fn create_std_io(host: &mut HostModel, reply_port: u32) -> (r: Result<
    IoRequest,
    LifecycleError,
>)
    requires
        old(host).wf(),
        old(host).counters_within(1),
    ensures
        final(host).wf(),
        reply_port == 0 ==> {
            &&& r == Err::<IoRequest, LifecycleError>(LifecycleError::InvalidArgument)
            &&& crate::host::host_unchanged(*old(host), *final(host))
        },
        reply_port != 0 ==> {
            &&& final(host).mem_alloc_calls == old(host).mem_alloc_calls + 1
            &&& (r is Ok <==> old(host).can_alloc(IOSTDREQ_SIZE as int))
            &&& (old(host).can_alloc(IOSTDREQ_SIZE as int) ==> {
                &&& r == Ok::<IoRequest, LifecycleError>(IoRequest {
                    addr: old(host).next_addr,
                    node_type: NT_MESSAGE,
                    length: IOSTDREQ_SIZE as u16,
                    reply_port,
                    device: 0,
                    unit: 0,
                })
                &&& final(host).mem_free == old(host).mem_free - IOSTDREQ_SIZE
                &&& final(host).next_addr == old(host).next_addr + IOSTDREQ_SIZE
            })
            &&& (!old(host).can_alloc(IOSTDREQ_SIZE as int) ==> {
                &&& r == Err::<IoRequest, LifecycleError>(LifecycleError::AllocationFailed)
                &&& mem_same(*old(host), *final(host))
            })
        },
        config_same(*old(host), *final(host)),
        entry_log_same(*old(host), *final(host)),
        signals_same(*old(host), *final(host)),
        io_same(*old(host), *final(host)),
        registry_same(*old(host), *final(host)),
{
    create_io_request(host, reply_port, IOSTDREQ_SIZE)
}

/// Tears an I/O request down: a null request is a no-op; otherwise the node
/// type, device and unit fields are overwritten with maximal poison values,
/// then the backing memory is released, sized exactly to the request's
/// recorded message length. The caller must not hand over a request that is
/// still in flight with the device subsystem.
pub fn destroy_io_request(host: &mut HostModel, req: &mut Option<IoRequest>)
    requires
        old(host).wf(),
        old(host).counters_within(1),
    ensures
        final(host).wf(),
        *old(req) is None ==> {
            &&& *final(req) is None
            &&& crate::host::host_unchanged(*old(host), *final(host))
        },
        *old(req) matches Some(q) ==> {
            &&& *final(req) == Some(IoRequest {
                node_type: POISON_TYPE,
                device: POISON_ADDR,
                unit: POISON_ADDR,
                ..q
            })
            &&& final(host).mem_free_calls == old(host).mem_free_calls + 1
            &&& final(host).last_mem_freed == Some(FreedBlock {
                addr: q.addr,
                size: q.length as u32,
            })
            &&& final(host).mem_free == if old(host).mem_free + q.length <= old(host).capacity {
                old(host).mem_free + q.length
            } else {
                old(host).capacity as int
            }
            &&& final(host).next_addr == old(host).next_addr
            &&& final(host).mem_alloc_calls == old(host).mem_alloc_calls
        },
        config_same(*old(host), *final(host)),
        entry_log_same(*old(host), *final(host)),
        signals_same(*old(host), *final(host)),
        io_same(*old(host), *final(host)),
        registry_same(*old(host), *final(host)),
{
    match req {
        None => {},
        Some(q) => {
            q.node_type = POISON_TYPE;
            q.device = POISON_ADDR;
            q.unit = POISON_ADDR;
            let addr = q.addr;
            let length = q.length;
            host.free_mem(addr, length as u32);
        },
    }
}

/// Hands an already-constructed, populated request to the device it targets
/// for asynchronous execution. Returns immediately; completion is signaled
/// later through the request's reply port.
pub fn begin_io(host: &mut HostModel, req: &IoRequest)
    requires
        old(host).wf(),
        old(host).counters_within(1),
    ensures
        final(host).wf(),
        final(host).io_dispatch_calls == old(host).io_dispatch_calls + 1,
        final(host).last_io_dispatched == Some(req.addr),
        config_same(*old(host), *final(host)),
        mem_same(*old(host), *final(host)),
        mem_log_same(*old(host), *final(host)),
        entry_log_same(*old(host), *final(host)),
        signals_same(*old(host), *final(host)),
        registry_same(*old(host), *final(host)),
{
    host.dispatch_io(req.addr);
}

} // verus!
