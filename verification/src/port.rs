//! Message port lifecycle: construction of a fully wired port (signal bit,
//! owning task, named-registry insertion or self-initialized message list,
//! with rollback of the signal bit if the port memory cannot be had), and
//! teardown (named-registry withdrawal, poisoning, signal and memory
//! release).

use vstd::prelude::*;

use crate::LifecycleError;
use crate::MEMF_CLEAR;
use crate::MEMF_PUBLIC;
use crate::MSGPORT_MSG_LIST_OFFSET;
use crate::MSGPORT_SIZE;
use crate::NT_MSGPORT;
use crate::PA_SIGNAL;
use crate::POISON_ADDR;
use crate::POISON_TYPE;
use crate::host::FreedBlock;
use crate::host::HostModel;
use crate::host::config_same;
use crate::host::entry_log_same;
use crate::host::host_unchanged;
use crate::host::io_same;
use crate::host::mem_same;
use crate::list::LIST_TAIL_OFFSET;
use crate::list::ListHeader;
use crate::list::initialize_list;

verus! {

/// A message port: its address, node header fields (name reference and
/// priority), its signalling setup (flags, allocated signal bit, owning
/// task) and its embedded message list header.
#[derive(Clone, Copy, Debug, PartialEq, Eq, Structural)]
pub struct MsgPort {
    pub addr: u32,
    pub name: u32,
    pub pri: i8,
    pub node_type: u8,
    pub flags: u8,
    pub sig_bit: u8,
    pub sig_task: u32,
    pub msg_list: ListHeader,
}

/// The port a creation builds at `addr`. An anonymous port gets its message
/// list self-initialized to the empty-list state; a named port goes into the
/// host registry instead and its message list stays as the zero-fill left it.
pub open spec fn built_port(addr: u32, name: u32, pri: i8, sig_bit: u8, sig_task: u32) -> MsgPort {
    MsgPort {
        addr,
        name,
        pri,
        node_type: NT_MSGPORT,
        flags: PA_SIGNAL,
        sig_bit,
        sig_task,
        msg_list: if name == 0 {
            ListHeader {
                base: (addr + MSGPORT_MSG_LIST_OFFSET) as u32,
                head: (addr + MSGPORT_MSG_LIST_OFFSET + LIST_TAIL_OFFSET) as u32,
                tail: 0,
                tail_pred: (addr + MSGPORT_MSG_LIST_OFFSET) as u32,
            }
        } else {
            ListHeader { base: (addr + MSGPORT_MSG_LIST_OFFSET) as u32, head: 0, tail: 0, tail_pred: 0 }
        },
    }
}

/// Constructs a fully wired message port owned by the calling task.
///
/// A signal bit is allocated first; then the port memory, zero-filled and
/// globally accessible. If the memory cannot be had, the signal bit is
/// rolled back and the creation fails. The port is signal-driven, owned by
/// the host's current task; a named port is inserted into the host's
/// named-port registry, an anonymous one gets its message list bootstrapped
/// in place. An out-of-range priority is rejected before anything is
/// acquired.
pub fn create_port(host: &mut HostModel, name: u32, pri: i32) -> (r: Result<
    MsgPort,
    LifecycleError,
>)
    requires
        old(host).wf(),
        old(host).counters_within(2),
    ensures
        final(host).wf(),
        (pri < -128 || pri > 127) ==> {
            &&& r == Err::<MsgPort, LifecycleError>(LifecycleError::InvalidArgument)
            &&& host_unchanged(*old(host), *final(host))
        },
        !(pri < -128 || pri > 127) ==> {
            &&& final(host).signal_alloc_calls == old(host).signal_alloc_calls + 1
            &&& (r is Ok <==> (old(host).signals_avail > 0 && old(host).can_alloc(
                MSGPORT_SIZE as int,
            )))
            &&& (old(host).signals_avail == 0 ==> {
                &&& r == Err::<MsgPort, LifecycleError>(LifecycleError::AllocationFailed)
                &&& final(host).next_signal == old(host).next_signal
                &&& final(host).signals_avail == old(host).signals_avail
                &&& final(host).signal_free_calls == old(host).signal_free_calls
                &&& mem_same(*old(host), *final(host))
                &&& final(host).mem_alloc_calls == old(host).mem_alloc_calls
                &&& final(host).named_ports@ == old(host).named_ports@
            })
            &&& (old(host).signals_avail > 0 ==> {
                &&& final(host).mem_alloc_calls == old(host).mem_alloc_calls + 1
                &&& final(host).next_signal == old(host).next_signal + 1
                &&& final(host).signals_avail == old(host).signals_avail - 1
                &&& (!old(host).can_alloc(MSGPORT_SIZE as int) ==> {
                    &&& r == Err::<MsgPort, LifecycleError>(LifecycleError::AllocationFailed)
                    &&& final(host).signal_free_calls == old(host).signal_free_calls + 1
                    &&& final(host).last_signal_freed == Some(old(host).next_signal)
                    &&& mem_same(*old(host), *final(host))
                    &&& final(host).named_ports@ == old(host).named_ports@
                })
                &&& (old(host).can_alloc(MSGPORT_SIZE as int) ==> {
                    &&& r == Ok::<MsgPort, LifecycleError>(built_port(
                        old(host).next_addr,
                        name,
                        pri as i8,
                        old(host).next_signal,
                        old(host).current_task,
                    ))
                    &&& final(host).mem_free == old(host).mem_free - MSGPORT_SIZE
                    &&& final(host).next_addr == old(host).next_addr + MSGPORT_SIZE
                    &&& final(host).signal_free_calls == old(host).signal_free_calls
                    &&& final(host).named_ports@ == if name != 0 {
                        old(host).named_ports@.push(old(host).next_addr)
                    } else {
                        old(host).named_ports@
                    }
                })
            })
            &&& final(host).mem_free_calls == old(host).mem_free_calls
            &&& final(host).last_mem_freed == old(host).last_mem_freed
            &&& final(host).tasks@ == old(host).tasks@
        },
        config_same(*old(host), *final(host)),
        entry_log_same(*old(host), *final(host)),
        io_same(*old(host), *final(host)),
{
    if pri < -128 || pri > 127 {
        return Err(LifecycleError::InvalidArgument);
    }
    let sig_bit = host.alloc_signal();
    if sig_bit == -1 {
        return Err(LifecycleError::AllocationFailed);
    }
    let addr = host.alloc_mem(MSGPORT_SIZE, MEMF_CLEAR | MEMF_PUBLIC);
    if addr == 0 {
        host.free_signal(sig_bit as u8);
        return Err(LifecycleError::AllocationFailed);
    }
    let mut port = MsgPort {
        addr,
        name,
        pri: pri as i8,
        node_type: NT_MSGPORT,
        flags: PA_SIGNAL,
        sig_bit: sig_bit as u8,
        sig_task: host.current_task,
        msg_list: ListHeader {
            base: addr + MSGPORT_MSG_LIST_OFFSET,
            head: 0,
            tail: 0,
            tail_pred: 0,
        },
    };
    if name != 0 {
        host.add_port(addr);
    } else {
        initialize_list(&mut port.msg_list);
    }
    Ok(port)
}

/// Tears a message port down: a named port is first withdrawn from the
/// host's named-port registry; the node type and the message list head are
/// poisoned to make use-after-free detectable; the port's signal bit and its
/// backing memory are returned to the host.
pub fn delete_port(host: &mut HostModel, port: &mut MsgPort)
    requires
        old(host).wf(),
        old(host).counters_within(2),
        old(port).name != 0 ==> old(host).named_ports@.contains(old(port).addr),
    ensures
        final(host).wf(),
        *final(port) == (MsgPort {
            node_type: POISON_TYPE,
            msg_list: ListHeader { head: POISON_ADDR, ..old(port).msg_list },
            ..*old(port)
        }),
        final(host).named_ports@ == if old(port).name != 0 {
            old(host).named_ports@.remove_value(old(port).addr)
        } else {
            old(host).named_ports@
        },
        final(host).named_ports@.len() == if old(port).name != 0 {
            old(host).named_ports@.len() - 1
        } else {
            old(host).named_ports@.len() as int
        },
        final(host).tasks@ == old(host).tasks@,
        final(host).signal_free_calls == old(host).signal_free_calls + 1,
        final(host).last_signal_freed == Some(old(port).sig_bit),
        final(host).signal_alloc_calls == old(host).signal_alloc_calls,
        final(host).next_signal == old(host).next_signal,
        final(host).signals_avail == old(host).signals_avail,
        final(host).mem_free_calls == old(host).mem_free_calls + 1,
        final(host).last_mem_freed == Some(FreedBlock { addr: old(port).addr, size: MSGPORT_SIZE }),
        final(host).mem_alloc_calls == old(host).mem_alloc_calls,
        final(host).mem_free == if old(host).mem_free + MSGPORT_SIZE <= old(host).capacity {
            old(host).mem_free + MSGPORT_SIZE
        } else {
            old(host).capacity as int
        },
        final(host).next_addr == old(host).next_addr,
        config_same(*old(host), *final(host)),
        entry_log_same(*old(host), *final(host)),
        io_same(*old(host), *final(host)),
{
    if port.name != 0 {
        host.rem_port(port.addr);
    }
    port.node_type = POISON_TYPE;
    port.msg_list.head = POISON_ADDR;
    host.free_signal(port.sig_bit);
    host.free_mem(port.addr, MSGPORT_SIZE);
}

} // verus!
