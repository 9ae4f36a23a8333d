//! Resource lifecycle management for a cooperative, single-address-space,
//! list-based host kernel: intrusive list bootstrapping, combined multi-region
//! allocation, I/O request lifecycle, message port lifecycle, and task
//! lifecycle with version-gated rollback.
//!
//! The host kernel itself (its allocator, its scheduler, its named-port
//! registry and its signal-bit pool) is an external collaborator. Following
//! the host's own convention, it is passed around as an explicit context
//! value, [`host::HostModel`], whose contracts state exactly what each host
//! call does to that context, so that both outcomes of every host decision
//! (allocation success or exhaustion, registration success or failure, old or
//! new interface version) can be exercised deterministically.

use vstd::prelude::*;

pub mod host;
pub mod io;
pub mod list;
pub mod port;
pub mod regions;
pub mod task;

verus! {

/// Node type tag of a task control block.
pub const NT_TASK: u8 = 1;

/// Node type tag of a message port.
pub const NT_MSGPORT: u8 = 4;

/// Node type tag of a message, including the message embedded in an I/O request.
pub const NT_MESSAGE: u8 = 5;

/// Poison value written over a node type tag on teardown, distinguishable from
/// every valid node type, so that use-after-free is detectable.
pub const POISON_TYPE: u8 = 0xFF;

/// Poison value written over an address-valued field on teardown.
pub const POISON_ADDR: u32 = 0xFFFF_FFFF;

/// Memory requirement flag: the region must be accessible to every execution context.
pub const MEMF_PUBLIC: u32 = 0x1;

/// Memory requirement flag: the region is handed back zero-initialized.
pub const MEMF_CLEAR: u32 = 0x1_0000;

/// Port flag: arrival of a message raises the port's allocated signal bit.
pub const PA_SIGNAL: u8 = 0;

/// Byte size of the host's task control block structure.
pub const TASK_SIZE: u32 = 92;

/// Byte offset of the owned-memory tracking list header inside a task control block.
pub const TASK_MEM_ENTRY_OFFSET: u32 = 74;

/// Byte size of the host's message port structure.
pub const MSGPORT_SIZE: u32 = 34;

/// Byte offset of the embedded message list header inside a message port.
pub const MSGPORT_MSG_LIST_OFFSET: u32 = 20;

/// Byte size of the host's standard I/O request structure.
pub const IOSTDREQ_SIZE: i32 = 48;

/// Host interface version from which the task registration call reports failure.
pub const VERSION_CHECKS_REGISTRATION: u16 = 37;

/// The only two failure kinds this layer reports.
///
/// `InvalidArgument` is raised before any resource is acquired; it stands for
/// the host's null-result convention on rejected input. `AllocationFailed`
/// stands for host memory, signal or registration exhaustion.
#[derive(Clone, Copy, Debug, PartialEq, Eq, Structural)]
pub enum LifecycleError {
    InvalidArgument,
    AllocationFailed,
}

} // verus!
