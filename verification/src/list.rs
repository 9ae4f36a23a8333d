//! Bootstrap of an intrusive doubly-linked list header.
//!
//! An empty list is a self-referential sentinel arrangement: the head slot
//! points at the address of the tail slot (treated as a zero-element node) and
//! the tail-predecessor slot points at the address of the head slot, so that
//! generic insert and remove code works uniformly on empty and non-empty
//! lists. The self-reference is plain address arithmetic over the header's
//! own storage address, which must be fixed before initialization.

use vstd::prelude::*;

verus! {

/// Byte offset of the tail slot from the start of a list header: the head
/// slot is one address-sized field wide.
pub const LIST_TAIL_OFFSET: u32 = 4;

/// An intrusive list header together with the address of its stable storage.
///
/// `base` is the address of the header itself, i.e. of its head slot; the
/// tail slot sits `LIST_TAIL_OFFSET` bytes further. `head`, `tail` and
/// `tail_pred` hold the three address-valued fields of the header.
#[derive(Clone, Copy, Debug, PartialEq, Eq, Structural)]
pub struct ListHeader {
    pub base: u32,
    pub head: u32,
    pub tail: u32,
    pub tail_pred: u32,
}

impl ListHeader {
    /// Address of the tail-sentinel slot inside this header.
    pub open spec fn tail_slot(self) -> int {
        self.base + LIST_TAIL_OFFSET
    }

    /// The empty-list invariant: head points at the tail slot, the tail
    /// sentinel is null, and tail-predecessor points at the head slot.
    pub open spec fn is_empty_list(self) -> bool {
        &&& self.head == self.tail_slot()
        &&& self.tail == 0
        &&& self.tail_pred == self.base
    }
}

/// Puts an uninitialized list header into the valid empty-list state.
///
/// Writes exactly the three header fields; performs no allocation and cannot
/// fail. The header's storage address (`base`) must already be final, since
/// the self-referential values embed it.
pub fn initialize_list(header: &mut ListHeader)
    requires
        old(header).base + LIST_TAIL_OFFSET <= u32::MAX,
    ensures
        final(header).base == old(header).base,
        final(header).is_empty_list(),
{
    header.head = header.base + LIST_TAIL_OFFSET;
    header.tail = 0;
    header.tail_pred = header.base;
}

/// Links a node in at the head of the list, at the header level: the head
/// slot takes the node's address, and when the list was empty the
/// tail-predecessor slot (the sentinel node's predecessor link) takes it too.
/// The links stored inside node memory are outside this model.
pub fn add_head(header: &mut ListHeader, node_addr: u32)
    requires
        old(header).base + LIST_TAIL_OFFSET <= u32::MAX,
    ensures
        final(header).base == old(header).base,
        final(header).tail == old(header).tail,
        final(header).head == node_addr,
        final(header).tail_pred == if old(header).head == old(header).tail_slot() {
            node_addr
        } else {
            old(header).tail_pred
        },
{
    if header.head == header.base + LIST_TAIL_OFFSET {
        header.tail_pred = node_addr;
    }
    header.head = node_addr;
}

} // verus!
