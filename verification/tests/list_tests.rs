use amiga_support::list::{add_head, initialize_list, ListHeader};

fn fresh(base: u32) -> ListHeader {
    ListHeader {
        base,
        head: 0xDEAD,
        tail: 0xDEAD,
        tail_pred: 0xDEAD,
    }
}

#[test]
fn initialized_header_is_self_referential() {
    let mut l = fresh(0x1000);
    initialize_list(&mut l);
    assert_eq!(l.head, 0x1004, "head points at the tail-sentinel slot");
    assert_eq!(l.tail, 0, "tail sentinel is null");
    assert_eq!(l.tail_pred, 0x1000, "tail-predecessor points at the head slot");
}

#[test]
fn initialization_tracks_the_embedding_address() {
    let mut a = fresh(0x200);
    let mut b = fresh(0x77_0000);
    initialize_list(&mut a);
    initialize_list(&mut b);
    assert_eq!((a.head, a.tail, a.tail_pred), (0x204, 0, 0x200));
    assert_eq!((b.head, b.tail, b.tail_pred), (0x77_0004, 0, 0x77_0000));
}

#[test]
fn add_head_into_empty_list_links_both_slots() {
    let mut l = fresh(0x300);
    initialize_list(&mut l);
    add_head(&mut l, 0x9000);
    assert_eq!(l.head, 0x9000);
    assert_eq!(l.tail, 0);
    assert_eq!(l.tail_pred, 0x9000);
}

#[test]
fn add_head_into_populated_list_keeps_tail_pred() {
    let mut l = fresh(0x300);
    initialize_list(&mut l);
    add_head(&mut l, 0x9000);
    add_head(&mut l, 0xA000);
    assert_eq!(l.head, 0xA000);
    assert_eq!(l.tail_pred, 0x9000);
}
