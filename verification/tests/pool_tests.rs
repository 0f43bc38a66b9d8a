use sound_sync::pool::{Handle, Pool};

#[test]
fn none_handle_is_none() {
    let h = Handle::none();
    assert!(h.is_none());
    assert!(!h.is_some());
    assert_eq!(h.index, 0);
    assert_eq!(h.generation, 0);
}

#[test]
fn spawn_and_borrow() {
    let mut pool: Pool<u32> = Pool::new();
    let h = pool.spawn(7);
    assert!(pool.is_valid_handle(h));
    assert_eq!(*pool.borrow(h), 7);
    assert_eq!(pool.alive_count(), 1);
    assert_eq!(pool.num_slots(), 1);
}

#[test]
fn free_invalidates_only_freed() {
    let mut pool: Pool<u32> = Pool::new();
    let h1 = pool.spawn(1);
    let h2 = pool.spawn(2);
    let v = pool.free(h1);
    assert_eq!(v, 1);
    assert!(!pool.is_valid_handle(h1));
    assert!(pool.is_valid_handle(h2));
    assert_eq!(*pool.borrow(h2), 2);
    assert_eq!(pool.alive_count(), 1);
}

#[test]
fn slot_reuse_keeps_stale_handles_stale() {
    let mut pool: Pool<u32> = Pool::new();
    let h1 = pool.spawn(1);
    pool.free(h1);
    let h2 = pool.spawn(2);
    // The slot is reused under a fresh generation: the old handle stays
    // stale, the new one resolves.
    assert_eq!(h2.index, h1.index);
    assert_ne!(h2.generation, h1.generation);
    assert!(!pool.is_valid_handle(h1));
    assert!(pool.is_valid_handle(h2));
    assert_eq!(*pool.borrow(h2), 2);
}

#[test]
fn try_borrow_and_mutate() {
    let mut pool: Pool<u32> = Pool::new();
    let h = pool.spawn(5);
    assert!(pool.try_borrow(Handle::none()).is_none());
    assert_eq!(*pool.try_borrow(h).unwrap(), 5);
    *pool.borrow_mut(h) = 9;
    assert_eq!(*pool.borrow(h), 9);
}

#[test]
fn ticket_round_trip() {
    let mut pool: Pool<u32> = Pool::new();
    let h = pool.spawn(11);
    let (ticket, value) = pool.take_reserve(h);
    assert_eq!(value, 11);
    assert!(!pool.is_valid_handle(h));
    // The reserved slot is not reused while the ticket is out.
    let other = pool.spawn(99);
    assert_ne!(other.index, h.index);
    let back = pool.put_back(ticket, 12);
    assert_eq!(back, h);
    assert!(pool.is_valid_handle(h));
    assert_eq!(*pool.borrow(h), 12);
}

#[test]
fn forget_ticket_vacates_slot() {
    let mut pool: Pool<u32> = Pool::new();
    let h = pool.spawn(3);
    let (ticket, _) = pool.take_reserve(h);
    pool.forget_ticket(ticket);
    assert!(!pool.is_valid_handle(h));
    // The slot may now be reused, under a fresh generation.
    let h2 = pool.spawn(4);
    assert_eq!(h2.index, h.index);
    assert!(!pool.is_valid_handle(h));
    assert_eq!(*pool.borrow(h2), 4);
}

#[test]
fn handle_at_walks_slots() {
    let mut pool: Pool<u32> = Pool::new();
    let h1 = pool.spawn(1);
    let h2 = pool.spawn(2);
    pool.free(h1);
    assert_eq!(pool.handle_at(0), None);
    assert_eq!(pool.handle_at(1), Some(h2));
    assert_eq!(pool.handle_at(2), None);
}
