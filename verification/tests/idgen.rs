use stream_core::idgen::{IdAllocator, ID_PREALLOCATE_INTERVAL};

#[test]
fn ids_are_consecutive_across_preallocation() {
    let (mut alloc, bound) = IdAllocator::new(None, None);
    assert_eq!(bound, ID_PREALLOCATE_INTERVAL);
    let mut persisted = bound;
    for expected in 0..10000u64 {
        let (id, new_bound) = alloc.generate();
        assert_eq!(id, expected);
        if let Some(b) = new_bound {
            assert!(b > persisted);
            assert_eq!((b - persisted) % ID_PREALLOCATE_INTERVAL, 0);
            persisted = b;
        }
    }
    // The ids 0..=9999 were served, so the durable bound has reached exactly
    // the next fresh id.
    assert_eq!(persisted, 10000);

    // A generator resumed from the durable value continues where the last one
    // stopped.
    let (mut resumed, _) = IdAllocator::new(Some(persisted), None);
    let (id, _) = resumed.generate();
    assert_eq!(id, 10000);
}

#[test]
fn start_is_honoured_only_on_a_fresh_store() {
    let (mut alloc, _) = IdAllocator::new(None, Some(10000));
    let (id, _) = alloc.generate();
    assert_eq!(id, 10000);

    let (mut alloc, _) = IdAllocator::new(Some(10100), Some(10));
    let (id, _) = alloc.generate();
    assert_eq!(id, 10100);
}

#[test]
fn interval_allocation_extends_by_whole_blocks() {
    let (mut alloc, bound) = IdAllocator::new(None, None);
    assert_eq!(bound, 1000);

    // A request inside the preallocated block needs no durable write.
    let (id, new_bound) = alloc.generate_interval(100);
    assert_eq!(id, 0);
    assert_eq!(new_bound, None);

    // A request crossing the bound extends it by just enough whole blocks.
    let (id, new_bound) = alloc.generate_interval(2400);
    assert_eq!(id, 100);
    assert_eq!(new_bound, Some(3000));

    let (id, new_bound) = alloc.generate_interval(500);
    assert_eq!(id, 2500);
    assert_eq!(new_bound, None);
}
