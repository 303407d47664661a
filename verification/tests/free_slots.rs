use substrate::free_slots::FreeSlots;

#[test]
fn slots_are_unique_and_exhaustion_is_permanent() {
    let mut slots = FreeSlots::new(7..9);
    assert_eq!(slots.try_allocate(Ok::<_, ()>), Ok(Some(7)));
    assert_eq!(slots.try_allocate(Ok::<_, ()>), Ok(Some(8)));
    assert_eq!(slots.try_allocate(Ok::<_, ()>), Ok(None));
    assert_eq!(slots.try_allocate(Ok::<_, ()>), Ok(None));
}

#[test]
fn empty_range_has_no_slots() {
    assert_eq!(FreeSlots::new(4..4).try_allocate(Ok::<_, ()>), Ok(None));
}

#[test]
fn upper_bound_does_not_overflow() {
    let mut slots = FreeSlots::new(usize::MAX - 1..usize::MAX);
    assert_eq!(slots.try_allocate(Ok::<_, ()>), Ok(Some(usize::MAX - 1)));
    assert_eq!(slots.try_allocate(Ok::<_, ()>), Ok(None));
}

#[test]
fn failed_creation_preserves_the_slot() {
    let mut slots = FreeSlots::new(7..8);
    for failure in ["no candidates", "all exhausted", "kernel error"] {
        let result: Result<Option<usize>, &str> = slots.try_allocate(|slot| {
            assert_eq!(slot, 7);
            Err(failure)
        });
        assert_eq!(result, Err(failure));
    }
    assert_eq!(slots.try_allocate(Ok::<_, &str>), Ok(Some(7)));
    assert_eq!(slots.try_allocate(Ok::<_, &str>), Ok(None));
}

#[test]
fn empty_slots_do_not_attempt_creation() {
    let mut slots = FreeSlots::new(4..4);
    let result: Result<Option<usize>, ()> = slots.try_allocate(|_| {
        panic!("creation must not run without an empty slot");
    });
    assert_eq!(result, Ok(None));
}

#[test]
fn checkpoint_rewinds_only_a_valid_committed_suffix() {
    let mut slots = FreeSlots::new(7..10);
    let checkpoint = slots.checkpoint();
    assert_eq!(slots.try_allocate(Ok::<_, ()>), Ok(Some(7)));
    assert_eq!(slots.try_allocate(Ok::<_, ()>), Ok(Some(8)));
    assert_eq!(slots.allocated_since(checkpoint), Some(7..9));
    assert!(slots.rewind(checkpoint));
    assert_eq!(slots.try_allocate(Ok::<_, ()>), Ok(Some(7)));
    assert!(!slots.rewind(6));
    assert!(!slots.rewind(9));
}

#[test]
fn free_slots_slots_are_unique_and_exhaustion_is_permanent() {
    let mut slots = FreeSlots::new(7..9);
    assert_eq!(slots.allocate(), Some(7));
    assert_eq!(slots.allocate(), Some(8));
    assert_eq!(slots.allocate(), None);
    assert_eq!(slots.allocate(), None);
}

#[test]
fn free_slots_empty_range_has_no_slots() {
    assert_eq!(FreeSlots::new(4..4).allocate(), None);
}

#[test]
fn free_slots_upper_bound_does_not_overflow() {
    let mut slots = FreeSlots::new(usize::MAX - 1..usize::MAX);
    assert_eq!(slots.allocate(), Some(usize::MAX - 1));
    assert_eq!(slots.allocate(), None);
}

#[test]
fn inverted_range_has_no_slots() {
    let mut slots = FreeSlots::new(9..4);
    assert_eq!(slots.allocate(), None);
    assert_eq!(slots.try_allocate(Ok::<_, ()>), Ok(None));
}

#[test]
fn rewinding_to_a_checkpoint_hands_the_same_slots_out_again() {
    let mut slots = FreeSlots::new(20..30);
    assert_eq!(slots.allocate(), Some(20));
    let checkpoint = slots.checkpoint();
    assert_eq!(checkpoint, 21);
    assert_eq!(slots.allocate(), Some(21));
    assert_eq!(slots.allocate(), Some(22));
    assert_eq!(slots.allocated_since(checkpoint), Some(21..23));
    assert_eq!(slots.allocated_since(19), None);
    assert!(slots.rewind(checkpoint));
    assert_eq!(slots.allocated_since(checkpoint), Some(21..21));
    assert_eq!(slots.allocate(), Some(21));
    assert_eq!(slots.allocate(), Some(22));
}

#[test]
fn ranges_are_taken_only_when_they_fit() {
    let mut slots = FreeSlots::new(10..14);
    assert_eq!(slots.allocate_range(3), Some(10..13));
    assert_eq!(slots.allocate_range(2), None);
    assert_eq!(slots.allocate_range(1), Some(13..14));
    assert_eq!(slots.allocate(), None);
}
