use substrate::ipc_state::{BadgeSequence, SlotError, SlotTracker};

#[test]
fn badge_sequence_is_nonzero_unique_and_bounded() {
    assert!(BadgeSequence::new(0).is_none());
    let mut badges = BadgeSequence::new(7).expect("nonzero start is valid");
    assert_eq!(badges.allocate(), Some(7));
    assert_eq!(badges.allocate(), Some(8));
    let mut exhausted = BadgeSequence::new(usize::MAX).expect("nonzero start is valid");
    assert_eq!(exhausted.allocate(), None);
    assert_eq!(exhausted.allocate(), None);
}

#[test]
fn rejects_invalid_and_occupied_receive_slots() {
    let mut slots = SlotTracker::new(8);
    assert!(matches!(slots.reserve(0), Err(SlotError::Reserved)));
    assert!(matches!(slots.reserve(8), Err(SlotError::OutOfRange)));
    assert_eq!(slots.mark_occupied(3), Ok(()));
    assert!(matches!(slots.reserve(3), Err(SlotError::Occupied)));
}

#[test]
fn failed_receive_keeps_destination_free() {
    let mut slots = SlotTracker::new(8);
    let reservation = slots.reserve(3).expect("slot 3 is valid");
    assert_eq!(SlotTracker::cancel(reservation), Ok(()));
    assert_eq!(slots.reserve(3).map(|_| ()), Ok(()));
}

#[test]
fn successful_receive_commits_destination_ownership() {
    let mut slots = SlotTracker::new(8);
    let reservation = slots.reserve(3).expect("slot 3 is valid");
    assert_eq!(SlotTracker::commit(reservation), Ok(()));
    assert!(matches!(slots.reserve(3), Err(SlotError::Occupied)));
}

#[test]
fn committed_reservations_cannot_be_reused() {
    let mut first = SlotTracker::new(8);
    let reservation = first.reserve(3).expect("slot 3 is valid");
    assert_eq!(SlotTracker::commit(reservation), Ok(()));
    assert!(matches!(first.reserve(3), Err(SlotError::Occupied)));
}

#[test]
fn bounded_tracker_rejects_unrepresentable_capacity() {
    assert!(matches!(
        SlotTracker::try_new(SlotTracker::MAX_SLOTS + 1),
        Err(SlotError::CapacityTooLarge),
    ));
}

#[test]
fn reserved_slot_is_neither_reservable_nor_markable() {
    let mut slots = SlotTracker::new(8);
    let reservation = slots.reserve(5).expect("slot 5 is valid");
    assert_eq!(SlotTracker::reservation_slot(&reservation), 5);
    drop(reservation);
    assert!(matches!(slots.reserve(5), Err(SlotError::Occupied)));
    assert_eq!(slots.mark_occupied(5), Err(SlotError::Occupied));
    assert_eq!(slots.mark_occupied(0), Err(SlotError::Reserved));
    assert_eq!(slots.mark_occupied(9), Err(SlotError::OutOfRange));
}

#[test]
fn settled_reservations_refuse_a_second_transition() {
    let mut slots = SlotTracker::new(4);
    let mut state = 0u8;
    let stale = substrate::ipc_state::SlotReservation { slot: 2, state: &mut state };
    assert_eq!(SlotTracker::commit(stale), Err(SlotError::InvalidReservation));
    let reservation = slots.reserve(2).expect("slot 2 is valid");
    assert_eq!(SlotTracker::cancel(reservation), Ok(()));
    let mut full = SlotTracker::try_new(SlotTracker::MAX_SLOTS).expect("largest capacity");
    assert_eq!(full.mark_occupied(255), Ok(()));
    assert_eq!(full.mark_occupied(256), Err(SlotError::OutOfRange));
}

#[test]
fn badge_sequence_stops_before_the_largest_word() {
    let mut badges = BadgeSequence::new(usize::MAX - 2).expect("nonzero start is valid");
    assert_eq!(badges.allocate(), Some(usize::MAX - 2));
    assert_eq!(badges.allocate(), Some(usize::MAX - 1));
    assert_eq!(badges.allocate(), None);
}
