use substrate::cspace::CapRights;
use substrate::ipc::{
    badge_of, clears_reply_authority, low_bits, map_slot_error, receive_slot, Badge,
    BadgeAllocationError, BadgeAllocator, BadgeError, Endpoint, IpcError, Message, MessageInfo,
    EXTRA_CAPACITY, MESSAGE_CAPACITY,
};
use substrate::ipc_state::{SlotError, SlotTracker};
use substrate::{BootInfo, Bootstrap, DelegatedCapability, Notification};

fn registers(words: &[u64]) -> Vec<u64> {
    let mut buffer = vec![0u64; MESSAGE_CAPACITY];
    buffer[..words.len()].copy_from_slice(words);
    buffer
}

fn boot_info(empty: std::ops::Range<usize>) -> BootInfo {
    BootInfo { empty, untyped: 0..0, untyped_list: Vec::new(), user_image_frames: 0..0 }
}

#[test]
fn badge_zero_is_reserved() {
    assert_eq!(Badge::new(0), Err(BadgeError::ReservedZero));
    assert_eq!(Badge::new(0x41).map(Badge::raw), Ok(0x41));
    assert_eq!(badge_of(0), None);
    assert_eq!(badge_of(9).map(Badge::raw), Some(9));
}

#[test]
fn badge_allocator_hands_out_consecutive_badges() {
    assert!(matches!(BadgeAllocator::new(0), Err(BadgeAllocationError::InvalidStart)));
    let mut badges = BadgeAllocator::new(0x51).expect("nonzero start");
    assert_eq!(badges.allocate().map(Badge::raw), Ok(0x51));
    assert_eq!(badges.allocate().map(Badge::raw), Ok(0x52));
    assert_eq!(badges.allocate().map(Badge::raw), Ok(0x53));
    let mut last = BadgeAllocator::new(u64::MAX).expect("nonzero start");
    assert_eq!(last.allocate(), Err(BadgeAllocationError::Exhausted));
    assert_eq!(last.allocate(), Err(BadgeAllocationError::Exhausted));
}

#[test]
fn messages_are_bounded() {
    assert!(matches!(
        Message::new(0, &[0; MESSAGE_CAPACITY + 1]),
        Err(IpcError::MessageTooLong { length: 121, capacity: 120 })
    ));
    assert!(matches!(
        Message::with_capabilities(0, &[], &[1; EXTRA_CAPACITY + 1]),
        Err(IpcError::TooManyCapabilities { count: 5, capacity: 4 })
    ));
    let one_word = Message::new(0, &[1]).expect("fits");
    assert_eq!(one_word.word(0), Ok(1));
    assert_eq!(one_word.word(1), Err(IpcError::InvalidMessageIndex { index: 1, length: 1 }));
    let full = Message::new(9, &[3; MESSAGE_CAPACITY]).expect("fits exactly");
    assert_eq!(full.words().len(), MESSAGE_CAPACITY);
}

#[test]
fn messages_keep_label_words_and_capabilities() {
    let message = Message::with_capabilities(0x77, &[1, 2, 3], &[30, 31]).expect("fits");
    assert_eq!(message.label(), 0x77);
    assert_eq!(message.words(), &[1, 2, 3]);
    assert_eq!(message.capability_words(), &[30, 31]);
    assert_eq!(message.extra_caps(), 2);
    assert_eq!(message.caps_unwrapped(), 0);
    assert_eq!(
        message.info(),
        MessageInfo { label: 0x77, length: 3, extra_caps: 2, caps_unwrapped: 0 }
    );
    let copy = message.clone();
    assert_eq!(copy.words(), &[1, 2, 3]);
    let empty = Message::empty_reply();
    assert_eq!(empty.info(), MessageInfo { label: 0, length: 0, extra_caps: 0, caps_unwrapped: 0 });
}

#[test]
fn received_messages_copy_only_the_reported_payload() {
    let buffer = registers(&[5, 6, 7, 8]);
    let info = MessageInfo { label: 4, length: 2, extra_caps: 1, caps_unwrapped: 1 };
    let message = Message::received(&info, &buffer).expect("fits");
    assert_eq!(message.words(), &[5, 6]);
    assert_eq!(message.label(), 4);
    assert_eq!(message.extra_caps(), 1);
    assert_eq!(message.caps_unwrapped(), 1);
    let long = MessageInfo { label: 0, length: 121, extra_caps: 0, caps_unwrapped: 0 };
    assert!(matches!(Message::received(&long, &buffer), Err(IpcError::MessageTooLong { .. })));
    let caps = MessageInfo { label: 0, length: 0, extra_caps: 5, caps_unwrapped: 0 };
    assert!(matches!(
        Message::received(&caps, &buffer),
        Err(IpcError::TooManyCapabilities { count: 5, capacity: 4 })
    ));
}

#[test]
fn low_bit_masks() {
    assert_eq!(low_bits(0), 0);
    assert_eq!(low_bits(3), 0b111);
    assert_eq!(low_bits(64), u64::MAX);
    assert_eq!(map_slot_error(SlotError::Occupied), IpcError::InvalidReceiveSlot);
}

#[test]
fn reply_pools_hand_out_the_lowest_free_slot() {
    let info = boot_info(100..200);
    let mut bootstrap = Bootstrap::new(&info).expect("free slots");
    assert!(matches!(
        bootstrap.allocate_reply_pool(0),
        Err(substrate::BootstrapError::InvalidTaskConfiguration)
    ));
    assert!(matches!(
        bootstrap.allocate_reply_pool(65),
        Err(substrate::BootstrapError::InvalidTaskConfiguration)
    ));
    let mut pool = bootstrap.allocate_reply_pool(3).expect("slots remain");
    assert_eq!(bootstrap.checkpoint(), 103);
    assert_eq!(pool.reserve(), Some(100));
    assert_eq!(pool.reserve(), Some(101));
    pool.release(100);
    assert_eq!(pool.reserve(), Some(100));
    assert_eq!(pool.reserve(), Some(102));
    assert_eq!(pool.reserve(), None);
    pool.release(7);
    assert_eq!(pool.reserve(), None);
    pool.release(101);
    assert_eq!(pool.reserve(), Some(101));
}

#[test]
fn reply_pool_needs_enough_free_slots() {
    let info = boot_info(100..102);
    let mut bootstrap = Bootstrap::new(&info).expect("free slots");
    assert!(matches!(
        bootstrap.allocate_reply_pool(3),
        Err(substrate::BootstrapError::NoFreeSlots)
    ));
    let mut pool = bootstrap.allocate_reply_pool(2).expect("fits");
    assert_eq!(pool.reserve(), Some(100));
}

#[test]
fn only_one_receive_holds_the_reply_authority() {
    let mut endpoint = Endpoint::new(12);
    assert_eq!(endpoint.begin_receive(), Ok(()));
    assert_eq!(endpoint.begin_receive(), Err(IpcError::ReplyPending));
    let buffer = registers(&[7]);
    let info = MessageInfo { label: 0, length: 1, extra_caps: 0, caps_unwrapped: 0 };
    let received = endpoint.complete_receive(None, info, &buffer, 0x51).expect("valid delivery");
    assert_eq!(received.badge().map(Badge::raw), Some(0x51));
    assert_eq!(received.message().words(), &[7]);
    let reply = Message::new(0, &[49]).expect("fits");
    let reply_info = received.reply(&reply);
    assert_eq!(reply_info, MessageInfo { label: 0, length: 1, extra_caps: 0, caps_unwrapped: 0 });
    assert!(!endpoint.reply_pending());
    assert_eq!(endpoint.begin_receive(), Ok(()));
}

#[test]
fn unexpected_capabilities_release_the_reply_authority() {
    let mut endpoint = Endpoint::new(12);
    endpoint.begin_receive().expect("idle");
    let buffer = registers(&[]);
    let info = MessageInfo { label: 0, length: 0, extra_caps: 1, caps_unwrapped: 0 };
    let error = endpoint.complete_receive(None, info, &buffer, 3).err();
    assert_eq!(error, Some(IpcError::ReceiveCapacityExceeded { count: 1, capacity: 0 }));
    assert!(clears_reply_authority(&IpcError::ReceiveCapacityExceeded { count: 1, capacity: 0 }));
    assert!(!endpoint.reply_pending());
}

#[test]
fn unbadged_traffic_has_no_badge_and_finish_releases_authority() {
    let mut endpoint = Endpoint::new(12);
    endpoint.begin_receive().expect("idle");
    let buffer = registers(&[1, 2]);
    let info = MessageInfo { label: 3, length: 2, extra_caps: 0, caps_unwrapped: 0 };
    let received = endpoint.complete_receive(None, info, &buffer, 0).expect("valid delivery");
    assert_eq!(received.badge(), None);
    received.finish();
    assert!(!endpoint.reply_pending());
}

#[test]
fn receive_slots_commit_only_transferred_capabilities() {
    let mut slots = SlotTracker::new(16);
    assert!(matches!(receive_slot(40, 4, &mut slots, 0), Err(IpcError::InvalidReceiveSlot)));
    assert!(matches!(receive_slot(40, 4, &mut slots, 16), Err(IpcError::InvalidReceiveSlot)));
    let slot = receive_slot(40, 4, &mut slots, 2).expect("free slot");
    let absolute = slot.absolute();
    assert_eq!((absolute.root, absolute.index, absolute.depth), (40, 2, 4));
    let mut endpoint = Endpoint::new(12);
    endpoint.begin_receive().expect("idle");
    let buffer = registers(&[]);
    let info = MessageInfo { label: 0, length: 0, extra_caps: 1, caps_unwrapped: 0 };
    let received = endpoint.complete_receive(Some(slot), info, &buffer, 0x54).expect("one capability");
    assert_eq!(received.message().extra_caps(), 1);
    received.finish();
    assert!(matches!(receive_slot(40, 4, &mut slots, 2), Err(IpcError::InvalidReceiveSlot)));
    let other = receive_slot(40, 4, &mut slots, 3).expect("free slot");
    endpoint.begin_receive().expect("idle");
    let none = MessageInfo { label: 0, length: 1, extra_caps: 0, caps_unwrapped: 0 };
    let received = endpoint.complete_receive(Some(other), none, &registers(&[9]), 0x54).expect("no capability");
    received.finish();
    assert!(receive_slot(40, 4, &mut slots, 3).is_ok());
}

#[test]
fn polling_without_a_sender_releases_everything() {
    let mut slots = SlotTracker::new(16);
    let slot = receive_slot(40, 4, &mut slots, 5).expect("free slot");
    let mut endpoint = Endpoint::new(12);
    endpoint.begin_receive().expect("idle");
    let nothing = MessageInfo { label: 0, length: 0, extra_caps: 0, caps_unwrapped: 0 };
    let outcome = endpoint.complete_try_receive(Some(slot), nothing, &registers(&[]), 0);
    assert!(matches!(outcome, Ok(None)));
    assert!(!endpoint.reply_pending());
    assert!(receive_slot(40, 4, &mut slots, 5).is_ok());
}

#[test]
fn polling_with_a_sender_delivers() {
    let mut endpoint = Endpoint::new(12);
    endpoint.begin_receive().expect("idle");
    let info = MessageInfo { label: 1, length: 1, extra_caps: 0, caps_unwrapped: 0 };
    let buffer = registers(&[44]);
    let received = endpoint.complete_try_receive(None, info, &buffer, 0).expect("valid");
    let received = received.expect("a sender was waiting");
    assert_eq!(received.message().words(), &[44]);
    received.finish();
}

#[test]
fn deferred_replies_retain_a_pool_slot_until_replied() {
    let info = boot_info(300..310);
    let mut bootstrap = Bootstrap::new(&info).expect("free slots");
    let mut pool = bootstrap.allocate_reply_pool(2).expect("slots remain");
    let mut endpoint = Endpoint::new(12);
    endpoint.begin_receive().expect("idle");
    let buffer = registers(&[10]);
    let info = MessageInfo { label: 0, length: 1, extra_caps: 0, caps_unwrapped: 0 };
    let received = endpoint.complete_receive(None, info, &buffer, 0x52).expect("valid");
    let deferred = received.defer(&mut pool, |slot| slot == 300).expect("saved");
    assert_eq!(deferred.slot(), 300);
    assert!(!endpoint.reply_pending());
    endpoint.begin_receive().expect("authority was handed to the pool");
    let received = endpoint.complete_receive(None, info, &buffer, 0x53).expect("valid");
    assert!(matches!(received.defer(&mut pool, |_| false), Err(IpcError::NoReplyAuthority)));
    assert!(clears_reply_authority(&IpcError::NoReplyAuthority));
    let reply = Message::new(0, &[11]).expect("fits");
    let reply_info = deferred.reply(&mut pool, &reply);
    assert_eq!(reply_info.length, 1);
    assert_eq!(pool.reserve(), Some(300));
    assert_eq!(pool.reserve(), Some(301));
    endpoint.begin_receive().expect("idle");
    let received = endpoint.complete_receive(None, info, &buffer, 0x53).expect("valid");
    assert!(matches!(received.defer(&mut pool, |_| true), Err(IpcError::NoReplySlots)));
}

#[test]
fn discarding_a_deferred_reply_frees_its_slot_only_when_deleted() {
    let info = boot_info(300..310);
    let mut bootstrap = Bootstrap::new(&info).expect("free slots");
    let mut pool = bootstrap.allocate_reply_pool(2).expect("slots remain");
    let mut endpoint = Endpoint::new(12);
    let buffer = registers(&[]);
    let info = MessageInfo { label: 0, length: 0, extra_caps: 0, caps_unwrapped: 0 };
    endpoint.begin_receive().expect("idle");
    let received = endpoint.complete_receive(None, info, &buffer, 1).expect("valid");
    let refused = received.defer(&mut pool, |_| true).expect("saved");
    assert_eq!(refused.slot(), 300);
    assert_eq!(refused.discard(&mut pool, |_| false), Err(IpcError::ReplyCapabilityOperationFailed));
    endpoint.begin_receive().expect("idle");
    let received = endpoint.complete_receive(None, info, &buffer, 1).expect("valid");
    let deleted = received.defer(&mut pool, |_| true).expect("saved");
    assert_eq!(deleted.slot(), 301);
    assert_eq!(deleted.discard(&mut pool, |slot| slot == 301), Ok(()));
    assert_eq!(pool.reserve(), Some(301));
    assert_eq!(pool.reserve(), None);
}

#[test]
fn delegations_carry_rights_and_badges() {
    let notification = Notification::new(21);
    let signal = DelegatedCapability::notification(&notification, 1);
    assert_eq!(signal.source(), 21);
    assert_eq!(signal.destination(), 1);
    assert_eq!(signal.rights(), CapRights::write_only());
    assert_eq!(signal.badge(), 0);
    let endpoint = Endpoint::new(22);
    let badge = Badge::new(0x51).expect("nonzero");
    let call = DelegatedCapability::badged_endpoint(&endpoint, 2, badge);
    assert_eq!(call.source(), 22);
    assert_eq!(call.rights(), CapRights::write_grant());
    assert_eq!(call.badge(), 0x51);
    assert!(!clears_reply_authority(&IpcError::ReplyPending));
    assert!(!clears_reply_authority(&IpcError::InvalidReceivePath));
}
