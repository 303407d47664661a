use std::cell::{Cell, RefCell};
use substrate::api::BootstrapError as RootError;
use substrate::boot::{BootInfo, UntypedDescriptor};
use substrate::ipc::{
    receive_slot, AbsoluteSlot, Delivery, Endpoint, IpcError, Message, MessageInfo,
    MESSAGE_CAPACITY,
};
use substrate::ipc_state::SlotTracker;
use substrate::root::{bootstrap, NotificationAllocator};
use substrate::vspace::{Frame, TaskMapping};
use substrate::{BootstrapError, Fault, FaultEndpoint, FaultReceiveError};

fn delivery(label: u64, words: &[u64], extra_caps: usize, badge: u64) -> Delivery {
    let mut registers = [0u64; MESSAGE_CAPACITY];
    registers[..words.len()].copy_from_slice(words);
    Delivery {
        info: MessageInfo { label, length: words.len(), extra_caps, caps_unwrapped: 0 },
        registers,
        badge,
    }
}

fn root_info(empty: std::ops::Range<usize>, untyped_list: Vec<UntypedDescriptor>) -> BootInfo {
    let count = untyped_list.len();
    BootInfo { empty, untyped: 20..20 + count, untyped_list, user_image_frames: 0..0 }
}

#[test]
fn blocking_receive_hands_the_destination_to_the_kernel() {
    let mut slots = SlotTracker::new(8);
    let slot = receive_slot(40, 3, &mut slots, 6).expect("free slot");
    let seen: Cell<Option<AbsoluteSlot>> = Cell::new(None);
    let cleared = Cell::new(false);
    let mut endpoint = Endpoint::new(12);
    let received = endpoint
        .receive(
            Some(slot),
            |destination| {
                seen.set(destination);
                delivery(2, &[5, 6], 1, 0x33)
            },
            || cleared.set(true),
        )
        .expect("valid delivery");
    assert_eq!(received.message().words(), &[5, 6]);
    assert_eq!(received.message().extra_caps(), 1);
    assert_eq!(received.badge().map(|badge| badge.raw()), Some(0x33));
    received.finish();
    assert_eq!(seen.get(), Some(AbsoluteSlot { root: 40, index: 6, depth: 3 }));
    assert!(!cleared.get());
    assert!(matches!(receive_slot(40, 3, &mut slots, 6), Err(IpcError::InvalidReceiveSlot)));
}

#[test]
fn blocking_receive_clears_the_authority_on_refusal() {
    let cleared = Cell::new(false);
    let mut endpoint = Endpoint::new(12);
    let error = endpoint
        .receive(None, |_| delivery(0, &[], 1, 0), || cleared.set(true))
        .err();
    assert_eq!(error, Some(IpcError::ReceiveCapacityExceeded { count: 1, capacity: 0 }));
    assert!(cleared.get());
    assert!(!endpoint.reply_pending());
}

#[test]
fn blocking_receive_is_refused_while_a_reply_is_owed() {
    let mut endpoint = Endpoint::new(12);
    endpoint.begin_receive().expect("idle");
    let called = Cell::new(false);
    let error = endpoint
        .receive(
            None,
            |_| {
                called.set(true);
                delivery(0, &[], 0, 0)
            },
            || {},
        )
        .err();
    assert_eq!(error, Some(IpcError::ReplyPending));
    assert!(!called.get());
    assert!(endpoint.reply_pending());
}

#[test]
fn polling_receive_reports_an_absent_sender() {
    let mut slots = SlotTracker::new(8);
    let slot = receive_slot(40, 3, &mut slots, 2).expect("free slot");
    let cleared = Cell::new(false);
    let mut endpoint = Endpoint::new(12);
    let outcome = endpoint.try_receive(Some(slot), |_| delivery(0, &[], 0, 0), || cleared.set(true));
    assert!(matches!(outcome, Ok(None)));
    assert!(!cleared.get());
    assert!(!endpoint.reply_pending());
    assert!(receive_slot(40, 3, &mut slots, 2).is_ok());
}

#[test]
fn polling_receive_delivers_a_waiting_sender() {
    let mut endpoint = Endpoint::new(12);
    let outcome = endpoint.try_receive(None, |_| delivery(4, &[8], 0, 0x10), || {});
    let received = outcome.expect("valid").expect("a sender was waiting");
    assert_eq!(received.message().label(), 4);
    assert_eq!(received.message().words(), &[8]);
    let reply = Message::new(0, &[]).expect("fits");
    received.reply(&reply);
    assert!(!endpoint.reply_pending());
}

#[test]
fn calls_send_the_request_and_copy_the_reply() {
    let endpoint = Endpoint::new(21);
    let request = Message::new(7, &[1, 2, 3]).expect("fits");
    let sent: RefCell<Vec<u64>> = RefCell::new(Vec::new());
    let reply = endpoint
        .call(&request, |cap, info, words| {
            assert_eq!(cap, 21);
            assert_eq!(info, MessageInfo { label: 7, length: 3, extra_caps: 0, caps_unwrapped: 0 });
            sent.borrow_mut().extend_from_slice(words);
            delivery(9, &[4, 5], 0, 0)
        })
        .expect("reply fits");
    assert_eq!(sent.borrow().as_slice(), &[1, 2, 3]);
    assert_eq!((reply.label(), reply.words()), (9, &[4u64, 5][..]));
    let oversized = endpoint.call(&request, |_, _, _| {
        let mut reply = delivery(0, &[], 0, 0);
        reply.info.length = MESSAGE_CAPACITY + 1;
        reply
    });
    assert!(matches!(
        oversized,
        Err(IpcError::MessageTooLong { length, capacity }) if length == MESSAGE_CAPACITY + 1 && capacity == MESSAGE_CAPACITY
    ));
}

#[test]
fn fault_receive_decodes_and_clears_refusals() {
    let mut endpoint = FaultEndpoint::new(Endpoint::new(30));
    let cleared = Cell::new(false);
    let received = endpoint
        .receive(|| delivery(5, &[0x1000, 0x0200_3000, 0, 0x92], 0, 0x41), || cleared.set(true))
        .expect("valid fault");
    assert_eq!(received.source().raw(), 0x41);
    assert!(matches!(received.fault(), Fault::VmFault(vm) if vm.address == 0x0200_3000));
    FaultEndpoint::reply(received);
    assert!(!cleared.get());
    let error = endpoint.receive(|| delivery(5, &[1, 2, 3, 4], 0, 0), || cleared.set(true)).err();
    assert_eq!(error, Some(FaultReceiveError::MissingSourceBadge));
    assert!(cleared.get());
    assert!(!endpoint.endpoint().reply_pending());
}

#[test]
fn fault_receive_is_refused_while_a_reply_is_owed() {
    let mut endpoint = FaultEndpoint::new(Endpoint::new(30));
    endpoint.begin_receive().expect("idle");
    let error = endpoint.receive(|| delivery(5, &[], 0, 1), || {}).err();
    assert_eq!(error, Some(FaultReceiveError::Ipc(IpcError::ReplyPending)));
}

#[test]
fn frames_map_and_unmap_through_the_kernel() {
    let frame = Frame::new(77);
    let mapped: Cell<Option<(u64, usize)>> = Cell::new(None);
    assert_eq!(frame.map(0x4000, |cap, address| {
        mapped.set(Some((cap, address)));
        true
    }), Ok(()));
    assert_eq!(mapped.get(), Some((77, 0x4000)));
    assert_eq!(frame.map(0x4010, |_, _| true), Err(BootstrapError::InvalidImageRegion));
    assert_eq!(frame.map(0x5000, |_, _| false), Err(BootstrapError::FrameMappingFailed));
    assert_eq!(frame.unmap(|cap| cap == 77), Ok(()));
    assert_eq!(frame.unmap(|_| false), Err(BootstrapError::FrameUnmappingFailed));
    let mapping = TaskMapping::new(8, 61);
    assert_eq!(mapping.unmap(|cap| cap == 8), Ok(()));
    assert_eq!(mapping.unmap(|_| false), Err(BootstrapError::FrameUnmappingFailed));
}

#[test]
fn notification_allocator_reports_refused_retypes() {
    let allocator = NotificationAllocator { slot: 9, untyped: 3 };
    let notification = allocator.allocate(|untyped, slot| untyped == 3 && slot == 9).expect("created");
    assert_eq!(notification.cap(), 9);
    let allocator = NotificationAllocator { slot: 9, untyped: 3 };
    assert!(matches!(allocator.allocate(|_, _| false), Err(RootError::KernelAllocationFailed)));
}

#[test]
fn root_bootstrap_retypes_into_the_first_slot_and_round_trips() {
    let regions = vec![
        UntypedDescriptor { size_bits: 20, is_device: true },
        UntypedDescriptor { size_bits: 2, is_device: false },
        UntypedDescriptor { size_bits: 12, is_device: false },
    ];
    let info = root_info(5..9, regions.clone());
    let retyped: Cell<Option<(usize, usize)>> = Cell::new(None);
    let signalled: Cell<Option<u64>> = Cell::new(None);
    let outcome = bootstrap(
        &info,
        6,
        |untyped, slot| {
            retyped.set(Some((untyped, slot)));
            true
        },
        |cap| signalled.set(Some(cap)),
    );
    assert_eq!(outcome, Ok(()));
    assert_eq!(retyped.get(), Some((22, 5)));
    assert_eq!(signalled.get(), Some(5));
    assert_eq!(bootstrap(&info, 6, |_, _| false, |_| {}), Err(RootError::KernelAllocationFailed));
    assert_eq!(bootstrap(&info, 13, |_, _| true, |_| {}), Err(RootError::NoKernelMemory));
    let full = root_info(5..5, regions);
    assert_eq!(bootstrap(&full, 6, |_, _| true, |_| {}), Err(RootError::NoFreeSlots));
}
