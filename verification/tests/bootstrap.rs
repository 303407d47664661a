use std::cell::RefCell;
use substrate::boot::first_eligible_untyped;
use substrate::cspace::{copy_to_root, delete_root_slots};
use substrate::free_slots::FreeSlots;
use substrate::{BootInfo, Bootstrap, BootstrapError, RetypeOutcome, UntypedDescriptor};

fn boot_info() -> BootInfo {
    BootInfo {
        empty: 50..60,
        untyped: 10..14,
        untyped_list: vec![
            UntypedDescriptor { size_bits: 20, is_device: true },
            UntypedDescriptor { size_bits: 4, is_device: false },
            UntypedDescriptor { size_bits: 16, is_device: false },
            UntypedDescriptor { size_bits: 18, is_device: false },
        ],
        user_image_frames: 70..74,
    }
}

#[test]
fn bootstrap_needs_free_slots() {
    let mut info = boot_info();
    info.empty = 8..8;
    assert!(matches!(Bootstrap::new(&info), Err(BootstrapError::NoFreeSlots)));
    let info = boot_info();
    let bootstrap = Bootstrap::new(&info).expect("free slots");
    assert_eq!(bootstrap.checkpoint(), 50);
}

#[test]
fn allocation_skips_device_and_small_regions() {
    let info = boot_info();
    let mut bootstrap = Bootstrap::new(&info).expect("free slots");
    let attempts = RefCell::new(Vec::new());
    let notification = bootstrap
        .allocate_notification(5, |untyped, slot| {
            attempts.borrow_mut().push((untyped, slot));
            RetypeOutcome::Created
        })
        .expect("memory available");
    assert_eq!(notification.cap(), 50);
    assert_eq!(attempts.into_inner(), vec![(12, 50)]);
    assert_eq!(bootstrap.checkpoint(), 51);
}

#[test]
fn exhausted_regions_are_passed_over() {
    let info = boot_info();
    let mut bootstrap = Bootstrap::new(&info).expect("free slots");
    let attempts = RefCell::new(Vec::new());
    let frame = bootstrap
        .allocate_frame(12, |untyped, _| {
            attempts.borrow_mut().push(untyped);
            if untyped == 12 { RetypeOutcome::NotEnoughMemory } else { RetypeOutcome::Created }
        })
        .expect("second region has memory");
    assert_eq!(frame.cap(), 50);
    assert_eq!(attempts.into_inner(), vec![12, 13]);
}

#[test]
fn failed_allocation_keeps_the_slot() {
    let info = boot_info();
    let mut bootstrap = Bootstrap::new(&info).expect("free slots");
    assert!(matches!(
        bootstrap.allocate_endpoint(4, |_, _| RetypeOutcome::NotEnoughMemory),
        Err(BootstrapError::NoKernelMemory)
    ));
    assert!(matches!(
        bootstrap.allocate_endpoint(4, |_, _| RetypeOutcome::Failed),
        Err(BootstrapError::KernelAllocationFailed)
    ));
    assert!(matches!(
        bootstrap.allocate_endpoint(30, |_, _| RetypeOutcome::Created),
        Err(BootstrapError::NoKernelMemory)
    ));
    assert_eq!(bootstrap.checkpoint(), 50);
    let endpoint = bootstrap.allocate_fault_endpoint(4, |_, _| RetypeOutcome::Created).expect("created");
    assert_eq!(endpoint.endpoint().cap(), 50);
}

#[test]
fn exhausted_slots_stop_allocation() {
    let mut info = boot_info();
    info.empty = 50..51;
    let mut bootstrap = Bootstrap::new(&info).expect("one slot");
    assert!(bootstrap.allocate_notification(4, |_, _| RetypeOutcome::Created).is_ok());
    assert!(matches!(
        bootstrap.allocate_notification(4, |_, _| RetypeOutcome::Created),
        Err(BootstrapError::NoFreeSlots)
    ));
}

#[test]
fn first_eligible_region() {
    let info = boot_info();
    assert_eq!(first_eligible_untyped(&info, 5), Some(2));
    assert_eq!(first_eligible_untyped(&info, 17), Some(3));
    assert_eq!(first_eligible_untyped(&info, 19), None);
}

#[test]
fn image_frames_are_indexed_by_page_offset() {
    let info = boot_info();
    let bootstrap = Bootstrap::new(&info).expect("free slots");
    assert_eq!(bootstrap.image_frame(0x40_0000, 0x40_2000).map(|f| f.cap()), Ok(72));
    assert!(matches!(bootstrap.image_frame(0x40_0000, 0x3f_f000), Err(BootstrapError::InvalidImageRegion)));
    assert!(matches!(bootstrap.image_frame(0x40_0000, 0x40_0010), Err(BootstrapError::InvalidImageRegion)));
    assert!(matches!(bootstrap.image_frame(0x40_0010, 0x40_1010), Err(BootstrapError::InvalidImageRegion)));
    assert!(matches!(bootstrap.image_frame(0x40_0000, 0x40_4000), Err(BootstrapError::InvalidImageRegion)));
}

#[test]
fn rollback_deletes_newest_first_and_reuses_slots() {
    let info = boot_info();
    let mut bootstrap = Bootstrap::new(&info).expect("free slots");
    let checkpoint = bootstrap.checkpoint();
    bootstrap.allocate_frame(12, |_, _| RetypeOutcome::Created).expect("created");
    bootstrap.copy_cap(|_| true).expect("copied");
    assert_eq!(bootstrap.committed_slots(checkpoint), Ok(50..52));
    let deleted = RefCell::new(Vec::new());
    assert_eq!(
        bootstrap.rollback(checkpoint, |slot| {
            deleted.borrow_mut().push(slot);
            true
        }),
        Ok(())
    );
    assert_eq!(deleted.into_inner(), vec![51, 50]);
    assert_eq!(bootstrap.checkpoint(), 50);
    assert_eq!(bootstrap.committed_slots(49), Err(BootstrapError::RollbackFailed));
    assert_eq!(bootstrap.rollback(51, |_| true), Err(BootstrapError::RollbackFailed));
}

#[test]
fn failed_deletion_keeps_the_slots() {
    let info = boot_info();
    let mut bootstrap = Bootstrap::new(&info).expect("free slots");
    let checkpoint = bootstrap.checkpoint();
    bootstrap.copy_cap(|_| true).expect("copied");
    assert_eq!(bootstrap.rollback(checkpoint, |_| false), Err(BootstrapError::RollbackFailed));
    assert_eq!(bootstrap.checkpoint(), 51);
    assert_eq!(bootstrap.rollback(checkpoint, |_| true), Ok(()));
    assert_eq!(bootstrap.checkpoint(), 50);
}

#[test]
fn copies_commit_a_slot_only_on_success() {
    let mut slots = FreeSlots::new(5..7);
    assert_eq!(copy_to_root(&mut slots, |_| false), Err(BootstrapError::CSpaceCreationFailed));
    assert_eq!(copy_to_root(&mut slots, |slot| slot == 5), Ok(5));
    assert_eq!(copy_to_root(&mut slots, |_| true), Ok(6));
    assert_eq!(copy_to_root(&mut slots, |_| true), Err(BootstrapError::NoFreeSlots));
}

#[test]
fn deletion_stops_at_the_first_refusal() {
    let deleted = RefCell::new(Vec::new());
    let result = delete_root_slots(3..7, |slot| {
        deleted.borrow_mut().push(slot);
        slot != 4
    });
    assert_eq!(result, Err(BootstrapError::RollbackFailed));
    assert_eq!(deleted.into_inner(), vec![6, 5, 4]);
    assert_eq!(delete_root_slots(3..3, |_| false), Ok(()));
}

#[test]
fn empty_slot_ranges_are_reserved_in_one_piece() {
    let info = boot_info();
    let mut bootstrap = Bootstrap::new(&info).expect("free slots");
    assert_eq!(bootstrap.reserve_empty_slots(4), Some(50..54));
    assert_eq!(bootstrap.reserve_empty_slots(7), None);
    assert_eq!(bootstrap.reserve_empty_slots(6), Some(54..60));
}
