//! The minimal root task's bootstrap sequence: one free slot, the first
//! suitable untyped region, one notification retyped into the slot, and a
//! signal-and-wait round trip on it.
use vstd::prelude::*;
use crate::api::BootstrapError;
use crate::boot::{eligible, first_eligible_untyped, untyped_count, BootInfo};
use crate::free_slots::FreeSlots;
use crate::ipc::Notification;

verus! {

/// A single retype of untyped memory into a notification capability.
pub struct NotificationAllocator {
    /// The root slot that will hold the new notification capability.
    pub slot: usize,
    /// The root slot of the untyped capability backing the notification.
    pub untyped: usize,
}

impl NotificationAllocator {
    /// Retypes the untyped region into a notification in the slot, through
    /// `retype`, which retypes the untyped capability in the root slot it is
    /// given into the destination slot it is given and reports success. Any
    /// refusal is reported as a failed kernel allocation.
    pub fn allocate(self, retype: impl FnOnce(usize, usize) -> bool) -> (r: Result<
        Notification,
        BootstrapError,
    >)
        requires
            call_requires(retype, (self.untyped, self.slot)),
        ensures
            exists|created: bool|
                #[trigger] call_ensures(retype, (self.untyped, self.slot), created) && if created {
                    r matches Ok(notification) && notification.cap_spec() == self.slot as u64
                } else {
                    r == Err::<Notification, BootstrapError>(BootstrapError::KernelAllocationFailed)
                },
    {
        let created = retype(self.untyped, self.slot);
        if !created {
            return Err(BootstrapError::KernelAllocationFailed);
        }
        Ok(Notification::new(self.slot as u64))
    }
}

/// Executes the core bootstrap sequence: takes the first empty root slot,
/// finds the first normal-memory untyped region of at least
/// `notification_bits`, retypes a notification into the slot through
/// `retype`, and has `signal_wait` signal it and wait for the signal.
pub fn bootstrap(
    bootinfo: &BootInfo,
    notification_bits: usize,
    retype: impl FnOnce(usize, usize) -> bool,
    signal_wait: impl FnOnce(u64),
) -> (r: Result<(), BootstrapError>)
    requires
        forall|untyped: usize, slot: usize| call_requires(retype, (untyped, slot)),
        forall|cap: u64| call_requires(signal_wait, (cap,)),
    ensures
        bootinfo.empty.start >= bootinfo.empty.end ==> r == Err::<(), BootstrapError>(
            BootstrapError::NoFreeSlots,
        ),
        bootinfo.empty.start < bootinfo.empty.end && (forall|j: int|
            0 <= j < untyped_count(bootinfo) ==> !eligible(bootinfo, j, notification_bits)) ==> r
            == Err::<(), BootstrapError>(BootstrapError::NoKernelMemory),
        bootinfo.empty.start < bootinfo.empty.end ==> forall|index: int|
            0 <= index < untyped_count(bootinfo) && eligible(bootinfo, index, notification_bits) && (
            forall|j: int| 0 <= j < index ==> !eligible(bootinfo, j, notification_bits)) ==> exists|
                created: bool,
            |
                #[trigger] call_ensures(
                    retype,
                    ((bootinfo.untyped.start + index) as usize, bootinfo.empty.start),
                    created,
                ) && if created {
                    r is Ok && call_ensures(signal_wait, (bootinfo.empty.start as u64,), ())
                } else {
                    r == Err::<(), BootstrapError>(BootstrapError::KernelAllocationFailed)
                },
{
    let mut slots = FreeSlots::new(bootinfo.empty.start..bootinfo.empty.end);
    let slot = match slots.allocate() {
        Some(slot) => slot,
        None => return Err(BootstrapError::NoFreeSlots),
    };
    let index = match first_eligible_untyped(bootinfo, notification_bits) {
        Some(index) => index,
        None => return Err(BootstrapError::NoKernelMemory),
    };
    let untyped = bootinfo.untyped.start + index;
    let notification = NotificationAllocator { slot, untyped }.allocate(retype)?;
    signal_wait(notification.cap());
    Ok(())
}

} // verus!
