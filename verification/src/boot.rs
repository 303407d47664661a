//! Boot-time resources for single-threaded substrate initialization.
use vstd::prelude::*;
use core::ops::Range;
use crate::errors::BootstrapError;
use crate::free_slots::{FreeSlots, FreeSlotsView};
use crate::fault::FaultEndpoint;
use crate::ipc::{Endpoint, EndpointView, Notification, ReplyPool, ReplyPoolView, MAX_DEFERRED_REPLIES};
use crate::vspace::Frame;

verus! {

/// What the boot information says of one untyped memory region.
#[derive(Debug, Clone, Copy, PartialEq, Eq)]
pub struct UntypedDescriptor {
    /// Size of the region in address bits.
    pub size_bits: usize,
    /// Whether the region is device memory.
    pub is_device: bool,
}

/// The parts of the kernel's boot information that the substrate reads:
/// the free root slots, the root slots of the untyped capabilities with
/// their descriptors, and the root slots of the initial image's frames.
pub struct BootInfo {
    /// Empty root CSpace slots.
    pub empty: Range<usize>,
    /// Root slots holding the untyped capabilities.
    pub untyped: Range<usize>,
    /// Descriptors of the untyped regions, in slot order.
    pub untyped_list: Vec<UntypedDescriptor>,
    /// Root slots holding the frames of the initial image, in address order.
    pub user_image_frames: Range<usize>,
}

/// How an attempt to retype one untyped region ended.
#[derive(Debug, Clone, Copy, PartialEq, Eq)]
pub enum RetypeOutcome {
    /// The object was created in the destination slot.
    Created,
    /// The region had too little memory left; the destination stays empty.
    NotEnoughMemory,
    /// The kernel refused the retype for another reason.
    Failed,
}

/// Number of untyped regions that are both described and held in a slot.
pub open spec fn untyped_count(bootinfo: &BootInfo) -> int {
    let slots = if bootinfo.untyped.start <= bootinfo.untyped.end {
        bootinfo.untyped.end - bootinfo.untyped.start
    } else {
        0
    };
    if bootinfo.untyped_list@.len() < slots {
        bootinfo.untyped_list@.len() as int
    } else {
        slots
    }
}

/// Region `index` is normal memory large enough for an object of
/// `size_bits`.
pub open spec fn eligible(bootinfo: &BootInfo, index: int, size_bits: usize) -> bool {
    !bootinfo.untyped_list@[index].is_device && bootinfo.untyped_list@[index].size_bits >= size_bits
}

/// A region is suitable for an object exactly when it is normal memory of
/// at least the object's size; a region of exactly that size is suitable.
pub proof fn law_suitable_regions(bootinfo: &BootInfo, index: int, size_bits: usize)
    requires
        0 <= index < bootinfo.untyped_list@.len(),
    ensures
        eligible(bootinfo, index, size_bits) <==> !bootinfo.untyped_list@[index].is_device
            && bootinfo.untyped_list@[index].size_bits >= size_bits,
        !bootinfo.untyped_list@[index].is_device && bootinfo.untyped_list@[index].size_bits == size_bits
            ==> eligible(bootinfo, index, size_bits),
{
}

/// Every suitable region before region `index`, in boot-information
/// order, reported too little memory when handed to `retype` with
/// destination `slot`.
pub open spec fn passed_over<F: Fn(usize, usize) -> RetypeOutcome>(
    bootinfo: &BootInfo,
    retype: F,
    size_bits: usize,
    slot: usize,
    index: int,
) -> bool {
    forall|j: int|
        0 <= j < index && eligible(bootinfo, j, size_bits) ==> #[trigger] call_ensures(
            retype,
            ((bootinfo.untyped.start + j) as usize, slot),
            RetypeOutcome::NotEnoughMemory,
        )
}

/// Region `index` is the first suitable region, in boot-information order,
/// that did not report too little memory, and handed to `retype` with
/// destination `slot` it ended with `outcome`.
pub open spec fn first_fit_outcome<F: Fn(usize, usize) -> RetypeOutcome>(
    bootinfo: &BootInfo,
    retype: F,
    size_bits: usize,
    slot: usize,
    index: int,
    outcome: RetypeOutcome,
) -> bool {
    &&& 0 <= index < untyped_count(bootinfo)
    &&& eligible(bootinfo, index, size_bits)
    &&& passed_over(bootinfo, retype, size_bits, slot, index)
    &&& call_ensures(retype, ((bootinfo.untyped.start + index) as usize, slot), outcome)
}

/// A first-fit outcome observed through a reference to `retype` is one of
/// `retype` itself.
pub proof fn lemma_first_fit_through_reference<F: Fn(usize, usize) -> RetypeOutcome>(
    bootinfo: &BootInfo,
    retype: F,
    size_bits: usize,
    slot: usize,
    index: int,
    outcome: RetypeOutcome,
)
    requires
        first_fit_outcome(bootinfo, &retype, size_bits, slot, index, outcome),
    ensures
        first_fit_outcome(bootinfo, retype, size_bits, slot, index, outcome),
{
    assert forall|j: int| 0 <= j < index && eligible(bootinfo, j, size_bits) implies #[trigger] call_ensures(
        retype,
        ((bootinfo.untyped.start + j) as usize, slot),
        RetypeOutcome::NotEnoughMemory,
    ) by {
        assert(call_ensures(&retype, ((bootinfo.untyped.start + j) as usize, slot), RetypeOutcome::NotEnoughMemory));
    }
}

/// A refused allocation observed through a reference to `retype` is one of
/// `retype` itself.
pub proof fn lemma_refusal_through_reference<F: Fn(usize, usize) -> RetypeOutcome>(
    bootinfo: &BootInfo,
    retype: F,
    size_bits: usize,
    slots: FreeSlotsView,
    error: BootstrapError,
)
    requires
        allocation_refused(bootinfo, &retype, size_bits, slots, error),
    ensures
        allocation_refused(bootinfo, retype, size_bits, slots, error),
{
    if error == BootstrapError::KernelAllocationFailed {
        let i = choose|i: int|
            first_fit_outcome(bootinfo, &retype, size_bits, slots.next, i, RetypeOutcome::Failed);
        lemma_first_fit_through_reference(bootinfo, retype, size_bits, slots.next, i, RetypeOutcome::Failed);
    } else if error == BootstrapError::NoKernelMemory {
        assert forall|j: int|
            0 <= j < untyped_count(bootinfo) && eligible(bootinfo, j, size_bits) implies #[trigger] call_ensures(
            retype,
            ((bootinfo.untyped.start + j) as usize, slots.next),
            RetypeOutcome::NotEnoughMemory,
        ) by {
            assert(call_ensures(&retype, ((bootinfo.untyped.start + j) as usize, slots.next), RetypeOutcome::NotEnoughMemory));
        }
    }
}

/// The suitable regions were tried in boot-information order with
/// destination `slot`, every one before the first that created the object
/// reporting too little memory.
pub open spec fn created_by<F: Fn(usize, usize) -> RetypeOutcome>(
    bootinfo: &BootInfo,
    retype: F,
    size_bits: usize,
    slot: usize,
) -> bool {
    exists|i: int| first_fit_outcome(bootinfo, retype, size_bits, slot, i, RetypeOutcome::Created)
}

/// Why an object of `size_bits` could not be created in the next slot of
/// `slots`: no slot is free; every suitable region reported too little
/// memory; or, in boot-information order, the first suitable region that
/// did not report too little memory refused the retype.
pub open spec fn allocation_refused<F: Fn(usize, usize) -> RetypeOutcome>(
    bootinfo: &BootInfo,
    retype: F,
    size_bits: usize,
    slots: FreeSlotsView,
    error: BootstrapError,
) -> bool {
    match error {
        BootstrapError::NoFreeSlots => slots.is_exhausted(),
        BootstrapError::NoKernelMemory => !slots.is_exhausted() && passed_over(
            bootinfo,
            retype,
            size_bits,
            slots.next,
            untyped_count(bootinfo),
        ),
        BootstrapError::KernelAllocationFailed => !slots.is_exhausted() && exists|i: int|
            first_fit_outcome(bootinfo, retype, size_bits, slots.next, i, RetypeOutcome::Failed),
        _ => false,
    }
}

/// The first region, if any, that is normal memory large enough for an
/// object of `size_bits`.
pub fn first_eligible_untyped(bootinfo: &BootInfo, size_bits: usize) -> (r: Option<usize>)
    ensures
        match r {
            Some(index) => 0 <= index < untyped_count(bootinfo) && eligible(bootinfo, index as int, size_bits)
                && forall|j: int| 0 <= j < index ==> !eligible(bootinfo, j, size_bits),
            None => forall|j: int| 0 <= j < untyped_count(bootinfo) ==> !eligible(bootinfo, j, size_bits),
        },
{
    let slots = if bootinfo.untyped.start <= bootinfo.untyped.end {
        bootinfo.untyped.end - bootinfo.untyped.start
    } else {
        0
    };
    let count = if bootinfo.untyped_list.len() < slots {
        bootinfo.untyped_list.len()
    } else {
        slots
    };
    let mut index: usize = 0;
    while index < count
        invariant
            index <= count,
            count == untyped_count(bootinfo),
            count <= bootinfo.untyped_list@.len(),
            forall|j: int| 0 <= j < index ==> !eligible(bootinfo, j, size_bits),
        decreases count - index,
    {
        let descriptor = bootinfo.untyped_list[index];
        if !descriptor.is_device && descriptor.size_bits >= size_bits {
            return Some(index);
        }
        index = index + 1;
    }
    None
}

/// Retypes the first suitable untyped region into an object of
/// `size_bits` in `slot`, through `retype`, which retypes the untyped
/// capability in the root slot it is given into the destination slot it is
/// given. Device regions and regions too small are skipped; a region that
/// reports too little memory is passed over.
pub fn retype_first_fit(
    bootinfo: &BootInfo,
    size_bits: usize,
    slot: usize,
    retype: &impl Fn(usize, usize) -> RetypeOutcome,
) -> (r: Result<usize, BootstrapError>)
    requires
        forall|untyped: usize, destination: usize| call_requires(*retype, (untyped, destination)),
    ensures
        match r {
            Ok(created) => created == slot && created_by(bootinfo, *retype, size_bits, slot),
            Err(BootstrapError::KernelAllocationFailed) => exists|i: int|
                first_fit_outcome(bootinfo, *retype, size_bits, slot, i, RetypeOutcome::Failed),
            Err(BootstrapError::NoKernelMemory) => passed_over(
                bootinfo,
                *retype,
                size_bits,
                slot,
                untyped_count(bootinfo),
            ),
            Err(_) => false,
        },
{
    let slots = if bootinfo.untyped.start <= bootinfo.untyped.end {
        bootinfo.untyped.end - bootinfo.untyped.start
    } else {
        0
    };
    let count = if bootinfo.untyped_list.len() < slots {
        bootinfo.untyped_list.len()
    } else {
        slots
    };
    let mut index: usize = 0;
    while index < count
        invariant
            index <= count,
            count == untyped_count(bootinfo),
            count <= bootinfo.untyped_list@.len(),
            bootinfo.untyped.start + count <= usize::MAX,
            forall|untyped: usize, destination: usize| call_requires(*retype, (untyped, destination)),
            passed_over(bootinfo, *retype, size_bits, slot, index as int),
        decreases count - index,
    {
        let descriptor = bootinfo.untyped_list[index];
        if descriptor.is_device || descriptor.size_bits < size_bits {
            index = index + 1;
            continue;
        }
        let untyped = bootinfo.untyped.start + index;
        let outcome = retype(untyped, slot);
        assert(eligible(bootinfo, index as int, size_bits));
        assert(untyped == (bootinfo.untyped.start + index as int) as usize);
        match outcome {
            RetypeOutcome::Created => {
                assert(first_fit_outcome(bootinfo, *retype, size_bits, slot, index as int, RetypeOutcome::Created));
                return Ok(slot);
            },
            RetypeOutcome::NotEnoughMemory => {},
            RetypeOutcome::Failed => {
                assert(first_fit_outcome(bootinfo, *retype, size_bits, slot, index as int, RetypeOutcome::Failed));
                return Err(BootstrapError::KernelAllocationFailed);
            },
        }
        index = index + 1;
    }
    Err(BootstrapError::NoKernelMemory)
}

/// Owns allocation from the initial thread's free capability slots.
/// Construct once from the entrypoint's boot information before allocating
/// objects.
pub struct Bootstrap<'a> {
    bootinfo: &'a BootInfo,
    slots: FreeSlots,
}

impl<'a> Bootstrap<'a> {
    /// The boot information this bootstrap allocates from.
    pub closed spec fn bootinfo_spec(&self) -> &'a BootInfo {
        self.bootinfo
    }

    /// The slot accounting of this bootstrap.
    pub closed spec fn slots_spec(&self) -> FreeSlotsView {
        self.slots@
    }

    /// Initializes free-slot accounting from the root-task entrypoint ABI.
    pub fn new(bootinfo: &'a BootInfo) -> (r: Result<Self, BootstrapError>)
        ensures
            !(bootinfo.empty.start < bootinfo.empty.end) <==> r is Err,
            r matches Err(e) ==> e == BootstrapError::NoFreeSlots,
            r matches Ok(bootstrap) ==> bootstrap.bootinfo_spec() == bootinfo
                && bootstrap.slots_spec() == (FreeSlotsView {
                first: bootinfo.empty.start,
                next: bootinfo.empty.start,
                end: bootinfo.empty.end,
            }),
    {
        if !(bootinfo.empty.start < bootinfo.empty.end) {
            return Err(BootstrapError::NoFreeSlots);
        }
        let empty = bootinfo.empty.start..bootinfo.empty.end;
        Ok(Bootstrap { bootinfo, slots: FreeSlots::new(empty) })
    }

    /// Returns the boot information this bootstrap allocates from.
    pub fn bootinfo(&self) -> (r: &'a BootInfo)
        ensures
            r == self.bootinfo_spec(),
    {
        self.bootinfo
    }

    /// Creates an object of `size_bits` from normal RAM in the next free
    /// root slot through `retype`, committing the slot only when an untyped
    /// region accepted the retype.
    pub fn allocate_blueprint(&mut self, size_bits: usize, retype: impl Fn(usize, usize) -> RetypeOutcome) -> (r: Result<usize, BootstrapError>)
        requires
            forall|untyped: usize, destination: usize| call_requires(retype, (untyped, destination)),
        ensures
            final(self).bootinfo_spec() == old(self).bootinfo_spec(),
            old(self).slots_spec().is_exhausted() ==> r == Err::<usize, BootstrapError>(BootstrapError::NoFreeSlots)
                && final(self).slots_spec() == old(self).slots_spec(),
            r matches Ok(slot) ==> slot == old(self).slots_spec().next && final(self).slots_spec()
                == old(self).slots_spec().advanced() && created_by(old(self).bootinfo_spec(), retype, size_bits, slot),
            r matches Err(e) ==> final(self).slots_spec() == old(self).slots_spec() && allocation_refused(
                old(self).bootinfo_spec(),
                retype,
                size_bits,
                old(self).slots_spec(),
                e,
            ),
    {
        let bootinfo = self.bootinfo;
        let result = self.slots.try_allocate(
            (|index: usize| -> (r: Result<usize, BootstrapError>)
                ensures
                    match r {
                        Ok(created) => created == index && created_by(bootinfo, retype, size_bits, index),
                        Err(BootstrapError::KernelAllocationFailed) => exists|i: int|
                            first_fit_outcome(bootinfo, retype, size_bits, index, i, RetypeOutcome::Failed),
                        Err(BootstrapError::NoKernelMemory) => passed_over(
                            bootinfo,
                            retype,
                            size_bits,
                            index,
                            untyped_count(bootinfo),
                        ),
                        Err(_) => false,
                    },
                { retype_first_fit(bootinfo, size_bits, index, &retype) }),
        );
        match result {
            Ok(Some(slot)) => Ok(slot),
            Ok(None) => Err(BootstrapError::NoFreeSlots),
            Err(error) => Err(error),
        }
    }

    /// Creates a notification from normal RAM; `size_bits` is the
    /// notification object's physical size.
    pub fn allocate_notification(&mut self, size_bits: usize, retype: impl Fn(usize, usize) -> RetypeOutcome) -> (r: Result<Notification, BootstrapError>)
        requires
            forall|untyped: usize, destination: usize| call_requires(retype, (untyped, destination)),
        ensures
            final(self).bootinfo_spec() == old(self).bootinfo_spec(),
            old(self).slots_spec().is_exhausted() ==> (r matches Err(e) && e == BootstrapError::NoFreeSlots),
            r matches Ok(notification) ==> notification.cap_spec() == old(self).slots_spec().next as u64
                && final(self).slots_spec() == old(self).slots_spec().advanced()
                && created_by(old(self).bootinfo_spec(), retype, size_bits, old(self).slots_spec().next),
            r matches Err(e) ==> final(self).slots_spec() == old(self).slots_spec() && allocation_refused(
                old(self).bootinfo_spec(),
                retype,
                size_bits,
                old(self).slots_spec(),
                e,
            ),
    {
        match self.allocate_blueprint(size_bits, retype) {
            Ok(slot) => Ok(Notification::new(slot as u64)),
            Err(error) => Err(error),
        }
    }

    /// Creates one base-page frame from normal RAM; `size_bits` is the
    /// frame object's physical size.
    pub fn allocate_frame(&mut self, size_bits: usize, retype: impl Fn(usize, usize) -> RetypeOutcome) -> (r: Result<Frame, BootstrapError>)
        requires
            forall|untyped: usize, destination: usize| call_requires(retype, (untyped, destination)),
        ensures
            final(self).bootinfo_spec() == old(self).bootinfo_spec(),
            old(self).slots_spec().is_exhausted() ==> (r matches Err(e) && e == BootstrapError::NoFreeSlots),
            r matches Ok(frame) ==> frame@ == old(self).slots_spec().next as u64
                && final(self).slots_spec() == old(self).slots_spec().advanced()
                && created_by(old(self).bootinfo_spec(), retype, size_bits, old(self).slots_spec().next),
            r matches Err(e) ==> final(self).slots_spec() == old(self).slots_spec() && allocation_refused(
                old(self).bootinfo_spec(),
                retype,
                size_bits,
                old(self).slots_spec(),
                e,
            ),
    {
        match self.allocate_blueprint(size_bits, retype) {
            Ok(slot) => Ok(Frame::new(slot as u64)),
            Err(error) => Err(error),
        }
    }

    /// Allocates an endpoint holding no reply authority; `size_bits` is the
    /// endpoint object's physical size.
    pub fn allocate_endpoint(&mut self, size_bits: usize, retype: impl Fn(usize, usize) -> RetypeOutcome) -> (r: Result<Endpoint, BootstrapError>)
        requires
            forall|untyped: usize, destination: usize| call_requires(retype, (untyped, destination)),
        ensures
            final(self).bootinfo_spec() == old(self).bootinfo_spec(),
            old(self).slots_spec().is_exhausted() ==> (r matches Err(e) && e == BootstrapError::NoFreeSlots),
            r matches Ok(endpoint) ==> endpoint@ == (EndpointView { cap: old(self).slots_spec().next as u64, reply_pending: false })
                && final(self).slots_spec() == old(self).slots_spec().advanced()
                && created_by(old(self).bootinfo_spec(), retype, size_bits, old(self).slots_spec().next),
            r matches Err(e) ==> final(self).slots_spec() == old(self).slots_spec() && allocation_refused(
                old(self).bootinfo_spec(),
                retype,
                size_bits,
                old(self).slots_spec(),
                e,
            ),
    {
        match self.allocate_blueprint(size_bits, retype) {
            Ok(slot) => Ok(Endpoint::new(slot as u64)),
            Err(error) => Err(error),
        }
    }

    /// Allocates a generic endpoint and exposes its fault-specific adapter.
    pub fn allocate_fault_endpoint(&mut self, size_bits: usize, retype: impl Fn(usize, usize) -> RetypeOutcome) -> (r: Result<FaultEndpoint, BootstrapError>)
        requires
            forall|untyped: usize, destination: usize| call_requires(retype, (untyped, destination)),
        ensures
            final(self).bootinfo_spec() == old(self).bootinfo_spec(),
            old(self).slots_spec().is_exhausted() ==> (r matches Err(e) && e == BootstrapError::NoFreeSlots),
            r matches Ok(endpoint) ==> endpoint@ == (EndpointView { cap: old(self).slots_spec().next as u64, reply_pending: false })
                && final(self).slots_spec() == old(self).slots_spec().advanced()
                && created_by(old(self).bootinfo_spec(), retype, size_bits, old(self).slots_spec().next),
            r matches Err(e) ==> final(self).slots_spec() == old(self).slots_spec() && allocation_refused(
                old(self).bootinfo_spec(),
                retype,
                size_bits,
                old(self).slots_spec(),
                e,
            ),
    {
        match self.allocate_endpoint(size_bits, retype) {
            Ok(endpoint) => Ok(FaultEndpoint::new(endpoint)),
            Err(error) => Err(error),
        }
    }

    /// Marks the start of an atomic construction sequence.
    pub fn checkpoint(&self) -> (r: usize)
        ensures
            r == self.slots_spec().next,
            self.slots_spec().valid_checkpoint(r),
    {
        self.slots.checkpoint()
    }

    /// Returns the resource slots retained since `checkpoint`.
    pub fn committed_slots(&self, checkpoint: usize) -> (r: Result<Range<usize>, BootstrapError>)
        ensures
            self.slots_spec().valid_checkpoint(checkpoint) ==> r == Ok::<Range<usize>, BootstrapError>(
                Range { start: checkpoint, end: self.slots_spec().next },
            ),
            !self.slots_spec().valid_checkpoint(checkpoint) ==> r == Err::<Range<usize>, BootstrapError>(
                BootstrapError::RollbackFailed,
            ),
    {
        match self.slots.allocated_since(checkpoint) {
            Some(slots) => Ok(slots),
            None => Err(BootstrapError::RollbackFailed),
        }
    }

    /// Deletes a failed allocation suffix, newest slot first, through
    /// `delete`, which deletes the capability in the root slot it is given,
    /// before making the slots reusable.
    pub fn rollback(&mut self, checkpoint: usize, delete: impl Fn(usize) -> bool) -> (r: Result<(), BootstrapError>)
        requires
            forall|slot: usize| call_requires(delete, (slot,)),
        ensures
            final(self).bootinfo_spec() == old(self).bootinfo_spec(),
            !old(self).slots_spec().valid_checkpoint(checkpoint) ==> r == Err::<(), BootstrapError>(
                BootstrapError::RollbackFailed,
            ) && final(self).slots_spec() == old(self).slots_spec(),
            r is Ok ==> old(self).slots_spec().valid_checkpoint(checkpoint) && final(self).slots_spec()
                == old(self).slots_spec().rewound(checkpoint) && forall|slot: usize|
                checkpoint <= slot < old(self).slots_spec().next ==> call_ensures(delete, (slot,), true),
            r matches Err(e) ==> e == BootstrapError::RollbackFailed && final(self).slots_spec() == old(self).slots_spec(),
            old(self).slots_spec().valid_checkpoint(checkpoint) && checkpoint == old(self).slots_spec().next ==> r is Ok,
            old(self).slots_spec().valid_checkpoint(checkpoint) && r is Err ==> exists|slot: usize|
                checkpoint <= slot < old(self).slots_spec().next && call_ensures(delete, (slot,), false),
    {
        let slots = self.committed_slots(checkpoint)?;
        crate::cspace::delete_root_slots(slots, delete)?;
        if !self.slots.rewind(checkpoint) {
            return Err(BootstrapError::RollbackFailed);
        }
        Ok(())
    }

    /// Derives a root-held capability in the next free slot through `copy`,
    /// which copies the source into the destination slot it is given.
    pub fn copy_cap(&mut self, copy: impl FnOnce(usize) -> bool) -> (r: Result<usize, BootstrapError>)
        requires
            forall|slot: usize| call_requires(copy, (slot,)),
        ensures
            final(self).bootinfo_spec() == old(self).bootinfo_spec(),
            old(self).slots_spec().is_exhausted() ==> r == Err::<usize, BootstrapError>(BootstrapError::NoFreeSlots)
                && final(self).slots_spec() == old(self).slots_spec(),
            r matches Ok(slot) ==> slot == old(self).slots_spec().next && final(self).slots_spec()
                == old(self).slots_spec().advanced() && call_ensures(copy, (slot,), true),
            r matches Err(e) ==> final(self).slots_spec() == old(self).slots_spec() && (e
                == BootstrapError::NoFreeSlots || (e == BootstrapError::CSpaceCreationFailed
                && call_ensures(copy, (old(self).slots_spec().next,), false))),
            r matches Err(e) ==> (e == BootstrapError::NoFreeSlots ==> old(self).slots_spec().is_exhausted()),
    {
        crate::cspace::copy_to_root(&mut self.slots, copy)
    }

    /// Takes `count` consecutive free root slots, if that many remain.
    pub fn reserve_empty_slots(&mut self, count: usize) -> (r: Option<Range<usize>>)
        ensures
            final(self).bootinfo_spec() == old(self).bootinfo_spec(),
            old(self).slots_spec().next + count <= old(self).slots_spec().end ==> r == Some(
                Range { start: old(self).slots_spec().next, end: (old(self).slots_spec().next + count) as usize },
            ) && final(self).slots_spec() == (FreeSlotsView {
                first: old(self).slots_spec().first,
                next: (old(self).slots_spec().next + count) as usize,
                end: old(self).slots_spec().end,
            }),
            !(old(self).slots_spec().next + count <= old(self).slots_spec().end) ==> r is None
                && final(self).slots_spec() == old(self).slots_spec(),
    {
        self.slots.allocate_range(count)
    }

    /// Reserves reusable root slots for independently retained classic
    /// replies.
    pub fn allocate_reply_pool(&mut self, capacity: usize) -> (r: Result<ReplyPool, BootstrapError>)
        ensures
            final(self).bootinfo_spec() == old(self).bootinfo_spec(),
            (capacity == 0 || capacity > MAX_DEFERRED_REPLIES) ==> r == Err::<ReplyPool, BootstrapError>(
                BootstrapError::InvalidTaskConfiguration,
            ) && final(self).slots_spec() == old(self).slots_spec(),
            !(capacity == 0 || capacity > MAX_DEFERRED_REPLIES) && !(old(self).slots_spec().next + capacity
                <= old(self).slots_spec().end) ==> r == Err::<ReplyPool, BootstrapError>(
                BootstrapError::NoFreeSlots,
            ) && final(self).slots_spec() == old(self).slots_spec(),
            r matches Ok(pool) ==> 0 < capacity <= MAX_DEFERRED_REPLIES && pool@ == (ReplyPoolView {
                start: old(self).slots_spec().next,
                end: (old(self).slots_spec().next + capacity) as usize,
                occupied: 0,
            }) && final(self).slots_spec() == (FreeSlotsView {
                first: old(self).slots_spec().first,
                next: (old(self).slots_spec().next + capacity) as usize,
                end: old(self).slots_spec().end,
            }),
    {
        if capacity == 0 || capacity > MAX_DEFERRED_REPLIES {
            return Err(BootstrapError::InvalidTaskConfiguration);
        }
        let slots = match self.reserve_empty_slots(capacity) {
            Some(slots) => slots,
            None => return Err(BootstrapError::NoFreeSlots),
        };
        Ok(ReplyPool::with_slots(slots))
    }

    /// Obtains the frame backing a page in the initial image: the page at
    /// `address` of an image loaded at `image_start`.
    pub fn image_frame(&self, image_start: usize, address: usize) -> (r: Result<Frame, BootstrapError>)
        ensures
            ({
                let frames = self.bootinfo_spec().user_image_frames;
                let count = if frames.start <= frames.end { frames.end - frames.start } else { 0 };
                if address >= image_start && image_start % Frame::BYTES == 0 && address % Frame::BYTES == 0
                    && (address - image_start) / (Frame::BYTES as int) < count {
                    r matches Ok(frame) && frame@ == frames.start + (address - image_start) / (Frame::BYTES as int)
                } else {
                    r matches Err(e) && e == BootstrapError::InvalidImageRegion
                }
            }),
    {
        let offset = match address.checked_sub(image_start) {
            Some(offset) => offset,
            None => return Err(BootstrapError::InvalidImageRegion),
        };
        let frames = &self.bootinfo.user_image_frames;
        let count = if frames.start <= frames.end {
            frames.end - frames.start
        } else {
            0
        };
        if !image_start.is_multiple_of(Frame::BYTES) || !address.is_multiple_of(Frame::BYTES)
            || offset / Frame::BYTES >= count {
            return Err(BootstrapError::InvalidImageRegion);
        }
        let slot = frames.start + offset / Frame::BYTES;
        Ok(Frame::new(slot as u64))
    }
}

} // verus!
