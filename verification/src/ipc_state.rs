//! Pure bounded state used by seL4 IPC capability paths.
use vstd::prelude::*;

verus! {

/// Slot state: no capability and no reservation.
pub const FREE: u8 = 0;
/// Slot state: reserved as the destination of one pending receive.
pub const RESERVED: u8 = 1;
/// Slot state: holds a capability.
pub const OCCUPIED: u8 = 2;

/// Monotonic nonzero badge allocation with explicit exhaustion.
pub struct BadgeSequence {
    next: usize,
}

impl View for BadgeSequence {
    type V = usize;

    /// The badge that the next allocation hands out.
    closed spec fn view(&self) -> usize {
        self.next
    }
}

impl BadgeSequence {
    #[verifier::type_invariant]
    spec fn inv(self) -> bool {
        self.next != 0
    }

    /// Starts a sequence at `first`; zero is reserved and refused.
    pub fn new(first: usize) -> (r: Option<Self>)
        ensures
            first == 0 <==> r is None,
            r matches Some(sequence) ==> sequence@ == first,
    {
        if first != 0 {
            Some(BadgeSequence { next: first })
        } else {
            None
        }
    }

    /// Hands out the next badge while a successor remains representable;
    /// the last representable word is never handed out, and exhaustion is
    /// permanent.
    pub fn allocate(&mut self) -> (r: Option<usize>)
        ensures
            old(self)@ != 0,
            old(self)@ < usize::MAX ==> r == Some(old(self)@) && final(self)@ == old(self)@ + 1,
            old(self)@ == usize::MAX ==> r is None && final(self)@ == old(self)@,
            r == badge_allocation(old(self)@),
            final(self)@ == badge_after(old(self)@, 1),
    {
        proof {
            use_type_invariant(&*self);
            reveal_with_fuel(badge_after, 2);
        }
        let badge = self.next;
        let next = match badge.checked_add(1) {
            Some(next) => next,
            None => return None,
        };
        if next == 0 {
            return None;
        }
        self.next = next;
        Some(badge)
    }
}

/// What an allocation hands out when the sequence stands at `next`.
pub open spec fn badge_allocation(next: usize) -> Option<usize> {
    if next < usize::MAX {
        Some(next)
    } else {
        None
    }
}

/// Where a sequence standing at `next` stands after `n` allocations.
pub open spec fn badge_after(next: usize, n: nat) -> usize
    decreases n,
{
    if n == 0 {
        next
    } else {
        let before = badge_after(next, (n - 1) as nat);
        if before < usize::MAX {
            (before + 1) as usize
        } else {
            before
        }
    }
}

/// A sequence started at a nonzero `first` hands out `first`, `first + 1`,
/// and so on: after `n` allocations the next one hands out `first + n`
/// while that lies below the largest word, and nothing from then on; the
/// sequence never stands at zero.
pub proof fn law_badge_sequence(first: usize, n: nat)
    requires
        first != 0,
    ensures
        badge_after(first, n) != 0,
        first + n <= usize::MAX ==> badge_after(first, n) == first + n,
        badge_allocation(badge_after(first, n)) == (if first + n < usize::MAX {
            Some((first + n) as usize)
        } else {
            None
        }),
    decreases n,
{
    if n > 0 {
        law_badge_sequence(first, (n - 1) as nat);
    }
}

/// Badges handed out by a sequence are nonzero and strictly increasing:
/// the badge of an earlier allocation is below the badge of any later one
/// that still hands one out, so no badge is handed out twice.
pub proof fn law_badges_are_unique(first: usize, earlier: nat, later: nat)
    requires
        first != 0,
        earlier < later,
        badge_allocation(badge_after(first, later)) is Some,
    ensures
        badge_allocation(badge_after(first, earlier)) is Some,
        badge_allocation(badge_after(first, earlier))->Some_0 != 0,
        badge_allocation(badge_after(first, earlier))->Some_0 < badge_allocation(
            badge_after(first, later),
        )->Some_0,
{
    law_badge_sequence(first, earlier);
    law_badge_sequence(first, later);
}

/// Failure to reserve or transition a tracked CSpace slot.
#[derive(Debug, Clone, Copy, PartialEq, Eq)]
pub enum SlotError {
    /// Slot zero is the null capability and is never a receive destination.
    Reserved,
    /// The slot falls outside the configured CNode.
    OutOfRange,
    /// The fixed bookkeeping representation cannot cover the CNode.
    CapacityTooLarge,
    /// The slot already owns a capability or another receive reservation.
    Occupied,
    /// The reservation was already consumed or belongs to different state.
    InvalidReservation,
}

/// A one-shot reservation for a capability receive destination.
pub struct SlotReservation<'a> {
    /// The reserved slot index.
    pub slot: usize,
    /// The tracked state of the reserved slot.
    pub state: &'a mut u8,
}

#[verifier::ext_equal]
/// The abstract state of a [`SlotTracker`]: its capacity and the state of
/// each bookkeeping entry.
pub struct SlotTrackerView {
    /// Number of slots in the tracked CNode.
    pub capacity: usize,
    /// State of each entry: [`FREE`], [`RESERVED`] or [`OCCUPIED`].
    pub states: Seq<u8>,
}

impl SlotTrackerView {
    /// Why a slot index cannot name a destination, if it cannot: slot zero
    /// is the null capability, and slots at or past the capacity do not
    /// exist.
    pub open spec fn index_error(self, slot: usize) -> Option<SlotError> {
        if slot == 0 {
            Some(SlotError::Reserved)
        } else if slot >= self.capacity {
            Some(SlotError::OutOfRange)
        } else {
            None
        }
    }

    /// Whether a slot can be reserved or marked occupied now, and the error
    /// otherwise.
    pub open spec fn admission(self, slot: usize) -> Result<(), SlotError> {
        match self.index_error(slot) {
            Some(e) => Err(e),
            None => if self.states[slot as int] != FREE {
                Err(SlotError::Occupied)
            } else {
                Ok(())
            },
        }
    }

    /// The same tracker with one entry changed.
    pub open spec fn with_state(self, slot: usize, state: u8) -> SlotTrackerView {
        SlotTrackerView { capacity: self.capacity, states: self.states.update(slot as int, state) }
    }
}

/// Fixed-capacity ownership state for one single-level CSpace.
pub struct SlotTracker {
    capacity: usize,
    states: [u8; 256],
}

impl View for SlotTracker {
    type V = SlotTrackerView;

    closed spec fn view(&self) -> SlotTrackerView {
        SlotTrackerView { capacity: self.capacity, states: self.states@ }
    }
}

impl SlotTracker {
    /// The tracker never covers more slots than it has entries for.
    #[verifier::type_invariant]
    spec fn capacity_fits(self) -> bool {
        self.capacity <= 256
    }

    /// Maximum CSpace size supported by the bounded task representation.
    pub const MAX_SLOTS: usize = 256;

    /// The tracker covers at most [`SlotTracker::MAX_SLOTS`] slots, one
    /// bookkeeping entry each.
    pub open spec fn well_formed(v: SlotTrackerView) -> bool {
        v.capacity <= 256 && v.states.len() == 256
    }

    /// Constructs valid slot bookkeeping for a checked capacity.
    pub fn try_new(capacity: usize) -> (r: Result<Self, SlotError>)
        ensures
            capacity > Self::MAX_SLOTS <==> r is Err,
            r matches Err(e) ==> e == SlotError::CapacityTooLarge,
            r matches Ok(tracker) ==> tracker@.capacity == capacity && Self::well_formed(tracker@)
                && forall|i: int| 0 <= i < 256 ==> #[trigger] tracker@.states[i] == FREE,
    {
        if capacity > Self::MAX_SLOTS {
            return Err(SlotError::CapacityTooLarge);
        }
        Ok(SlotTracker { capacity, states: [FREE; 256] })
    }

    /// Constructs bookkeeping for a capacity known to be representable.
    pub fn new(capacity: usize) -> (r: Self)
        requires
            capacity <= Self::MAX_SLOTS,
        ensures
            r@.capacity == capacity,
            Self::well_formed(r@),
            forall|i: int| 0 <= i < 256 ==> #[trigger] r@.states[i] == FREE,
    {
        SlotTracker { capacity, states: [FREE; 256] }
    }

    /// Records a capability installed during CSpace construction.
    pub fn mark_occupied(&mut self, slot: usize) -> (r: Result<(), SlotError>)
        ensures
            r == old(self)@.admission(slot),
            r is Ok ==> final(self)@ == old(self)@.with_state(slot, OCCUPIED),
            r is Err ==> final(self)@ == old(self)@,
    {
        proof {
            use_type_invariant(&*self);
        }
        let state = self.state_mut(slot)?;
        if *state != FREE {
            proof {
                lemma_rewrite_same_state(old(self)@, slot);
            }
            return Err(SlotError::Occupied);
        }
        *state = OCCUPIED;
        Ok(())
    }

    /// Reserves an empty slot before configuring an IPC receive path.
    pub fn reserve(&mut self, slot: usize) -> (r: Result<SlotReservation<'_>, SlotError>)
        ensures
            old(self)@.admission(slot) is Ok <==> r is Ok,
            match r {
                Ok(reservation) => reservation.slot == slot && *reservation.state == RESERVED
                    && final(self)@ == old(self)@.with_state(slot, *final(reservation.state)),
                Err(e) => old(self)@.admission(slot) == Err::<(), SlotError>(e) && final(self)@
                    == old(self)@,
            },
    {
        proof {
            use_type_invariant(&*self);
        }
        let state = self.state_mut(slot)?;
        if *state != FREE {
            proof {
                lemma_rewrite_same_state(old(self)@, slot);
            }
            return Err(SlotError::Occupied);
        }
        *state = RESERVED;
        Ok(SlotReservation { slot, state })
    }

    /// Commits a receive destination after seL4 installed a capability.
    pub fn commit(reservation: SlotReservation<'_>) -> (r: Result<(), SlotError>)
        ensures
            *old(reservation.state) == RESERVED <==> r is Ok,
            r is Ok ==> *final(reservation.state) == OCCUPIED,
            r is Err ==> r == Err::<(), SlotError>(SlotError::InvalidReservation)
                && *final(reservation.state) == *old(reservation.state),
    {
        if *reservation.state != RESERVED {
            return Err(SlotError::InvalidReservation);
        }
        *reservation.state = OCCUPIED;
        Ok(())
    }

    /// Releases a reservation after a receive transferred no capability.
    pub fn cancel(reservation: SlotReservation<'_>) -> (r: Result<(), SlotError>)
        ensures
            *old(reservation.state) == RESERVED <==> r is Ok,
            r is Ok ==> *final(reservation.state) == FREE,
            r is Err ==> r == Err::<(), SlotError>(SlotError::InvalidReservation)
                && *final(reservation.state) == *old(reservation.state),
    {
        if *reservation.state != RESERVED {
            return Err(SlotError::InvalidReservation);
        }
        *reservation.state = FREE;
        Ok(())
    }

    /// Returns the reserved slot index.
    pub fn reservation_slot(reservation: &SlotReservation<'_>) -> (r: usize)
        ensures
            r == reservation.slot,
    {
        reservation.slot
    }

    fn state_mut(&mut self, slot: usize) -> (r: Result<&mut u8, SlotError>)
        ensures
            match r {
                Ok(state) => old(self)@.index_error(slot) is None && *state == old(
                    self,
                )@.states[slot as int] && final(self)@ == old(self)@.with_state(slot, *final(state)),
                Err(e) => old(self)@.index_error(slot) == Some(e) && final(self)@ == old(self)@,
            },
    {
        proof {
            use_type_invariant(&*self);
        }
        if slot == 0 {
            return Err(SlotError::Reserved);
        }
        if slot >= self.capacity || slot >= self.states.len() {
            return Err(SlotError::OutOfRange);
        }
        Ok(entry_mut(&mut self.states, slot))
    }
}

/// The bookkeeping entry of one slot.
fn entry_mut(states: &mut [u8; 256], slot: usize) -> (r: &mut u8)
    requires
        slot < 256,
    ensures
        *r == old(states)@[slot as int],
        final(states)@ == old(states)@.update(slot as int, *final(r)),
    no_unwind
{
    &mut states[slot]
}

proof fn lemma_rewrite_same_state(v: SlotTrackerView, slot: usize)
    requires
        slot < v.states.len(),
    ensures
        v.with_state(slot, v.states[slot as int]) == v,
{
    assert(v.with_state(slot, v.states[slot as int]) =~= v);
}

/// A reservation that is cancelled leaves the tracker exactly as it was
/// before the slot was reserved.
pub proof fn law_cancel_restores_tracker(before: SlotTrackerView, slot: usize)
    requires
        SlotTracker::well_formed(before),
        before.admission(slot) is Ok,
    ensures
        before.with_state(slot, RESERVED).with_state(slot, FREE) == before,
{
    assert(before.with_state(slot, RESERVED).with_state(slot, FREE).states =~= before.states);
}

/// A committed destination owns its capability: it can be neither reserved
/// nor marked occupied again.
pub proof fn law_committed_slot_is_not_reusable(before: SlotTrackerView, slot: usize)
    requires
        SlotTracker::well_formed(before),
        before.admission(slot) is Ok,
    ensures
        before.with_state(slot, OCCUPIED).admission(slot) == Err::<(), SlotError>(SlotError::Occupied),
{
}

} // verus!
