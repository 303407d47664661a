//! Slot allocation management for single-threaded contexts.
use vstd::prelude::*;
use core::ops::Range;

verus! {

/// The abstract state of a [`FreeSlots`] allocator: the first index it was
/// created with, the next index it hands out, and the exclusive end.
pub struct FreeSlotsView {
    /// First index of the managed range; checkpoints below it are invalid.
    pub first: usize,
    /// Next index to hand out.
    pub next: usize,
    /// Exclusive end of the managed range.
    pub end: usize,
}

impl FreeSlotsView {
    /// No index is left to hand out.
    pub open spec fn is_exhausted(self) -> bool {
        !(self.next < self.end)
    }

    /// The state after handing out the next index.
    pub open spec fn advanced(self) -> FreeSlotsView {
        FreeSlotsView { first: self.first, next: (self.next + 1) as usize, end: self.end }
    }

    /// A checkpoint may be rewound to while it lies between the first index
    /// and the next one.
    pub open spec fn valid_checkpoint(self, checkpoint: usize) -> bool {
        self.first <= checkpoint && checkpoint <= self.next
    }

    /// What one allocation hands out from this state.
    pub open spec fn allocation(self) -> Option<usize> {
        if self.is_exhausted() {
            None
        } else {
            Some(self.next)
        }
    }

    /// The state after one allocation.
    pub open spec fn after_allocation(self) -> FreeSlotsView {
        if self.is_exhausted() {
            self
        } else {
            self.advanced()
        }
    }

    /// The state after `n` allocations.
    pub open spec fn after_allocations(self, n: nat) -> FreeSlotsView
        decreases n,
    {
        if n == 0 {
            self
        } else {
            self.after_allocations((n - 1) as nat).after_allocation()
        }
    }

    /// The state after rewinding to a valid checkpoint.
    pub open spec fn rewound(self, checkpoint: usize) -> FreeSlotsView {
        FreeSlotsView { first: self.first, next: checkpoint, end: self.end }
    }
}

/// Manages a contiguous range of indices allocated on demand.
///
/// `FreeSlots` provides sequential index allocation over a specified `usize`
/// range. It is intended to be owned by a single thread. Only a fully emptied
/// allocation suffix may be returned for reuse.
pub struct FreeSlots {
    first: usize,
    remaining: Range<usize>,
}

impl View for FreeSlots {
    type V = FreeSlotsView;

    closed spec fn view(&self) -> FreeSlotsView {
        FreeSlotsView { first: self.first, next: self.remaining.start, end: self.remaining.end }
    }
}

impl FreeSlots {
    #[verifier::type_invariant]
    spec fn inv(self) -> bool {
        self.first <= self.remaining.start
    }

    /// Creates a new [`FreeSlots`] allocator with a provided index range.
    pub fn new(remaining: Range<usize>) -> (r: Self)
        ensures
            r@ == (FreeSlotsView { first: remaining.start, next: remaining.start, end: remaining.end }),
    {
        FreeSlots { first: remaining.start, remaining }
    }

    /// Allocates and returns the next available slot index, if any remain.
    ///
    /// Returns `Some(index)` containing the next available index in sequence,
    /// or `None` if all slots in the range have been exhausted.
    pub fn allocate(&mut self) -> (r: Option<usize>)
        ensures
            old(self)@.is_exhausted() ==> r is None && final(self)@ == old(self)@,
            !old(self)@.is_exhausted() ==> r == Some(old(self)@.next) && final(self)@ == old(
                self,
            )@.advanced(),
            r == old(self)@.allocation(),
            final(self)@ == old(self)@.after_allocation(),
    {
        proof {
            use_type_invariant(&*self);
        }
        if self.remaining.start < self.remaining.end {
            let slot = self.remaining.start;
            self.remaining.start = slot + 1;
            Some(slot)
        } else {
            None
        }
    }

    /// Commits a slot only when creation succeeds; errors leave it available.
    /// The callback must leave the slot empty on error.
    pub fn try_allocate<T, E>(&mut self, create: impl FnOnce(usize) -> Result<T, E>) -> (r: Result<Option<T>, E>)
        requires
            !old(self)@.is_exhausted() ==> call_requires(create, (old(self)@.next,)),
        ensures
            old(self)@.is_exhausted() ==> (r matches Ok(None)) && final(self)@ == old(self)@,
            r matches Ok(Some(_)) ==> final(self)@ == old(self)@.after_allocation(),
            !old(self)@.is_exhausted() ==> match r {
                Ok(Some(value)) => call_ensures(create, (old(self)@.next,), Ok(value))
                    && final(self)@ == old(self)@.advanced(),
                Ok(None) => false,
                Err(error) => call_ensures(create, (old(self)@.next,), Err(error))
                    && final(self)@ == old(self)@,
            },
    {
        proof {
            use_type_invariant(&*self);
        }
        if !(self.remaining.start < self.remaining.end) {
            return Ok(None);
        }
        let next = match self.remaining.start.checked_add(1) {
            Some(next) => next,
            None => return Ok(None),
        };
        let value = create(self.remaining.start)?;
        self.remaining.start = next;
        Ok(Some(value))
    }

    /// Takes the next `count` indices at once, if that many remain.
    pub fn allocate_range(&mut self, count: usize) -> (r: Option<Range<usize>>)
        ensures
            old(self)@.next + count <= old(self)@.end ==> r == Some(
                Range { start: old(self)@.next, end: (old(self)@.next + count) as usize },
            ) && final(self)@ == (FreeSlotsView {
                first: old(self)@.first,
                next: (old(self)@.next + count) as usize,
                end: old(self)@.end,
            }),
            !(old(self)@.next + count <= old(self)@.end) ==> r is None && final(self)@ == old(
                self,
            )@,
    {
        proof {
            use_type_invariant(&*self);
        }
        let start = self.remaining.start;
        if start <= self.remaining.end && count <= self.remaining.end - start {
            let end = start + count;
            self.remaining.start = end;
            Some(start..end)
        } else {
            None
        }
    }

    /// Captures the next slot so a multi-object operation can be rolled back.
    pub fn checkpoint(&self) -> (r: usize)
        ensures
            r == self@.next,
            self@.valid_checkpoint(r),
    {
        proof {
            use_type_invariant(self);
        }
        self.remaining.start
    }

    /// Returns slots committed after a valid checkpoint.
    pub fn allocated_since(&self, checkpoint: usize) -> (r: Option<Range<usize>>)
        ensures
            r == (if self@.valid_checkpoint(checkpoint) {
                Some(Range { start: checkpoint, end: self@.next })
            } else {
                None
            }),
    {
        if self.first <= checkpoint && checkpoint <= self.remaining.start {
            Some(checkpoint..self.remaining.start)
        } else {
            None
        }
    }

    /// Restores a checkpoint after the caller has emptied every later slot.
    pub fn rewind(&mut self, checkpoint: usize) -> (r: bool)
        ensures
            r == old(self)@.valid_checkpoint(checkpoint),
            r ==> final(self)@ == old(self)@.rewound(checkpoint),
            !r ==> final(self)@ == old(self)@,
    {
        if self.allocated_since(checkpoint).is_none() {
            return false;
        }
        self.remaining.start = checkpoint;
        true
    }
}

/// Slots are unique: two successive allocations hand out strictly
/// increasing indices, so no index is handed out twice without a rewind.
pub proof fn law_allocations_are_unique(before: FreeSlotsView)
    requires
        !before.is_exhausted(),
        !before.advanced().is_exhausted(),
    ensures
        before.next < before.advanced().next,
{
}

/// Exhaustion is permanent: once an allocation hands out nothing, every
/// later allocation hands out nothing and leaves the allocator unchanged.
pub proof fn law_exhaustion_is_permanent(state: FreeSlotsView, n: nat)
    requires
        state.is_exhausted(),
    ensures
        state.after_allocations(n) == state,
        state.after_allocations(n).allocation() is None,
    decreases n,
{
    if n > 0 {
        law_exhaustion_is_permanent(state, (n - 1) as nat);
    }
}

/// Rewinding to a checkpoint taken earlier, after any number of allocations,
/// succeeds and makes the checkpoint the next index handed out again; what
/// was allocated in between is exactly the range from the checkpoint to the
/// allocator's next index.
pub proof fn law_rewind_restores_checkpoint(at_checkpoint: FreeSlotsView, later: FreeSlotsView)
    requires
        at_checkpoint.first <= at_checkpoint.next,
        later.first == at_checkpoint.first,
        later.end == at_checkpoint.end,
        at_checkpoint.next <= later.next,
    ensures
        later.valid_checkpoint(at_checkpoint.next),
        later.rewound(at_checkpoint.next) == at_checkpoint,
{
}

/// A run of allocations hands out the indices of its range in increasing
/// order, each at most once: after `n` allocations from `start`, the next
/// one hands out `start.next + n` while that lies below the end, and
/// nothing from then on.
pub proof fn law_allocation_sequence(start: FreeSlotsView, n: nat)
    ensures
        start.after_allocations(n).first == start.first,
        start.after_allocations(n).end == start.end,
        start.next + n <= start.end ==> start.after_allocations(n).next == start.next + n,
        start.after_allocations(n).allocation() == (if start.next + n < start.end {
            Some((start.next + n) as usize)
        } else {
            None
        }),
    decreases n,
{
    if n > 0 {
        law_allocation_sequence(start, (n - 1) as nat);
    }
}

/// What a checkpoint covers after a run of successful allocations: with `k`
/// indices handed out since the checkpoint and no rewind, the checkpoint is
/// still valid, the indices committed since it are exactly the `k` handed
/// out (the range from the checkpoint to the next index), and no index
/// below the first or past the next one is a valid checkpoint.
pub proof fn law_allocated_since_counts_allocations(at_checkpoint: FreeSlotsView, k: nat)
    requires
        at_checkpoint.first <= at_checkpoint.next,
        at_checkpoint.next + k <= at_checkpoint.end,
    ensures
        at_checkpoint.after_allocations(k).valid_checkpoint(at_checkpoint.next),
        at_checkpoint.after_allocations(k).next == at_checkpoint.next + k,
        forall|i: nat|
            i < k ==> #[trigger] at_checkpoint.after_allocations(i).allocation() == Some(
                (at_checkpoint.next + i) as usize,
            ),
        forall|c: usize|
            c < at_checkpoint.first || c > at_checkpoint.next + k ==> !at_checkpoint.after_allocations(
                k,
            ).valid_checkpoint(c),
{
    law_allocation_sequence(at_checkpoint, k);
    assert forall|i: nat| i < k implies #[trigger] at_checkpoint.after_allocations(i).allocation() == Some(
        (at_checkpoint.next + i) as usize,
    ) by {
        law_allocation_sequence(at_checkpoint, i);
    }
}

} // verus!
