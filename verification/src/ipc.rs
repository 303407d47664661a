//! Bounded state of the pinned seL4 IPC mechanisms: badges, messages,
//! endpoint reply authority, deferred replies and receive destinations.
use vstd::prelude::*;
use core::ops::Range;
use vstd::std_specs::bits::{axiom_u64_trailing_zeros, u64_trailing_zeros};
use crate::ipc_state::{BadgeSequence, SlotError, SlotReservation, SlotTracker, FREE, OCCUPIED, RESERVED};

verus! {

/// Maximum message words provided by the pinned seL4 IPC buffer.
pub const MESSAGE_CAPACITY: usize = 120;
/// Maximum capability words provided by the pinned seL4 IPC buffer.
pub const EXTRA_CAPACITY: usize = 4;
/// Maximum number of reply capabilities one pool can retain.
pub const MAX_DEFERRED_REPLIES: usize = 64;

/// A validated nonzero capability-path badge.
#[derive(Debug, Clone, Copy, PartialEq, Eq)]
pub struct Badge(u64);

impl View for Badge {
    type V = u64;

    /// The raw badge word.
    closed spec fn view(&self) -> u64 {
        self.0
    }
}

/// Failure to construct a capability-path badge.
#[derive(Debug, Clone, Copy, PartialEq, Eq)]
pub enum BadgeError {
    /// Badge zero is reserved for unbadged traffic.
    ReservedZero,
}

/// Failure to configure or advance a unique badge sequence.
#[derive(Debug, Clone, Copy, PartialEq, Eq)]
pub enum BadgeAllocationError {
    /// The initial badge is zero or cannot be represented by the target word.
    InvalidStart,
    /// No additional nonzero target-word badge can be allocated.
    Exhausted,
}

impl Badge {
    #[verifier::type_invariant]
    spec fn inv(self) -> bool {
        self.0 != 0
    }

    /// Validates a raw badge without assigning it persistent identity
    /// semantics.
    pub fn new(raw: u64) -> (r: Result<Self, BadgeError>)
        ensures
            raw == 0 <==> r is Err,
            r matches Err(e) ==> e == BadgeError::ReservedZero,
            r matches Ok(badge) ==> badge@ == raw,
    {
        if raw == 0 {
            return Err(BadgeError::ReservedZero);
        }
        Ok(Badge(raw))
    }

    /// Returns the raw badge value used by seL4.
    pub fn raw(self) -> (r: u64)
        ensures
            r == self@,
            r != 0,
    {
        proof {
            use_type_invariant(&self);
        }
        self.0
    }
}

/// The badge observed for a raw word: `None` for unbadged traffic.
pub open spec fn observed_badge(raw: u64) -> Option<u64> {
    if raw == 0 {
        None
    } else {
        Some(raw)
    }
}

/// Converts a raw received word into an observed badge.
pub fn badge_of(raw: u64) -> (r: Option<Badge>)
    ensures
        match r {
            Some(badge) => observed_badge(raw) == Some(badge@),
            None => observed_badge(raw) is None,
        },
{
    match Badge::new(raw) {
        Ok(badge) => Some(badge),
        Err(_) => None,
    }
}

/// A monotonic allocator for unambiguous capability-path badges.
pub struct BadgeAllocator(BadgeSequence);

impl View for BadgeAllocator {
    type V = usize;

    /// The badge that the next allocation hands out.
    closed spec fn view(&self) -> usize {
        self.0@
    }
}

impl BadgeAllocator {
    /// Starts a badge sequence at a validated nonzero value.
    pub fn new(first: u64) -> (r: Result<Self, BadgeAllocationError>)
        ensures
            (first == 0 || first > usize::MAX) <==> r == Err::<Self, BadgeAllocationError>(
                BadgeAllocationError::InvalidStart,
            ),
            r matches Ok(allocator) ==> allocator@ == first,
    {
        if first > usize::MAX as u64 {
            return Err(BadgeAllocationError::InvalidStart);
        }
        match BadgeSequence::new(first as usize) {
            Some(sequence) => Ok(BadgeAllocator(sequence)),
            None => Err(BadgeAllocationError::InvalidStart),
        }
    }

    /// Allocates a badge that has not previously been returned by this
    /// allocator.
    pub fn allocate(&mut self) -> (r: Result<Badge, BadgeAllocationError>)
        ensures
            old(self)@ != 0,
            old(self)@ < usize::MAX ==> (r matches Ok(badge) && badge@ == old(self)@) && final(self)@ == old(self)@ + 1,
            old(self)@ == usize::MAX ==> r == Err::<Badge, BadgeAllocationError>(
                BadgeAllocationError::Exhausted,
            ) && final(self)@ == old(self)@,
    {
        let raw = match self.0.allocate() {
            Some(raw) => raw,
            None => return Err(BadgeAllocationError::Exhausted),
        };
        assert(raw as u64 == raw);
        match Badge::new(raw as u64) {
            Ok(badge) => Ok(badge),
            Err(_) => Err(BadgeAllocationError::Exhausted),
        }
    }
}

/// The plain fields of a seL4 message-info word.
#[derive(Debug, Clone, Copy, PartialEq, Eq)]
pub struct MessageInfo {
    /// Message label.
    pub label: u64,
    /// Number of message registers carried.
    pub length: usize,
    /// Number of extra capability words carried.
    pub extra_caps: usize,
    /// Bit mask of capability words that seL4 unwrapped into badges.
    pub caps_unwrapped: usize,
}

/// Recoverable generic IPC validation or ownership failure.
#[derive(Debug, Clone, Copy, PartialEq, Eq)]
pub enum IpcError {
    /// The payload exceeds the fixed IPC-buffer message-register capacity.
    MessageTooLong {
        /// Reported payload length.
        length: usize,
        /// Available message registers.
        capacity: usize,
    },
    /// The capability list exceeds the pinned IPC-buffer capacity.
    TooManyCapabilities {
        /// Reported capability count.
        count: usize,
        /// Available capability words.
        capacity: usize,
    },
    /// A message word index is outside the reported payload.
    InvalidMessageIndex {
        /// Requested word index.
        index: usize,
        /// Reported payload length.
        length: usize,
    },
    /// A received message reported more capabilities than the configured path
    /// accepts.
    ReceiveCapacityExceeded {
        /// Reported capability count.
        count: usize,
        /// Capabilities the receive path accepts.
        capacity: usize,
    },
    /// A receive destination is reserved, occupied, or outside its CSpace.
    InvalidReceiveSlot,
    /// A receive-path state transition violated its one-shot invariant.
    InvalidReceivePath,
    /// Another received request still owns the classic kernel's implicit reply
    /// authority.
    ReplyPending,
    /// No bounded slot is available to preserve another deferred reply.
    NoReplySlots,
    /// The received message did not carry reply authority.
    NoReplyAuthority,
    /// A classic reply capability could not be deleted.
    ReplyCapabilityOperationFailed,
}

/// The abstract content of a [`Message`].
pub struct MessageView {
    /// Message label.
    pub label: u64,
    /// The reported payload words.
    pub words: Seq<u64>,
    /// The outgoing capability words.
    pub capabilities: Seq<u64>,
    /// Number of extra capabilities reported.
    pub extra_caps: usize,
    /// Capability words unwrapped into badges by seL4.
    pub caps_unwrapped: usize,
}

/// A fixed-capacity seL4 message and its outgoing capability slots.
pub struct Message {
    label: u64,
    words: [u64; 120],
    length: usize,
    capabilities: [u64; 4],
    extra_caps: usize,
    caps_unwrapped: usize,
}

impl View for Message {
    type V = MessageView;

    closed spec fn view(&self) -> MessageView {
        MessageView {
            label: self.label,
            words: self.words@.subrange(0, self.length as int),
            capabilities: self.capabilities@.subrange(0, self.extra_caps as int),
            extra_caps: self.extra_caps,
            caps_unwrapped: self.caps_unwrapped,
        }
    }
}

/// The outcome of building an outgoing message: the payload must fit the
/// message registers and the capabilities the extra-capability words.
pub open spec fn outgoing_spec(label: u64, words: Seq<u64>, capabilities: Seq<u64>) -> Result<MessageView, IpcError> {
    if words.len() > MESSAGE_CAPACITY {
        Err(IpcError::MessageTooLong { length: words.len() as usize, capacity: MESSAGE_CAPACITY })
    } else if capabilities.len() > EXTRA_CAPACITY {
        Err(
            IpcError::TooManyCapabilities {
                count: capabilities.len() as usize,
                capacity: EXTRA_CAPACITY,
            },
        )
    } else {
        Ok(
            MessageView {
                label,
                words,
                capabilities,
                extra_caps: capabilities.len() as usize,
                caps_unwrapped: 0,
            },
        )
    }
}

/// The outcome of accepting a message that seL4 delivered with `info`,
/// reading its payload from the IPC-buffer message registers `registers`.
pub open spec fn incoming_spec(info: MessageInfo, registers: Seq<u64>) -> Result<MessageView, IpcError> {
    if info.length > MESSAGE_CAPACITY {
        Err(IpcError::MessageTooLong { length: info.length, capacity: MESSAGE_CAPACITY })
    } else if info.extra_caps > EXTRA_CAPACITY {
        Err(IpcError::TooManyCapabilities { count: info.extra_caps, capacity: EXTRA_CAPACITY })
    } else {
        Ok(
            MessageView {
                label: info.label,
                words: registers.subrange(0, info.length as int),
                capabilities: Seq::new(info.extra_caps as nat, |i: int| 0u64),
                extra_caps: info.extra_caps,
                caps_unwrapped: info.caps_unwrapped,
            },
        )
    }
}

/// Results of message construction and reception, compared by content.
pub open spec fn message_result_matches(r: Result<Message, IpcError>, expected: Result<MessageView, IpcError>) -> bool {
    match (r, expected) {
        (Ok(message), Ok(view)) => message@ == view,
        (Err(e), Err(f)) => e == f,
        _ => false,
    }
}

/// The message-info word that announces a message of this content: no
/// capability is unwrapped on the sending side.
pub open spec fn announced_info(message: MessageView) -> MessageInfo {
    MessageInfo {
        label: message.label,
        length: message.words.len() as usize,
        extra_caps: message.extra_caps,
        caps_unwrapped: 0,
    }
}

/// What a receiver accepts of a sent message is the message itself, but for
/// the capability words, which the kernel transfers on its own: when the
/// message registers begin with the payload, the label, the payload and the
/// number of extra capabilities come back unchanged.
pub proof fn law_received_message_matches_sent(
    label: u64,
    words: Seq<u64>,
    capabilities: Seq<u64>,
    registers: Seq<u64>,
)
    requires
        outgoing_spec(label, words, capabilities) is Ok,
        registers.len() == MESSAGE_CAPACITY,
        registers.subrange(0, words.len() as int) == words,
    ensures
        match (outgoing_spec(label, words, capabilities), incoming_spec(
            announced_info(outgoing_spec(label, words, capabilities)->Ok_0),
            registers,
        )) {
            (Ok(sent), Ok(received)) => received.label == sent.label && received.words == sent.words
                && received.extra_caps == sent.extra_caps && received.capabilities.len()
                == sent.capabilities.len(),
            _ => false,
        },
{
}

impl Clone for Message {
    fn clone(&self) -> (r: Self)
        ensures
            r@ == self@,
    {
        proof {
            use_type_invariant(self);
        }
        Message {
            label: self.label,
            words: self.words,
            length: self.length,
            capabilities: self.capabilities,
            extra_caps: self.extra_caps,
            caps_unwrapped: self.caps_unwrapped,
        }
    }
}

impl Message {
    #[verifier::type_invariant]
    spec fn inv(self) -> bool {
        self.length <= 120 && self.extra_caps <= 4
    }

    /// Copies a bounded word payload into an allocation-free message.
    pub fn new(label: u64, words: &[u64]) -> (r: Result<Self, IpcError>)
        ensures
            message_result_matches(r, outgoing_spec(label, words@, Seq::empty())),
    {
        let none: [u64; 0] = [];
        let none = none.as_slice();
        assert(none@ =~= Seq::<u64>::empty());
        Self::with_capabilities(label, words, none)
    }

    /// Adds capabilities, given by their capability-pointer words, that seL4
    /// will transfer from the sender's CSpace.
    pub fn with_capabilities(label: u64, words: &[u64], capabilities: &[u64]) -> (r: Result<
        Self,
        IpcError,
    >)
        ensures
            message_result_matches(r, outgoing_spec(label, words@, capabilities@)),
    {
        if words.len() > MESSAGE_CAPACITY {
            return Err(
                IpcError::MessageTooLong { length: words.len(), capacity: MESSAGE_CAPACITY },
            );
        }
        if capabilities.len() > EXTRA_CAPACITY {
            return Err(
                IpcError::TooManyCapabilities {
                    count: capabilities.len(),
                    capacity: EXTRA_CAPACITY,
                },
            );
        }
        let mut payload = [0u64; 120];
        let mut i: usize = 0;
        while i < words.len()
            invariant
                words@.len() <= 120,
                i <= words@.len(),
                payload@.len() == 120,
                forall|k: int| 0 <= k < i ==> payload@[k] == words@[k],
            decreases words@.len() - i,
        {
            payload[i] = words[i];
            i = i + 1;
        }
        let mut caps = [0u64; 4];
        let mut j: usize = 0;
        while j < capabilities.len()
            invariant
                capabilities@.len() <= 4,
                j <= capabilities@.len(),
                caps@.len() == 4,
                forall|k: int| 0 <= k < j ==> caps@[k] == capabilities@[k],
            decreases capabilities@.len() - j,
        {
            caps[j] = capabilities[j];
            j = j + 1;
        }
        let message = Message {
            label,
            words: payload,
            length: words.len(),
            capabilities: caps,
            extra_caps: capabilities.len(),
            caps_unwrapped: 0,
        };
        assert(message@.words =~= words@);
        assert(message@.capabilities =~= capabilities@);
        Ok(message)
    }

    /// Returns the message label without interpreting it as a protocol tag.
    pub fn label(&self) -> (r: u64)
        ensures
            r == self@.label,
    {
        self.label
    }

    /// Returns only the payload length reported for this message.
    pub fn words(&self) -> (r: &[u64])
        ensures
            r@ == self@.words,
    {
        proof {
            use_type_invariant(self);
        }
        &self.words.as_slice()[0..self.length]
    }

    /// Returns the outgoing capability words.
    pub fn capability_words(&self) -> (r: &[u64])
        ensures
            r@ == self@.capabilities,
    {
        proof {
            use_type_invariant(self);
        }
        &self.capabilities.as_slice()[0..self.extra_caps]
    }

    /// Reads one reported message word after explicit bounds validation.
    pub fn word(&self, index: usize) -> (r: Result<u64, IpcError>)
        ensures
            index < self@.words.len() ==> r == Ok::<u64, IpcError>(self@.words[index as int]),
            index >= self@.words.len() ==> r == Err::<u64, IpcError>(
                IpcError::InvalidMessageIndex { index, length: self@.words.len() as usize },
            ),
    {
        proof {
            use_type_invariant(self);
        }
        if index >= self.length {
            return Err(IpcError::InvalidMessageIndex { index, length: self.length });
        }
        Ok(self.words[index])
    }

    /// Returns the number of extra capabilities reported by seL4.
    pub fn extra_caps(&self) -> (r: usize)
        ensures
            r == self@.extra_caps,
    {
        self.extra_caps
    }

    /// Returns the number of capability words unwrapped as badges by seL4.
    pub fn caps_unwrapped(&self) -> (r: usize)
        ensures
            r == self@.caps_unwrapped,
    {
        self.caps_unwrapped
    }

    fn empty(label: u64) -> (r: Self)
        ensures
            r@.label == label,
            r@.words == Seq::<u64>::empty(),
            r@.capabilities == Seq::<u64>::empty(),
            r@.extra_caps == 0,
            r@.caps_unwrapped == 0,
    {
        let r = Message {
            label,
            words: [0u64; 120],
            length: 0,
            capabilities: [0u64; 4],
            extra_caps: 0,
            caps_unwrapped: 0,
        };
        assert(r@.words =~= Seq::<u64>::empty());
        assert(r@.capabilities =~= Seq::<u64>::empty());
        r
    }

    /// The empty message with label zero used to answer a fault.
    pub fn empty_reply() -> (r: Self)
        ensures
            r@.label == 0,
            r@.words == Seq::<u64>::empty(),
            r@.capabilities == Seq::<u64>::empty(),
            r@.extra_caps == 0,
            r@.caps_unwrapped == 0,
    {
        Self::empty(0)
    }

    /// The message-info word that announces this message to seL4.
    pub fn info(&self) -> (r: MessageInfo)
        ensures
            r == announced_info(self@),
    {
        proof {
            use_type_invariant(self);
        }
        MessageInfo {
            label: self.label,
            length: self.length,
            extra_caps: self.extra_caps,
            caps_unwrapped: 0,
        }
    }

    /// Accepts a message that seL4 delivered with `info`, copying its payload
    /// from the IPC buffer's message registers.
    pub fn received(info: &MessageInfo, registers: &[u64]) -> (r: Result<Self, IpcError>)
        requires
            registers@.len() == MESSAGE_CAPACITY,
        ensures
            message_result_matches(r, incoming_spec(*info, registers@)),
    {
        if info.length > MESSAGE_CAPACITY {
            return Err(
                IpcError::MessageTooLong { length: info.length, capacity: MESSAGE_CAPACITY },
            );
        }
        if info.extra_caps > EXTRA_CAPACITY {
            return Err(
                IpcError::TooManyCapabilities { count: info.extra_caps, capacity: EXTRA_CAPACITY },
            );
        }
        let mut payload = [0u64; 120];
        let mut i: usize = 0;
        while i < info.length
            invariant
                info.length <= 120,
                registers@.len() == 120,
                i <= info.length,
                payload@.len() == 120,
                forall|k: int| 0 <= k < i ==> payload@[k] == registers@[k],
            decreases info.length - i,
        {
            payload[i] = registers[i];
            i = i + 1;
        }
        let message = Message {
            label: info.label,
            words: payload,
            length: info.length,
            capabilities: [0u64; 4],
            extra_caps: info.extra_caps,
            caps_unwrapped: info.caps_unwrapped,
        };
        assert(message@.words =~= registers@.subrange(0, info.length as int));
        assert(message@.capabilities =~= Seq::new(info.extra_caps as nat, |k: int| 0u64));
        Ok(message)
    }
}

/// Whether bit `index` of `mask` is set.
pub open spec fn bit_set(mask: u64, index: u64) -> bool {
    (mask >> index) & 1u64 == 1u64
}

/// A mask of the low `count` bits.
pub open spec fn low_bits_spec(count: usize) -> u64 {
    if count >= 64 {
        u64::MAX
    } else {
        ((1u64 << count) - 1) as u64
    }
}

/// Returns a mask whose low `count` bits are set.
pub fn low_bits(count: usize) -> (r: u64)
    requires
        count <= 64,
    ensures
        r == low_bits_spec(count),
        forall|i: u64| i < 64 ==> (bit_set(r, i) <==> i < count),
{
    if count == 64 {
        assert(forall|i: u64| i < 64 ==> #[trigger] ((0xffff_ffff_ffff_ffffu64 >> i) & 1u64) == 1u64)
            by (bit_vector);
        u64::MAX
    } else {
        let c = count as u64;
        assert(c < 64 ==> (1u64 << c) >= 1u64) by (bit_vector);
        let r = (1u64 << c) - 1;
        assert(forall|i: u64| i < 64 ==> ((#[trigger] ((r >> i) & 1u64) == 1u64) <==> i < c))
            by (bit_vector)
            requires
                c < 64,
                r == (1u64 << c) - 1,
        ;
        r
    }
}

/// The abstract state of a [`ReplyPool`]: its root slots and the mask of
/// offsets holding a retained reply capability.
pub struct ReplyPoolView {
    /// First root slot of the pool.
    pub start: usize,
    /// Exclusive end of the pool's root slots.
    pub end: usize,
    /// Bit `k` is set while slot `start + k` holds a reply capability.
    pub occupied: u64,
}

impl ReplyPoolView {
    /// Number of slots in the pool.
    pub open spec fn capacity(self) -> int {
        self.end - self.start
    }

    /// Offset `k` holds a reply capability.
    pub open spec fn is_occupied(self, k: int) -> bool {
        0 <= k < 64 && bit_set(self.occupied, k as u64)
    }
}

/// A bounded pool of root CSpace slots reserved for classic reply caps.
pub struct ReplyPool {
    slots: Range<usize>,
    occupied: u64,
}

impl View for ReplyPool {
    type V = ReplyPoolView;

    closed spec fn view(&self) -> ReplyPoolView {
        ReplyPoolView { start: self.slots.start, end: self.slots.end, occupied: self.occupied }
    }
}

impl ReplyPool {
    #[verifier::type_invariant]
    spec fn inv(self) -> bool {
        self.slots.start <= self.slots.end && self.slots.end - self.slots.start <= 64
    }

    /// A pool over `slots` with no reply retained.
    pub(crate) fn with_slots(slots: Range<usize>) -> (r: Self)
        requires
            slots.start <= slots.end,
            slots.end - slots.start <= MAX_DEFERRED_REPLIES,
        ensures
            r@ == (ReplyPoolView { start: slots.start, end: slots.end, occupied: 0 }),
    {
        ReplyPool { slots, occupied: 0 }
    }

    /// The pool's slots are within bounds.
    pub fn well_formed(&self) -> (r: bool)
        ensures
            r,
            self@.start <= self@.end,
            self@.capacity() <= 64,
    {
        proof {
            use_type_invariant(self);
        }
        true
    }

    /// Takes the lowest free slot of the pool.
    pub fn reserve(&mut self) -> (r: Option<usize>)
        ensures
            final(self)@.start == old(self)@.start,
            final(self)@.end == old(self)@.end,
            old(self)@.capacity() <= 64,
            r is None <==> forall|k: int| 0 <= k < old(self)@.capacity() ==> old(self)@.is_occupied(k),
            r is None ==> final(self)@ == old(self)@,
            r matches Some(slot) ==> {
                let k = slot - old(self)@.start;
                &&& old(self)@.start <= slot < old(self)@.end
                &&& !old(self)@.is_occupied(k)
                &&& forall|j: int| 0 <= j < k ==> old(self)@.is_occupied(j)
                &&& final(self)@.occupied == old(self)@.occupied | (1u64 << (k as u64))
            },
    {
        proof {
            use_type_invariant(&*self);
        }
        let capacity = self.slots.end - self.slots.start;
        let occupied = self.occupied;
        let mask = low_bits(capacity);
        let available = (!occupied) & mask;
        let cap = capacity as u64;
        if available == 0 {
            proof {
                assert forall|k: int| 0 <= k < capacity implies self@.is_occupied(k) by {
                    let kk = k as u64;
                    assert(kk < cap);
                    assert(bit_set(mask, kk));
                    assert((available == (!occupied) & mask && available == 0u64 && bit_set(mask, kk)
                        && kk < 64) ==> bit_set(occupied, kk)) by (bit_vector);
                }
            }
            return None;
        }
        let tz = available.trailing_zeros();
        proof {
            axiom_u64_trailing_zeros(available);
        }
        let offset = tz as u64;
        assert(offset < 64);
        assert(bit_set(available, offset));
        assert((available == (!occupied) & mask && bit_set(available, offset) && offset < 64)
            ==> (!bit_set(occupied, offset) && bit_set(mask, offset))) by (bit_vector);
        assert(offset < cap);
        proof {
            assert forall|j: int| 0 <= j < offset implies self@.is_occupied(j) by {
                let jj = j as u64;
                assert((available >> jj) & 1u64 == 0u64);
                assert(bit_set(mask, jj));
                assert((available == (!occupied) & mask && (available >> jj) & 1u64 == 0u64
                    && bit_set(mask, jj) && jj < 64) ==> bit_set(occupied, jj)) by (bit_vector);
            }
        }
        assert(!old(self)@.is_occupied(offset as int));
        self.occupied = occupied | (1u64 << offset);
        let slot = self.slots.start + (offset as usize);
        Some(slot)
    }

    /// Returns a slot to the pool; slots outside the pool are ignored.
    pub fn release(&mut self, slot: usize)
        ensures
            final(self)@.start == old(self)@.start,
            final(self)@.end == old(self)@.end,
            old(self)@.start <= slot < old(self)@.end ==> final(self)@.occupied == old(self)@.occupied & !(1u64 << ((slot - old(self)@.start) as u64)),
            !(old(self)@.start <= slot < old(self)@.end) ==> final(self)@ == old(self)@,
    {
        proof {
            use_type_invariant(&*self);
        }
        if slot >= self.slots.start && slot - self.slots.start < self.slots.end - self.slots.start {
            let offset = (slot - self.slots.start) as u64;
            self.occupied = self.occupied & !(1u64 << offset);
        }
    }
}

/// Releasing the slot that a reservation just took restores the pool's
/// occupancy exactly.
pub proof fn law_release_undoes_reserve(occupied: u64, k: u64)
    requires
        k < 64,
        !bit_set(occupied, k),
    ensures
        (occupied | (1u64 << k)) & !(1u64 << k) == occupied,
        bit_set(occupied | (1u64 << k), k),
{
    assert(((occupied >> k) & 1u64 != 1u64 && k < 64) ==> (occupied | (1u64 << k)) & !(1u64 << k)
        == occupied) by (bit_vector);
    assert(k < 64 ==> ((occupied | (1u64 << k)) >> k) & 1u64 == 1u64) by (bit_vector);
}

/// A reserved slot stays taken: while its reply is retained, a second
/// reservation never hands out the same slot.
pub proof fn law_reserved_slot_is_not_handed_out_again(occupied: u64, k: u64, j: u64)
    requires
        k < 64,
        j < 64,
        j != k,
    ensures
        bit_set(occupied | (1u64 << k), k),
        bit_set(occupied | (1u64 << k), j) == bit_set(occupied, j),
{
    assert(k < 64 ==> ((occupied | (1u64 << k)) >> k) & 1u64 == 1u64) by (bit_vector);
    assert((k < 64 && j < 64 && j != k) ==> ((((occupied | (1u64 << k)) >> j) & 1u64 == 1u64) == (((
        occupied >> j) & 1u64) == 1u64))) by (bit_vector);
}

/// Maps slot-bookkeeping failures to the receive-path error.
pub fn map_slot_error(error: SlotError) -> (r: IpcError)
    ensures
        r == IpcError::InvalidReceiveSlot,
{
    IpcError::InvalidReceiveSlot
}

/// A capability slot named absolutely: a CNode, an index in it, and the
/// depth at which the index is resolved.
#[derive(Debug, Clone, Copy, PartialEq, Eq)]
pub struct AbsoluteSlot {
    /// Capability word of the CNode.
    pub root: u64,
    /// Index of the slot within the CNode.
    pub index: u64,
    /// Number of index bits resolved.
    pub depth: usize,
}

/// A validated one-shot destination for at most one transferred capability.
pub struct ReceiveSlot<'a> {
    /// Capability word of the receiving task's CSpace root.
    pub root: u64,
    /// Size of that CSpace in slot-index bits.
    pub size_bits: usize,
    /// The reserved destination slot.
    pub reservation: SlotReservation<'a>,
}

impl ReceiveSlot<'_> {
    /// The absolute path of the reserved destination.
    pub fn absolute(&self) -> (r: AbsoluteSlot)
        ensures
            r == (AbsoluteSlot {
                root: self.root,
                index: self.reservation.slot as u64,
                depth: self.size_bits,
            }),
    {
        let index = SlotTracker::reservation_slot(&self.reservation) as u64;
        AbsoluteSlot { root: self.root, index, depth: self.size_bits }
    }

    /// Commits the destination when a capability arrived, releases it
    /// otherwise.
    pub fn finish(self, received: bool) -> (r: Result<(), IpcError>)
        ensures
            *old(self.reservation.state) == RESERVED <==> r is Ok,
            r is Ok ==> *final(self.reservation.state) == (if received {
                OCCUPIED
            } else {
                FREE
            }),
            r matches Err(e) ==> e == IpcError::InvalidReceivePath
                && *final(self.reservation.state) == *old(self.reservation.state),
    {
        let result = if received {
            SlotTracker::commit(self.reservation)
        } else {
            SlotTracker::cancel(self.reservation)
        };
        match result {
            Ok(()) => Ok(()),
            Err(_) => Err(IpcError::InvalidReceivePath),
        }
    }
}

/// Reserves `index` of a task's CSpace as a receive destination.
pub fn receive_slot<'a>(root: u64, size_bits: usize, slots: &'a mut SlotTracker, index: usize) -> (r:
    Result<ReceiveSlot<'a>, IpcError>)
    ensures
        old(slots)@.admission(index) is Ok <==> r is Ok,
        match r {
            Ok(slot) => slot.root == root && slot.size_bits == size_bits && slot.reservation.slot
                == index && *slot.reservation.state == RESERVED && final(slots)@ == old(slots)@.with_state(index, *final(slot.reservation.state)),
            Err(e) => e == IpcError::InvalidReceiveSlot && final(slots)@ == old(slots)@,
        },
{
    let reservation = match slots.reserve(index) {
        Ok(reservation) => reservation,
        Err(error) => return Err(map_slot_error(error)),
    };
    Ok(ReceiveSlot { root, size_bits, reservation })
}

/// The abstract state of an [`Endpoint`].
pub struct EndpointView {
    /// Capability word of the endpoint in the root CSpace.
    pub cap: u64,
    /// A receive currently holds the classic kernel's implicit reply
    /// authority.
    pub reply_pending: bool,
}

/// An owned endpoint used for synchronous seL4 message rendezvous.
pub struct Endpoint {
    cap: u64,
    implicit_reply_pending: bool,
}

impl View for Endpoint {
    type V = EndpointView;

    closed spec fn view(&self) -> EndpointView {
        EndpointView { cap: self.cap, reply_pending: self.implicit_reply_pending }
    }
}

/// A received message tied to the endpoint's current classic reply authority.
pub struct ReceivedMessage<'a> {
    /// The endpoint whose reply authority this message holds.
    pub endpoint: &'a mut Endpoint,
    /// The capability-path badge, or `None` for unbadged traffic.
    pub badge: Option<Badge>,
    /// The bounded received message.
    pub message: Message,
}

/// The raw words of an observed badge.
pub open spec fn badge_view(badge: Option<Badge>) -> Option<u64> {
    match badge {
        Some(b) => Some(b@),
        None => None,
    }
}

/// Whether a receive-path error leaves the caller to answer the implicit
/// reply authority with an empty reply: every error except a refused start
/// and a broken receive destination.
pub open spec fn clears_reply_authority_spec(error: IpcError) -> bool {
    error != IpcError::ReplyPending && error != IpcError::InvalidReceivePath
}

/// Decides whether a receive-path error obliges the caller to answer the
/// implicit reply authority with an empty reply.
pub fn clears_reply_authority(error: &IpcError) -> (r: bool)
    ensures
        r == clears_reply_authority_spec(*error),
{
    match error {
        IpcError::ReplyPending => false,
        IpcError::InvalidReceivePath => false,
        _ => true,
    }
}

impl Endpoint {
    /// An endpoint for the given root-held capability, holding no reply
    /// authority.
    pub fn new(cap: u64) -> (r: Self)
        ensures
            r@ == (EndpointView { cap, reply_pending: false }),
    {
        Endpoint { cap, implicit_reply_pending: false }
    }

    /// Returns the root-held endpoint for capability derivation.
    pub fn cap(&self) -> (r: u64)
        ensures
            r == self@.cap,
    {
        self.cap
    }

    /// Whether a received request still holds the implicit reply authority.
    pub fn reply_pending(&self) -> (r: bool)
        ensures
            r == self@.reply_pending,
    {
        self.implicit_reply_pending
    }

    fn clear_implicit_reply(&mut self)
        ensures
            final(self)@ == (EndpointView { cap: old(self)@.cap, reply_pending: false }),
    {
        self.implicit_reply_pending = false;
    }

    /// Claims the implicit reply authority before a receive; refused while an
    /// earlier received request still holds it.
    pub fn begin_receive(&mut self) -> (r: Result<(), IpcError>)
        ensures
            old(self)@.reply_pending ==> r == Err::<(), IpcError>(IpcError::ReplyPending)
                && final(self)@ == old(self)@,
            !old(self)@.reply_pending ==> r is Ok && final(self)@ == (EndpointView {
                cap: old(self)@.cap,
                reply_pending: true,
            }),
    {
        if self.implicit_reply_pending {
            return Err(IpcError::ReplyPending);
        }
        self.implicit_reply_pending = true;
        Ok(())
    }

    /// Accepts what a blocking receive delivered: `info` and the message
    /// registers of the IPC buffer, and the raw badge. The receive slot, if
    /// any, is committed when a capability arrived and released otherwise.
    /// On error the implicit reply authority is given up, except when the
    /// receive slot was no longer reserved.
    pub fn complete_receive<'e>(
        &'e mut self,
        receive_slot: Option<ReceiveSlot<'_>>,
        info: MessageInfo,
        registers: &[u64],
        raw_badge: u64,
    ) -> (r: Result<ReceivedMessage<'e>, IpcError>)
        requires
            registers@.len() == MESSAGE_CAPACITY,
        ensures
            receive_slot is Some && *old(receive_slot->Some_0.reservation.state) == RESERVED ==> *final(receive_slot->Some_0.reservation.state) == (if info.extra_caps != 0 {
                OCCUPIED
            } else {
                FREE
            }),
            receive_slot is Some && *old(receive_slot->Some_0.reservation.state) != RESERVED ==> *final(receive_slot->Some_0.reservation.state) == *old(receive_slot->Some_0.reservation.state),
            match receive_spec(
                receive_slot is Some,
                if receive_slot is Some { *old(receive_slot->Some_0.reservation.state) } else { FREE },
                info,
                registers@,
                raw_badge,
            ) {
                Err((e, released)) => (r matches Err(f) && f == e) && final(self)@ == (EndpointView {
                    cap: old(self)@.cap,
                    reply_pending: if released { false } else { old(self)@.reply_pending },
                }),
                Ok((view, badge)) => r matches Ok(received) && received.message@ == view
                    && badge_view(received.badge) == badge && (*received.endpoint)@ == old(self)@
                    && final(self)@ == (*final(received.endpoint))@,
            },
    {
        let capacity: usize = if receive_slot.is_some() {
            1
        } else {
            0
        };
        if let Some(slot) = receive_slot {
            slot.finish(info.extra_caps != 0)?;
        }
        if info.extra_caps > capacity {
            self.clear_implicit_reply();
            return Err(IpcError::ReceiveCapacityExceeded { count: info.extra_caps, capacity });
        }
        let message = match Message::received(&info, registers) {
            Ok(message) => message,
            Err(error) => {
                self.clear_implicit_reply();
                return Err(error);
            },
        };
        Ok(ReceivedMessage { endpoint: self, badge: badge_of(raw_badge), message })
    }

    /// Accepts what a polling receive delivered. A delivery with no badge,
    /// no payload and no capability means that no sender was waiting: the
    /// reply authority is released and the receive slot, if any, is
    /// released too. Anything else is accepted as by
    /// [`Endpoint::complete_receive`].
    pub fn complete_try_receive<'e>(
        &'e mut self,
        receive_slot: Option<ReceiveSlot<'_>>,
        info: MessageInfo,
        registers: &[u64],
        raw_badge: u64,
    ) -> (r: Result<Option<ReceivedMessage<'e>>, IpcError>)
        requires
            registers@.len() == MESSAGE_CAPACITY,
        ensures
            receive_slot is Some && *old(receive_slot->Some_0.reservation.state) == RESERVED ==> *final(receive_slot->Some_0.reservation.state) == (if info.extra_caps != 0 {
                OCCUPIED
            } else {
                FREE
            }),
            receive_slot is Some && *old(receive_slot->Some_0.reservation.state) != RESERVED ==> *final(receive_slot->Some_0.reservation.state) == *old(receive_slot->Some_0.reservation.state),
            nothing_delivered(info, raw_badge) ==> final(self)@ == (EndpointView { cap: old(self)@.cap, reply_pending: false })
                && (if receive_slot is Some && *old(receive_slot->Some_0.reservation.state) != RESERVED {
                    r matches Err(e) && e == IpcError::InvalidReceivePath
                } else {
                    r matches Ok(None)
                }),
            !nothing_delivered(info, raw_badge) ==> match receive_spec(
                receive_slot is Some,
                if receive_slot is Some { *old(receive_slot->Some_0.reservation.state) } else { FREE },
                info,
                registers@,
                raw_badge,
            ) {
                Err((e, released)) => (r matches Err(f) && f == e) && final(self)@ == (EndpointView {
                    cap: old(self)@.cap,
                    reply_pending: if released { false } else { old(self)@.reply_pending },
                }),
                Ok((view, badge)) => r matches Ok(Some(received)) && received.message@ == view
                    && badge_view(received.badge) == badge && (*received.endpoint)@ == old(self)@
                    && final(self)@ == (*final(received.endpoint))@,
            },
    {
        if raw_badge == 0 && info.length == 0 && info.extra_caps == 0 {
            self.implicit_reply_pending = false;
            if let Some(slot) = receive_slot {
                slot.finish(false)?;
            }
            return Ok(None);
        }
        match self.complete_receive(receive_slot, info, registers, raw_badge) {
            Ok(received) => Ok(Some(received)),
            Err(error) => Err(error),
        }
    }

    /// Performs a synchronous request and copies the bounded reply: `call`
    /// is handed the endpoint capability, the request's message-info word
    /// and its payload words, performs the call and returns what the kernel
    /// delivered in reply.
    pub fn call(&self, message: &Message, call: impl FnOnce(u64, MessageInfo, &[u64]) -> Delivery) -> (r:
        Result<Message, IpcError>)
        requires
            forall|cap: u64, info: MessageInfo, words: &[u64]| call_requires(call, (cap, info, words)),
        ensures
            exists|words: &[u64], delivery: Delivery|
                words@ == message@.words && #[trigger] call_ensures(
                    call,
                    (
                        self@.cap,
                        announced_info(message@),
                        words,
                    ),
                    delivery,
                ) && message_result_matches(r, incoming_spec(delivery.info, delivery.registers@)),
    {
        let info = message.info();
        let words = message.words();
        let delivery = call(self.cap, info, words);
        let r = Message::received(&delivery.info, delivery.registers.as_slice());
        assert(call_ensures(call, (self@.cap, info, words), delivery));
        r
    }

    /// Receives one message, optionally accepting one transferred
    /// capability: claims the reply authority, has `recv` configure the
    /// receive path for the destination it is given and wait for a
    /// delivery, and accepts the delivery as by
    /// [`Endpoint::complete_receive`]. When an error gives the authority up,
    /// `clear` answers it with an empty reply. Callers that must know that
    /// the kernel is not asked while a reply is owed use
    /// [`Endpoint::begin_receive`] and [`Endpoint::complete_receive`]
    /// directly: a refused claim leaves nothing to complete.
    pub fn receive<'e>(
        &'e mut self,
        receive_slot: Option<ReceiveSlot<'_>>,
        recv: impl FnOnce(Option<AbsoluteSlot>) -> Delivery,
        clear: impl FnOnce(),
    ) -> (r: Result<ReceivedMessage<'e>, IpcError>)
        requires
            forall|destination: Option<AbsoluteSlot>| call_requires(recv, (destination,)),
            call_requires(clear, ()),
        ensures
            receive_slot is Some && (old(self)@.reply_pending || *old(receive_slot->Some_0.reservation.state) != RESERVED) ==> *final(receive_slot->Some_0.reservation.state) == *old(receive_slot->Some_0.reservation.state),
            old(self)@.reply_pending ==> (r matches Err(e) && e == IpcError::ReplyPending) && final(self)@ == old(self)@,
            !old(self)@.reply_pending ==> exists|delivery: Delivery|
                #[trigger] call_ensures(recv, (destination_of(receive_slot),), delivery) && (receive_slot is Some && *old(receive_slot->Some_0.reservation.state) == RESERVED ==> *final(receive_slot->Some_0.reservation.state) == (if delivery.info.extra_caps != 0 {
                    OCCUPIED
                } else {
                    FREE
                })) && match receive_spec(
                    receive_slot is Some,
                    if receive_slot is Some { *old(receive_slot->Some_0.reservation.state) } else { FREE },
                    delivery.info,
                    delivery.registers@,
                    delivery.badge,
                ) {
                    Err((e, released)) => (r matches Err(f) && f == e) && final(self)@ == (EndpointView {
                        cap: old(self)@.cap,
                        reply_pending: !released,
                    }) && (released ==> call_ensures(clear, (), ())),
                    Ok((view, badge)) => r matches Ok(received) && received.message@ == view
                        && badge_view(received.badge) == badge && (*received.endpoint)@ == (EndpointView {
                        cap: old(self)@.cap,
                        reply_pending: true,
                    }) && final(self)@ == (*final(received.endpoint))@,
                },
    {
        self.begin_receive()?;
        let destination = match &receive_slot {
            Some(slot) => Some(slot.absolute()),
            None => None,
        };
        let delivery = recv(destination);
        match self.complete_receive(receive_slot, delivery.info, delivery.registers.as_slice(), delivery.badge) {
            Ok(received) => Ok(received),
            Err(error) => {
                if clears_reply_authority(&error) {
                    clear();
                }
                Err(error)
            },
        }
    }

    /// Receives without blocking when no sender is waiting: claims the reply
    /// authority, has `poll` configure the receive path and poll once, and
    /// accepts the delivery as by [`Endpoint::complete_try_receive`]: when no
    /// sender was waiting, the reply authority and the receive slot's
    /// reservation are released. When an error gives the authority up,
    /// `clear` answers it with an empty reply. The two-step form,
    /// [`Endpoint::begin_receive`] then [`Endpoint::complete_try_receive`],
    /// polls only after a successful claim.
    pub fn try_receive<'e>(
        &'e mut self,
        receive_slot: Option<ReceiveSlot<'_>>,
        poll: impl FnOnce(Option<AbsoluteSlot>) -> Delivery,
        clear: impl FnOnce(),
    ) -> (r: Result<Option<ReceivedMessage<'e>>, IpcError>)
        requires
            forall|destination: Option<AbsoluteSlot>| call_requires(poll, (destination,)),
            call_requires(clear, ()),
        ensures
            receive_slot is Some && (old(self)@.reply_pending || *old(receive_slot->Some_0.reservation.state) != RESERVED) ==> *final(receive_slot->Some_0.reservation.state) == *old(receive_slot->Some_0.reservation.state),
            old(self)@.reply_pending ==> (r matches Err(e) && e == IpcError::ReplyPending) && final(self)@ == old(self)@,
            !old(self)@.reply_pending ==> exists|delivery: Delivery|
                #[trigger] call_ensures(poll, (destination_of(receive_slot),), delivery) && (receive_slot is Some && *old(receive_slot->Some_0.reservation.state) == RESERVED ==> *final(receive_slot->Some_0.reservation.state) == (if delivery.info.extra_caps != 0 {
                    OCCUPIED
                } else {
                    FREE
                })) && if nothing_delivered(delivery.info, delivery.badge) {
                    final(self)@ == (EndpointView { cap: old(self)@.cap, reply_pending: false })
                        && (if receive_slot is Some && *old(receive_slot->Some_0.reservation.state) != RESERVED {
                        r matches Err(e) && e == IpcError::InvalidReceivePath
                    } else {
                        r matches Ok(None)
                    })
                } else {
                    match receive_spec(
                        receive_slot is Some,
                        if receive_slot is Some { *old(receive_slot->Some_0.reservation.state) } else { FREE },
                        delivery.info,
                        delivery.registers@,
                        delivery.badge,
                    ) {
                        Err((e, released)) => (r matches Err(f) && f == e) && final(self)@ == (EndpointView {
                            cap: old(self)@.cap,
                            reply_pending: !released,
                        }) && (released ==> call_ensures(clear, (), ())),
                        Ok((view, badge)) => r matches Ok(Some(received)) && received.message@ == view
                            && badge_view(received.badge) == badge && (*received.endpoint)@ == (EndpointView {
                            cap: old(self)@.cap,
                            reply_pending: true,
                        }) && final(self)@ == (*final(received.endpoint))@,
                    }
                },
    {
        self.begin_receive()?;
        let destination = match &receive_slot {
            Some(slot) => Some(slot.absolute()),
            None => None,
        };
        let delivery = poll(destination);
        let nothing = delivery.badge == 0 && delivery.info.length == 0 && delivery.info.extra_caps == 0;
        match self.complete_try_receive(receive_slot, delivery.info, delivery.registers.as_slice(), delivery.badge) {
            Ok(received) => Ok(received),
            Err(error) => {
                if !nothing && clears_reply_authority(&error) {
                    clear();
                }
                Err(error)
            },
        }
    }
}

/// What the kernel handed to a receiver: the message-info word, the IPC
/// buffer's message registers, and the raw badge.
#[derive(Clone, Copy)]
pub struct Delivery {
    /// The message-info word.
    pub info: MessageInfo,
    /// The IPC buffer's message registers.
    pub registers: [u64; 120],
    /// The raw badge of the capability path, zero when unbadged.
    pub badge: u64,
}

/// The receive destination a reservation names.
pub open spec fn destination_of(receive_slot: Option<ReceiveSlot<'_>>) -> Option<AbsoluteSlot> {
    match receive_slot {
        Some(slot) => Some(
            AbsoluteSlot {
                root: slot.root,
                index: slot.reservation.slot as u64,
                depth: slot.size_bits,
            },
        ),
        None => None,
    }
}

/// A polling receive found no waiting sender: no badge, no payload and no
/// capability.
pub open spec fn nothing_delivered(info: MessageInfo, raw_badge: u64) -> bool {
    raw_badge == 0 && info.length == 0 && info.extra_caps == 0
}

/// The outcome of accepting a delivery: the receive destination, if any,
/// must still be reserved (else the path is broken and the reply authority
/// is kept); no more capabilities than the path accepts may arrive; the
/// message must fit. Errors are paired with whether they give the reply
/// authority up; a delivered message is paired with its observed badge.
pub open spec fn receive_spec(
    has_slot: bool,
    slot_state: u8,
    info: MessageInfo,
    registers: Seq<u64>,
    raw_badge: u64,
) -> Result<(MessageView, Option<u64>), (IpcError, bool)> {
    let capacity: usize = if has_slot {
        1
    } else {
        0
    };
    if has_slot && slot_state != RESERVED {
        Err((IpcError::InvalidReceivePath, false))
    } else if info.extra_caps > capacity {
        Err((IpcError::ReceiveCapacityExceeded { count: info.extra_caps, capacity }, true))
    } else {
        match incoming_spec(info, registers) {
            Err(e) => Err((e, true)),
            Ok(view) => Ok((view, observed_badge(raw_badge))),
        }
    }
}

/// A poll that finds no sender is one that delivered nothing at all: badge
/// zero, no payload and no capability. Any delivery with a nonzero badge
/// comes from a waiting sender, and when the path accepts it (the receive
/// slot, if any, still reserved; no capability; a payload that fits) it is
/// received as a message with that badge, the delivered label and the
/// delivered payload.
pub proof fn law_badged_polls_are_messages(
    has_slot: bool,
    slot_state: u8,
    info: MessageInfo,
    registers: Seq<u64>,
    raw_badge: u64,
)
    ensures
        nothing_delivered(info, raw_badge) ==> raw_badge == 0 && info.length == 0 && info.extra_caps == 0,
        raw_badge != 0 ==> !nothing_delivered(info, raw_badge),
        raw_badge != 0 && (!has_slot || slot_state == RESERVED) && info.extra_caps == 0 && info.length
            <= MESSAGE_CAPACITY ==> (receive_spec(has_slot, slot_state, info, registers, raw_badge) matches Ok(
            (view, badge),
        ) && badge == Some(raw_badge) && view.label == info.label && view.words == registers.subrange(
            0,
            info.length as int,
        )),
{
}

/// A receive path accepts at most one capability when it has a receive
/// slot, and none without one: any delivery carrying more is refused as
/// exceeding that capacity, and the refusal gives the reply authority up.
pub proof fn law_receive_capacity_is_one_slot(
    has_slot: bool,
    slot_state: u8,
    info: MessageInfo,
    registers: Seq<u64>,
    raw_badge: u64,
)
    requires
        !has_slot || slot_state == RESERVED,
        info.extra_caps > (if has_slot {
            1usize
        } else {
            0usize
        }),
    ensures
        receive_spec(has_slot, slot_state, info, registers, raw_badge) == Err::<(MessageView, Option<u64>), (IpcError, bool)>(
            (
                IpcError::ReceiveCapacityExceeded {
                    count: info.extra_caps,
                    capacity: if has_slot {
                        1usize
                    } else {
                        0usize
                    },
                },
                true,
            ),
        ),
{
}

impl ReceivedMessage<'_> {
    /// Returns the capability-path badge, or `None` for unbadged traffic.
    pub fn badge(&self) -> (r: Option<Badge>)
        ensures
            r == self.badge,
    {
        self.badge
    }

    /// Returns the bounded received message.
    pub fn message(&self) -> (r: &Message)
        ensures
            r == self.message,
    {
        &self.message
    }

    /// Uses the current implicit authority to reply exactly once: returns
    /// the message-info word to reply with, and gives up the authority.
    pub fn reply(self, message: &Message) -> (r: MessageInfo)
        ensures
            r == announced_info(message@),
            (*final(self.endpoint))@ == (EndpointView { cap: (*old(self.endpoint))@.cap, reply_pending: false }),
    {
        let info = message.info();
        self.endpoint.implicit_reply_pending = false;
        info
    }

    /// Completes a one-way receive and clears any possible implicit authority;
    /// the caller answers it with an empty reply.
    pub fn finish(self)
        ensures
            (*final(self.endpoint))@ == (EndpointView { cap: (*old(self.endpoint))@.cap, reply_pending: false }),
    {
        self.endpoint.clear_implicit_reply();
    }

    /// Preserves the current classic reply capability in the lowest free slot
    /// of `pool`, through `save_caller`, which saves the caller's reply
    /// capability into the slot it is given and reports success. The
    /// implicit authority is given up in every case; on error the caller
    /// answers it with an empty reply.
    pub fn defer(self, pool: &mut ReplyPool, save_caller: impl FnOnce(usize) -> bool) -> (r:
        Result<DeferredReply, IpcError>)
        requires
            forall|slot: usize| call_requires(save_caller, (slot,)),
        ensures
            (*final(self.endpoint))@ == (EndpointView { cap: (*old(self.endpoint))@.cap, reply_pending: false }),
            final(pool)@.start == old(pool)@.start,
            final(pool)@.end == old(pool)@.end,
            (forall|k: int| 0 <= k < old(pool)@.capacity() ==> old(pool)@.is_occupied(k)) ==> (r
                matches Err(e) && e == IpcError::NoReplySlots) && final(pool)@ == old(pool)@,
            r matches Err(e) ==> (e == IpcError::NoReplySlots || e == IpcError::NoReplyAuthority)
                && final(pool)@ == old(pool)@,
            !(forall|k: int| 0 <= k < old(pool)@.capacity() ==> old(pool)@.is_occupied(k)) ==> !(r
                matches Err(e) && e == IpcError::NoReplySlots),
            r matches Err(e) && e == IpcError::NoReplyAuthority ==> exists|slot: usize|
                old(pool)@.start <= slot < old(pool)@.end && !old(pool)@.is_occupied(slot - old(pool)@.start)
                    && (forall|j: int| 0 <= j < slot - old(pool)@.start ==> old(pool)@.is_occupied(j))
                    && call_ensures(save_caller, (slot,), false),
            r matches Ok(deferred) ==> {
                let k = deferred.slot_spec() - old(pool)@.start;
                &&& old(pool)@.start <= deferred.slot_spec() < old(pool)@.end
                &&& !old(pool)@.is_occupied(k)
                &&& forall|j: int| 0 <= j < k ==> old(pool)@.is_occupied(j)
                &&& final(pool)@.occupied == old(pool)@.occupied | (1u64 << (k as u64))
                &&& call_ensures(save_caller, (deferred.slot_spec(),), true)
            },
    {
        let slot = match pool.reserve() {
            Some(slot) => slot,
            None => {
                self.endpoint.clear_implicit_reply();
                return Err(IpcError::NoReplySlots);
            },
        };
        if !save_caller(slot) {
            proof {
                law_release_undoes_reserve(old(pool)@.occupied, (slot - old(pool)@.start) as u64);
            }
            pool.release(slot);
            self.endpoint.clear_implicit_reply();
            return Err(IpcError::NoReplyAuthority);
        }
        self.endpoint.implicit_reply_pending = false;
        Ok(DeferredReply { slot })
    }
}

/// One explicitly saved classic-kernel reply capability, retained in a slot
/// of a [`ReplyPool`].
pub struct DeferredReply {
    slot: usize,
}

impl DeferredReply {
    /// The root slot holding the saved reply capability.
    pub closed spec fn slot_spec(&self) -> usize {
        self.slot
    }

    /// The root slot holding the saved reply capability.
    pub fn slot(&self) -> (r: usize)
        ensures
            r == self.slot_spec(),
    {
        self.slot
    }

    /// Replies to the blocked caller identified by this capability: returns
    /// the message-info word to send on the slot, and releases the slot.
    pub fn reply(self, pool: &mut ReplyPool, message: &Message) -> (r: MessageInfo)
        ensures
            r == announced_info(message@),
            final(pool)@.start == old(pool)@.start,
            final(pool)@.end == old(pool)@.end,
            old(pool)@.start <= self.slot_spec() < old(pool)@.end ==> final(pool)@.occupied == old(pool)@.occupied & !(1u64 << ((self.slot_spec() - old(pool)@.start) as u64)),
            !(old(pool)@.start <= self.slot_spec() < old(pool)@.end) ==> final(pool)@ == old(pool)@,
    {
        let info = message.info();
        pool.release(self.slot);
        info
    }

    /// Deletes an unused reply capability, through `delete`, which deletes
    /// the capability in the slot it is given and reports success, and
    /// releases its bounded slot.
    pub fn discard(self, pool: &mut ReplyPool, delete: impl FnOnce(usize) -> bool) -> (r: Result<
        (),
        IpcError,
    >)
        requires
            call_requires(delete, (self.slot_spec(),)),
        ensures
            r is Ok ==> call_ensures(delete, (self.slot_spec(),), true),
            r is Err ==> call_ensures(delete, (self.slot_spec(),), false),
            r matches Err(e) ==> e == IpcError::ReplyCapabilityOperationFailed && final(pool)@ == old(pool)@,
            r is Ok ==> final(pool)@.start == old(pool)@.start && final(pool)@.end == old(pool)@.end && (
            old(pool)@.start <= self.slot_spec() < old(pool)@.end ==> final(pool)@.occupied == old(pool)@.occupied & !(1u64 << ((self.slot_spec() - old(pool)@.start) as u64))) && (!(old(pool)@.start <= self.slot_spec() < old(pool)@.end) ==> final(pool)@ == old(pool)@),
    {
        if !delete(self.slot) {
            return Err(IpcError::ReplyCapabilityOperationFailed);
        }
        pool.release(self.slot);
        Ok(())
    }
}

/// An owned asynchronous kernel notification.
pub struct Notification(u64);

impl Notification {
    /// A notification for the given root-held capability.
    pub fn new(cap: u64) -> (r: Self)
        ensures
            r.cap_spec() == cap,
    {
        Notification(cap)
    }

    /// The capability word of this notification.
    pub closed spec fn cap_spec(&self) -> u64 {
        self.0
    }

    /// Returns the root-held capability for explicit delegation.
    pub fn cap(&self) -> (r: u64)
        ensures
            r == self.cap_spec(),
    {
        self.0
    }
}

} // verus!
