//! Composition of CSpace, VSpace, memory, and TCB task resources.
use vstd::prelude::*;
use core::ops::Range;
use crate::boot::{allocation_refused, lemma_refusal_through_reference, BootInfo, Bootstrap};
use crate::cspace::{
    delegation_views, delegations_valid, CNodeCapData, CSpace, DelegatedCapability, DelegationView, WORD_SIZE,
};
use crate::errors::BootstrapError;
use crate::fault::FaultRoute;
use crate::free_slots::FreeSlotsView;
use crate::ipc::{receive_slot, IpcError, ReceiveSlot};
use crate::ipc_state::{SlotError, SlotTracker, SlotTrackerView, FREE, OCCUPIED, RESERVED};
use crate::thread::{tcb_settings, Registers, TcbSettings, Thread, ThreadConfig};
use crate::boot::RetypeOutcome;
use crate::cspace::CapRights;
use crate::vspace::{Frame, TableLevel, TaskMapping, VSpace};

verus! {

/// Why a task's page layout was refused.
#[derive(Debug, PartialEq, Eq)]
pub enum LayoutError {
    /// The page size is zero or not a power of two.
    InvalidPageSize,
    /// A page address is not a multiple of the page size.
    UnalignedAddress,
    /// A page would extend past the end of the address space.
    AddressOverflow,
    /// Two page roles name the same page.
    OverlappingPages,
    /// The entry point is outside the code page or not instruction-aligned.
    InvalidEntry,
}

/// A validated task layout.
#[derive(Debug, PartialEq, Eq)]
pub struct TaskLayout {
    /// Initial stack pointer: the exclusive top of the stack page.
    pub stack_pointer: usize,
}

/// `n` is a power of two.
pub open spec fn is_power_of_two(n: nat) -> bool
    decreases n,
{
    if n == 0 {
        false
    } else if n == 1 {
        true
    } else {
        n % 2 == 0 && is_power_of_two(n / 2)
    }
}

/// Decides whether `n` is a power of two by halving it.
pub fn power_of_two(n: usize) -> (r: bool)
    ensures
        r == is_power_of_two(n as nat),
{
    let mut x = n;
    while x > 1 && x % 2 == 0
        invariant
            is_power_of_two(x as nat) == is_power_of_two(n as nat),
        decreases x,
    {
        x = x / 2;
    }
    x == 1
}

/// The error for one page, if any: it must be page-aligned, must not wrap
/// around the address space, and must not repeat an earlier page.
pub open spec fn page_error(page_size: usize, address: usize, seen_before: bool) -> Option<LayoutError> {
    if address % page_size != 0 {
        Some(LayoutError::UnalignedAddress)
    } else if address + page_size > usize::MAX {
        Some(LayoutError::AddressOverflow)
    } else if seen_before {
        Some(LayoutError::OverlappingPages)
    } else {
        None
    }
}

/// The first error among the first `n` fixed-role pages, in order.
pub open spec fn fixed_pages_error(pages: Seq<usize>, page_size: usize, n: nat) -> Option<LayoutError>
    decreases n,
{
    if n == 0 {
        None
    } else {
        match fixed_pages_error(pages, page_size, (n - 1) as nat) {
            Some(e) => Some(e),
            None => page_error(
                page_size,
                pages[n - 1],
                pages.subrange(0, n - 1).contains(pages[n - 1]),
            ),
        }
    }
}

/// The first error among the first `n` reserved pages, in order; a
/// reserved page must also differ from every fixed-role page.
pub open spec fn reserved_pages_error(
    pages: Seq<usize>,
    reserved: Seq<usize>,
    page_size: usize,
    n: nat,
) -> Option<LayoutError>
    decreases n,
{
    if n == 0 {
        None
    } else {
        match reserved_pages_error(pages, reserved, page_size, (n - 1) as nat) {
            Some(e) => Some(e),
            None => page_error(
                page_size,
                reserved[n - 1],
                pages.contains(reserved[n - 1]) || reserved.subrange(0, n - 1).contains(
                    reserved[n - 1],
                ),
            ),
        }
    }
}

/// The outcome of validating a layout: the page size, then each fixed-role
/// page (code, private memory, stack, IPC buffer), then each reserved page,
/// then the entry point, which must lie in the code page on a four-byte
/// boundary. A valid layout's stack pointer is the top of the stack page.
pub open spec fn layout_spec(
    page_size: usize,
    code_address: usize,
    entry: usize,
    private_memory_address: usize,
    stack_address: usize,
    ipc_buffer_address: usize,
    reserved: Seq<usize>,
) -> Result<TaskLayout, LayoutError> {
    let pages = seq![code_address, private_memory_address, stack_address, ipc_buffer_address];
    if page_size == 0 || !is_power_of_two(page_size as nat) {
        Err(LayoutError::InvalidPageSize)
    } else {
        match fixed_pages_error(pages, page_size, 4) {
            Some(e) => Err(e),
            None => match reserved_pages_error(pages, reserved, page_size, reserved.len()) {
                Some(e) => Err(e),
                None => if entry < code_address || entry >= code_address + page_size || entry % 4
                    != 0 {
                    Err(LayoutError::InvalidEntry)
                } else {
                    Ok(TaskLayout { stack_pointer: (stack_address + page_size) as usize })
                },
            },
        }
    }
}

/// Whether `value` occurs among the first `end` items.
fn contains_before(items: &[usize], end: usize, value: usize) -> (r: bool)
    requires
        end <= items@.len(),
    ensures
        r == items@.subrange(0, end as int).contains(value),
{
    let mut i: usize = 0;
    while i < end
        invariant
            i <= end,
            end <= items@.len(),
            forall|k: int| 0 <= k < i ==> items@[k] != value,
        decreases end - i,
    {
        if items[i] == value {
            assert(items@.subrange(0, end as int)[i as int] == value);
            return true;
        }
        i = i + 1;
    }
    assert(!items@.subrange(0, end as int).contains(value)) by {
        if items@.subrange(0, end as int).contains(value) {
            let k = choose|k: int| 0 <= k < end && items@.subrange(0, end as int)[k] == value;
            assert(items@[k] == value);
        }
    }
    false
}

fn check_page(page_size: usize, address: usize, seen_before: bool) -> (r: Result<(), LayoutError>)
    requires
        page_size != 0,
    ensures
        r == (match page_error(page_size, address, seen_before) {
            Some(e) => Err(e),
            None => Ok(()),
        }),
{
    if !address.is_multiple_of(page_size) {
        return Err(LayoutError::UnalignedAddress);
    }
    if address.checked_add(page_size).is_none() {
        return Err(LayoutError::AddressOverflow);
    }
    if seen_before {
        return Err(LayoutError::OverlappingPages);
    }
    Ok(())
}

proof fn lemma_fixed_error_persists(pages: Seq<usize>, page_size: usize, n: nat, m: nat)
    requires
        n <= m,
        fixed_pages_error(pages, page_size, n) is Some,
    ensures
        fixed_pages_error(pages, page_size, m) == fixed_pages_error(pages, page_size, n),
    decreases m - n,
{
    if n < m {
        lemma_fixed_error_persists(pages, page_size, n, (m - 1) as nat);
    }
}

proof fn lemma_reserved_error_persists(
    pages: Seq<usize>,
    reserved: Seq<usize>,
    page_size: usize,
    n: nat,
    m: nat,
)
    requires
        n <= m,
        reserved_pages_error(pages, reserved, page_size, n) is Some,
    ensures
        reserved_pages_error(pages, reserved, page_size, m) == reserved_pages_error(
            pages,
            reserved,
            page_size,
            n,
        ),
    decreases m - n,
{
    if n < m {
        lemma_reserved_error_persists(pages, reserved, page_size, n, (m - 1) as nat);
    }
}

proof fn lemma_fixed_page_valid(pages: Seq<usize>, page_size: usize, n: nat, j: nat)
    requires
        j < n,
        fixed_pages_error(pages, page_size, n) is None,
    ensures
        page_error(page_size, pages[j as int], pages.subrange(0, j as int).contains(pages[j as int]))
            is None,
    decreases n,
{
    if j < n - 1 {
        lemma_fixed_page_valid(pages, page_size, (n - 1) as nat, j);
    }
}

proof fn lemma_reserved_page_valid(
    pages: Seq<usize>,
    reserved: Seq<usize>,
    page_size: usize,
    n: nat,
    j: nat,
)
    requires
        j < n,
        reserved_pages_error(pages, reserved, page_size, n) is None,
    ensures
        page_error(
            page_size,
            reserved[j as int],
            pages.contains(reserved[j as int]) || reserved.subrange(0, j as int).contains(
                reserved[j as int],
            ),
        ) is None,
    decreases n,
{
    if j < n - 1 {
        lemma_reserved_page_valid(pages, reserved, page_size, (n - 1) as nat, j);
    }
}

proof fn lemma_fixed_pages_clear(pages: Seq<usize>, page_size: usize, n: nat)
    requires
        n <= pages.len(),
        forall|i: int| 0 <= i < pages.len() ==> #[trigger] pages[i] % page_size == 0 && pages[i] + page_size <= usize::MAX,
        forall|i: int, j: int| 0 <= i < j < pages.len() ==> #[trigger] pages[i] != #[trigger] pages[j],
    ensures
        fixed_pages_error(pages, page_size, n) is None,
    decreases n,
{
    if n > 0 {
        lemma_fixed_pages_clear(pages, page_size, (n - 1) as nat);
        let last = pages[n - 1];
        assert(last % page_size == 0 && last + page_size <= usize::MAX);
        if pages.subrange(0, n - 1).contains(last) {
            let k = choose|k: int| 0 <= k < n - 1 && #[trigger] pages.subrange(0, n - 1)[k] == last;
            assert(pages[k] == pages[n - 1]);
        }
    }
}

proof fn lemma_reserved_pages_clear(pages: Seq<usize>, reserved: Seq<usize>, page_size: usize, n: nat)
    requires
        n <= reserved.len(),
        forall|i: int| 0 <= i < reserved.len() ==> #[trigger] reserved[i] % page_size == 0 && reserved[i] + page_size <= usize::MAX,
        forall|i: int, j: int| 0 <= i < j < reserved.len() ==> #[trigger] reserved[i] != #[trigger] reserved[j],
        forall|i: int, j: int| 0 <= i < pages.len() && 0 <= j < reserved.len() ==> #[trigger] pages[i] != #[trigger] reserved[j],
    ensures
        reserved_pages_error(pages, reserved, page_size, n) is None,
    decreases n,
{
    if n > 0 {
        lemma_reserved_pages_clear(pages, reserved, page_size, (n - 1) as nat);
        let last = reserved[n - 1];
        assert(last % page_size == 0 && last + page_size <= usize::MAX);
        if pages.contains(last) {
            let k = choose|k: int| 0 <= k < pages.len() && #[trigger] pages[k] == last;
            assert(pages[k] != reserved[n - 1]);
        }
        if reserved.subrange(0, n - 1).contains(last) {
            let k = choose|k: int| 0 <= k < n - 1 && #[trigger] reserved.subrange(0, n - 1)[k] == last;
            assert(reserved[k] == reserved[n - 1]);
        }
    }
}

/// A layout is valid exactly when it looks valid: with a power-of-two page
/// size, every page role at its own page-aligned address that does not wrap
/// around, and the entry point on an instruction boundary inside the code
/// page, validation accepts the layout and puts the stack pointer at the
/// top of the stack page.
pub proof fn law_distinct_aligned_layout_is_valid(
    page_size: usize,
    code_address: usize,
    entry: usize,
    private_memory_address: usize,
    stack_address: usize,
    ipc_buffer_address: usize,
    reserved: Seq<usize>,
)
    requires
        page_size > 0,
        is_power_of_two(page_size as nat),
        ({
            let all = seq![code_address, private_memory_address, stack_address, ipc_buffer_address]
                + reserved;
            &&& forall|i: int|
                0 <= i < all.len() ==> #[trigger] all[i] % page_size == 0 && all[i] + page_size
                    <= usize::MAX
            &&& forall|i: int, j: int| 0 <= i < j < all.len() ==> #[trigger] all[i] != #[trigger] all[j]
        }),
        code_address <= entry < code_address + page_size,
        entry % 4 == 0,
    ensures
        layout_spec(
            page_size,
            code_address,
            entry,
            private_memory_address,
            stack_address,
            ipc_buffer_address,
            reserved,
        ) == Ok::<TaskLayout, LayoutError>(TaskLayout { stack_pointer: (stack_address + page_size) as usize }),
{
    let pages = seq![code_address, private_memory_address, stack_address, ipc_buffer_address];
    let all = pages + reserved;
    assert forall|i: int| 0 <= i < pages.len() implies #[trigger] pages[i] % page_size == 0 && pages[i] + page_size
        <= usize::MAX by {
        assert(all[i] == pages[i]);
    }
    assert forall|i: int, j: int| 0 <= i < j < pages.len() implies #[trigger] pages[i] != #[trigger] pages[j] by {
        assert(all[i] == pages[i] && all[j] == pages[j]);
    }
    assert forall|i: int| 0 <= i < reserved.len() implies #[trigger] reserved[i] % page_size == 0 && reserved[i]
        + page_size <= usize::MAX by {
        assert(all[4 + i] == reserved[i]);
    }
    assert forall|i: int, j: int| 0 <= i < j < reserved.len() implies #[trigger] reserved[i] != #[trigger] reserved[j] by {
        assert(all[4 + i] == reserved[i] && all[4 + j] == reserved[j]);
    }
    assert forall|i: int, j: int| 0 <= i < pages.len() && 0 <= j < reserved.len() implies #[trigger] pages[i]
        != #[trigger] reserved[j] by {
        assert(all[i] == pages[i] && all[4 + j] == reserved[j]);
    }
    lemma_fixed_pages_clear(pages, page_size, 4);
    lemma_reserved_pages_clear(pages, reserved, page_size, reserved.len());
}

/// A validated layout gives every page role (code, private memory, stack,
/// IPC buffer, and each reserved page) its own page-aligned address that
/// does not wrap around, keeps the entry point on an instruction boundary
/// inside the code page, and puts the stack pointer at the top of the stack
/// page.
pub proof fn law_valid_layout_pages_are_distinct(
    page_size: usize,
    code_address: usize,
    entry: usize,
    private_memory_address: usize,
    stack_address: usize,
    ipc_buffer_address: usize,
    reserved: Seq<usize>,
)
    requires
        layout_spec(
            page_size,
            code_address,
            entry,
            private_memory_address,
            stack_address,
            ipc_buffer_address,
            reserved,
        ) is Ok,
    ensures
        ({
            let all = seq![code_address, private_memory_address, stack_address, ipc_buffer_address]
                + reserved;
            &&& forall|i: int|
                0 <= i < all.len() ==> #[trigger] all[i] % page_size == 0 && all[i] + page_size
                    <= usize::MAX
            &&& forall|i: int, j: int| 0 <= i < j < all.len() ==> #[trigger] all[i] != #[trigger] all[j]
        }),
        code_address <= entry < code_address + page_size,
        entry % 4 == 0,
        layout_spec(
            page_size,
            code_address,
            entry,
            private_memory_address,
            stack_address,
            ipc_buffer_address,
            reserved,
        )->Ok_0.stack_pointer == stack_address + page_size,
{
    let pages = seq![code_address, private_memory_address, stack_address, ipc_buffer_address];
    let all = pages + reserved;
    lemma_fixed_page_valid(pages, page_size, 4, 2);
    assert forall|i: int| 0 <= i < all.len() implies #[trigger] all[i] % page_size == 0 && all[i]
        + page_size <= usize::MAX by {
        if i < 4 {
            lemma_fixed_page_valid(pages, page_size, 4, i as nat);
        } else {
            lemma_reserved_page_valid(pages, reserved, page_size, reserved.len(), (i - 4) as nat);
        }
    }
    assert forall|i: int, j: int| 0 <= i < j < all.len() implies #[trigger] all[i] != #[trigger] all[j] by {
        if j < 4 {
            lemma_fixed_page_valid(pages, page_size, 4, j as nat);
            assert(pages.subrange(0, j)[i] == pages[i]);
        } else if i < 4 {
            lemma_reserved_page_valid(pages, reserved, page_size, reserved.len(), (j - 4) as nat);
            assert(pages[i] == all[i]);
        } else {
            lemma_reserved_page_valid(pages, reserved, page_size, reserved.len(), (j - 4) as nat);
            assert(reserved.subrange(0, j - 4)[i - 4] == reserved[i - 4]);
        }
    }
}

impl TaskLayout {
    /// Validates the fixed page roles before any kernel object is allocated.
    pub fn validate(
        page_size: usize,
        code_address: usize,
        entry: usize,
        private_memory_address: usize,
        stack_address: usize,
        ipc_buffer_address: usize,
        reserved_pages: &[usize],
    ) -> (r: Result<Self, LayoutError>)
        ensures
            r == layout_spec(
                page_size,
                code_address,
                entry,
                private_memory_address,
                stack_address,
                ipc_buffer_address,
                reserved_pages@,
            ),
    {
        if page_size == 0 || !power_of_two(page_size) {
            return Err(LayoutError::InvalidPageSize);
        }
        let addresses = [code_address, private_memory_address, stack_address, ipc_buffer_address];
        let ghost pages = seq![code_address, private_memory_address, stack_address, ipc_buffer_address];
        assert(addresses@ == pages);
        let mut index: usize = 0;
        while index < 4
            invariant
                index <= 4,
                addresses@ == pages,
                pages == seq![code_address, private_memory_address, stack_address, ipc_buffer_address],
                page_size != 0,
                is_power_of_two(page_size as nat),
                fixed_pages_error(pages, page_size, index as nat) is None,
            decreases 4 - index,
        {
            let address = addresses[index];
            let seen = contains_before(addresses.as_slice(), index, address);
            match check_page(page_size, address, seen) {
                Ok(()) => {},
                Err(e) => {
                    proof {
                        lemma_fixed_error_persists(pages, page_size, (index + 1) as nat, 4);
                    }
                    return Err(e);
                },
            }
            index = index + 1;
        }
        let mut index: usize = 0;
        while index < reserved_pages.len()
            invariant
                index <= reserved_pages@.len(),
                addresses@ == pages,
                pages == seq![code_address, private_memory_address, stack_address, ipc_buffer_address],
                page_size != 0,
                is_power_of_two(page_size as nat),
                fixed_pages_error(pages, page_size, 4) is None,
                reserved_pages_error(pages, reserved_pages@, page_size, index as nat) is None,
            decreases reserved_pages@.len() - index,
        {
            let address = reserved_pages[index];
            let in_fixed = contains_before(addresses.as_slice(), 4, address);
            assert(pages.subrange(0, 4) =~= pages);
            let seen = in_fixed || contains_before(reserved_pages, index, address);
            match check_page(page_size, address, seen) {
                Ok(()) => {},
                Err(e) => {
                    proof {
                        lemma_reserved_error_persists(
                            pages,
                            reserved_pages@,
                            page_size,
                            (index + 1) as nat,
                            reserved_pages@.len(),
                        );
                    }
                    return Err(e);
                },
            }
            index = index + 1;
        }
        proof {
            lemma_fixed_page_valid(pages, page_size, 4, 0);
            lemma_fixed_page_valid(pages, page_size, 4, 2);
        }
        let code_end = match code_address.checked_add(page_size) {
            Some(end) => end,
            None => return Err(LayoutError::AddressOverflow),
        };
        if entry < code_address || entry >= code_end || !entry.is_multiple_of(4) {
            return Err(LayoutError::InvalidEntry);
        }
        let stack_pointer = match stack_address.checked_add(page_size) {
            Some(top) => top,
            None => return Err(LayoutError::AddressOverflow),
        };
        Ok(TaskLayout { stack_pointer })
    }
}

/// One read-only executable page shared with a task.
pub struct SharedCode<'a> {
    /// Source frame capability retained by the creator.
    pub frame: &'a Frame,
    /// Page-aligned virtual address in the task.
    pub address: usize,
    /// Initial program counter within this page.
    pub entry: usize,
}

/// Complete fixed-footprint resource description for one isolated task.
pub struct TaskConfig<'a> {
    /// Size of the child CNode in capability-slot bits.
    pub cspace_size_bits: usize,
    /// Executable code mapped read-only into the task.
    pub code: SharedCode<'a>,
    /// Page-aligned virtual address for private writable memory.
    pub private_memory_address: usize,
    /// Page-aligned virtual address for the task's stack page.
    pub stack_address: usize,
    /// Page-aligned virtual address for the task's IPC buffer page.
    pub ipc_buffer_address: usize,
    /// Page-aligned addresses with translation tables but no mapped
    /// frame.
    pub reserved_pages: &'a [usize],
    /// Initial values for the first four architecture argument registers.
    pub initial_arguments: [usize; 4],
    /// Capabilities explicitly installed in the otherwise empty CSpace.
    pub delegated_capabilities: &'a [DelegatedCapability],
    /// Optional badged route for kernel-delivered task faults.
    pub fault_route: Option<FaultRoute>,
}

/// The delegation of an optional fault route.
pub open spec fn route_view(route: Option<FaultRoute>) -> Option<DelegationView> {
    match route {
        Some(r) => Some(r@),
        None => None,
    }
}

impl TaskConfig<'_> {
    /// Validates the page layout with base pages before any kernel object
    /// is allocated; every refusal is an invalid task configuration.
    pub fn layout(&self) -> (r: Result<TaskLayout, BootstrapError>)
        ensures
            match layout_spec(
                Frame::BYTES,
                self.code.address,
                self.code.entry,
                self.private_memory_address,
                self.stack_address,
                self.ipc_buffer_address,
                self.reserved_pages@,
            ) {
                Ok(layout) => r == Ok::<TaskLayout, BootstrapError>(layout),
                Err(_) => r == Err::<TaskLayout, BootstrapError>(BootstrapError::InvalidTaskConfiguration),
            },
    {
        match TaskLayout::validate(
            Frame::BYTES,
            self.code.address,
            self.code.entry,
            self.private_memory_address,
            self.stack_address,
            self.ipc_buffer_address,
            self.reserved_pages,
        ) {
            Ok(layout) => Ok(layout),
            Err(_) => Err(BootstrapError::InvalidTaskConfiguration),
        }
    }

    /// The four pages that receive frames: code, private memory, stack and
    /// IPC buffer, in that order.
    pub fn page_addresses(&self) -> (r: [usize; 4])
        ensures
            r@ == seq![self.code.address, self.private_memory_address, self.stack_address, self.ipc_buffer_address],
    {
        let r = [self.code.address, self.private_memory_address, self.stack_address, self.ipc_buffer_address];
        assert(r@ =~= seq![self.code.address, self.private_memory_address, self.stack_address, self.ipc_buffer_address]);
        r
    }

    /// The capability pointer through which the task's faults are
    /// delivered: the fault route's slot, or the null capability.
    pub fn fault_endpoint(&self) -> (r: u64)
        ensures
            r == (match self.fault_route {
                Some(route) => route@.destination as u64,
                None => 0u64,
            }),
    {
        match &self.fault_route {
            Some(route) => route.child_slot() as u64,
            None => 0,
        }
    }

    /// The thread configuration of the task: the IPC buffer page and its
    /// mapping, the entry point, the top of the stack page, the initial
    /// arguments and the fault endpoint.
    pub fn thread_config(&self, layout: &TaskLayout, ipc_buffer_mapping: u64) -> (r: ThreadConfig)
        ensures
            r.ipc_buffer_address == self.ipc_buffer_address,
            r.ipc_buffer_mapping == ipc_buffer_mapping,
            r.entry == self.code.entry,
            r.stack_pointer == layout.stack_pointer,
            r.arguments == self.initial_arguments,
            r.fault_endpoint == (match self.fault_route {
                Some(route) => route@.destination as u64,
                None => 0u64,
            }),
    {
        ThreadConfig {
            ipc_buffer_address: self.ipc_buffer_address,
            ipc_buffer_mapping,
            entry: self.code.entry,
            stack_pointer: layout.stack_pointer,
            arguments: self.initial_arguments,
            fault_endpoint: self.fault_endpoint(),
        }
    }
}

/// Whether `slot` is the destination of one of the delegations or of the
/// fault route.
pub open spec fn installed(caps: Seq<DelegationView>, route: Option<DelegationView>, slot: int) -> bool {
    (exists|i: int| 0 <= i < caps.len() && #[trigger] caps[i].destination == slot) || (route matches Some(r)
        && r.destination == slot)
}

/// The receive-slot bookkeeping of a task of `config` refuses every slot
/// that CSpace construction installed a capability in: each delegation's
/// destination and the fault route's slot are already occupied.
pub open spec fn installed_slots_refused(config: &TaskConfig<'_>, tracker: SlotTrackerView) -> bool {
    &&& forall|i: int|
        0 <= i < config.delegated_capabilities@.len() ==> tracker.admission(
            #[trigger] config.delegated_capabilities@[i]@.destination,
        ) == Err::<(), SlotError>(SlotError::Occupied)
    &&& config.fault_route matches Some(route) ==> tracker.admission(route@.destination) == Err::<(), SlotError>(
        SlotError::Occupied,
    )
}

/// Installed slots are never receive destinations: in bookkeeping that
/// marks exactly the installed slots of a valid delegation list occupied,
/// reserving any delegation's destination or the fault route's slot is
/// refused as occupied, and every other slot of the CNode but the null one
/// can be reserved.
pub proof fn law_installed_slots_are_not_receive_slots(
    size_bits: usize,
    caps: Seq<DelegationView>,
    route: Option<DelegationView>,
    tracker: SlotTrackerView,
)
    requires
        delegations_valid(size_bits, caps, route),
        tracker.capacity == (1usize << size_bits),
        tracker.capacity <= 256,
        tracker.states.len() == 256,
        forall|slot: int| 0 <= slot < 256 ==> #[trigger] tracker.states[slot] == (if installed(caps, route, slot) {
            OCCUPIED
        } else {
            FREE
        }),
    ensures
        forall|i: int|
            0 <= i < caps.len() ==> tracker.admission(#[trigger] caps[i].destination) == Err::<(), SlotError>(
                SlotError::Occupied,
            ),
        route matches Some(r) ==> tracker.admission(r.destination) == Err::<(), SlotError>(SlotError::Occupied),
        forall|slot: usize|
            0 < slot < tracker.capacity && !installed(caps, route, slot as int) ==> #[trigger] tracker.admission(slot)
                is Ok,
{
    assert forall|i: int| 0 <= i < caps.len() implies tracker.admission(#[trigger] caps[i].destination)
        == Err::<(), SlotError>(SlotError::Occupied) by {
        assert(installed(caps, route, caps[i].destination as int));
    }
}

/// Bookkeeping for a task's CSpace: every installed destination occupied,
/// every other slot free; `None` when the CSpace has more slots than the
/// bounded bookkeeping covers.
pub fn installed_slots(size_bits: usize, capabilities: &[DelegatedCapability], fault_route: Option<&FaultRoute>) -> (r:
    Option<SlotTracker>)
    requires
        delegations_valid(
            size_bits,
            delegation_views(capabilities@),
            match fault_route {
                Some(route) => Some(route@),
                None => None,
            },
        ),
    ensures
        (1usize << size_bits) > SlotTracker::MAX_SLOTS <==> r is None,
        r matches Some(tracker) ==> tracker@.capacity == (1usize << size_bits) && SlotTracker::well_formed(tracker@)
            && forall|slot: int| 0 <= slot < 256 ==> #[trigger] tracker@.states[slot] == (if installed(
                delegation_views(capabilities@),
                match fault_route {
                    Some(route) => Some(route@),
                    None => None,
                },
                slot,
            ) {
                OCCUPIED
            } else {
                FREE
            }),
{
    let ghost caps = delegation_views(capabilities@);
    let ghost route = match fault_route {
        Some(route) => Some(route@),
        None => None,
    };
    let capacity = 1usize << size_bits;
    let mut tracker = match SlotTracker::try_new(capacity) {
        Ok(tracker) => tracker,
        Err(_) => return None,
    };
    let mut index: usize = 0;
    while index < capabilities.len()
        invariant
            index <= capabilities@.len(),
            caps == delegation_views(capabilities@),
            delegations_valid(size_bits, caps, route),
            capacity == 1usize << size_bits,
            capacity <= 256,
            tracker@.capacity == capacity,
            SlotTracker::well_formed(tracker@),
            forall|slot: int| 0 <= slot < 256 ==> #[trigger] tracker@.states[slot] == (if installed(caps.subrange(0, index as int), None, slot) {
                OCCUPIED
            } else {
                FREE
            }),
        decreases capabilities@.len() - index,
    {
        let destination = capabilities[index].destination();
        let ghost before = tracker@;
        assert(caps[index as int] == capabilities@[index as int]@);
        assert(!installed(caps.subrange(0, index as int), None, destination as int)) by {
            if installed(caps.subrange(0, index as int), None, destination as int) {
                let k = choose|k: int| 0 <= k < index && #[trigger] caps.subrange(0, index as int)[k].destination == destination;
                assert(caps[k].destination == caps[index as int].destination);
            }
        }
        let marked = tracker.mark_occupied(destination);
        assert(marked is Ok);
        assert forall|slot: int| 0 <= slot < 256 implies #[trigger] tracker@.states[slot] == (if installed(caps.subrange(0, index + 1), None, slot) {
            OCCUPIED
        } else {
            FREE
        }) by {
            if slot == destination {
                assert(caps.subrange(0, index + 1)[index as int].destination == destination);
            } else {
                if installed(caps.subrange(0, index + 1), None, slot) {
                    let k = choose|k: int| 0 <= k < index + 1 && #[trigger] caps.subrange(0, index + 1)[k].destination == slot;
                    assert(caps.subrange(0, index as int)[k].destination == slot);
                }
                if installed(caps.subrange(0, index as int), None, slot) {
                    let k = choose|k: int| 0 <= k < index && #[trigger] caps.subrange(0, index as int)[k].destination == slot;
                    assert(caps.subrange(0, index + 1)[k].destination == slot);
                }
            }
        }
        index = index + 1;
    }
    assert(caps.subrange(0, caps.len() as int) =~= caps);
    if let Some(route_ref) = fault_route {
        let destination = route_ref.child_slot();
        assert(!installed(caps, None, destination as int));
        let marked = tracker.mark_occupied(destination);
        assert(marked is Ok);
    }
    Some(tracker)
}

/// Parent-owned handles for one constructed seL4 protection domain.
pub struct Task {
    thread: Thread,
    cspace: CSpace,
    vspace: VSpace,
    private_memory: Frame,
    stack: Frame,
    ipc_buffer: Frame,
    root_slots: Range<usize>,
    slots: Option<SlotTracker>,
}

impl Task {
    /// The capability word of the task's TCB.
    pub closed spec fn tcb_spec(&self) -> u64 {
        self.thread.tcb_spec()
    }

    /// Size of the task's CSpace in slot-index bits.
    pub closed spec fn cspace_size_bits_spec(&self) -> usize {
        self.cspace.size_bits_spec()
    }

    /// The root slots retaining the task's resources.
    pub closed spec fn root_slots_spec(&self) -> Range<usize> {
        self.root_slots
    }

    /// The CSpace root capability word.
    pub closed spec fn cspace_spec(&self) -> u64 {
        self.cspace.root_spec()
    }

    /// The VSpace root capability word.
    pub closed spec fn vspace_spec(&self) -> u64 {
        self.vspace.root_spec()
    }

    /// The private memory, stack and IPC buffer frames.
    pub closed spec fn frames_spec(&self) -> (u64, u64, u64) {
        (self.private_memory@, self.stack@, self.ipc_buffer@)
    }

    /// The receive-slot bookkeeping of the task's CSpace.
    pub closed spec fn slots_spec(&self) -> Option<SlotTrackerView> {
        match self.slots {
            Some(t) => Some(t@),
            None => None,
        }
    }

    /// Returns the capability word of the task's TCB.
    pub fn tcb(&self) -> (r: u64)
        ensures
            r == self.tcb_spec(),
    {
        self.thread.tcb()
    }

    /// Returns the parent-held capability to the task's CSpace root.
    pub fn cspace(&self) -> (r: u64)
        ensures
            r == self.cspace_spec(),
    {
        self.cspace.root()
    }

    /// Returns the parent-held capability to the task's VSpace root.
    pub fn vspace(&self) -> (r: u64)
        ensures
            r == self.vspace_spec(),
    {
        self.vspace.root()
    }

    /// Returns the unmapped owner capability for private writable memory.
    pub fn private_memory(&self) -> (r: &Frame)
        ensures
            r@ == self.frames_spec().0,
    {
        &self.private_memory
    }

    /// Returns the unmapped owner capability for the task's stack page.
    pub fn stack(&self) -> (r: &Frame)
        ensures
            r@ == self.frames_spec().1,
    {
        &self.stack
    }

    /// Returns the unmapped owner capability for the IPC buffer page.
    pub fn ipc_buffer(&self) -> (r: &Frame)
        ensures
            r@ == self.frames_spec().2,
    {
        &self.ipc_buffer
    }

    /// Returns the root CSpace slots retaining the task's resources.
    pub fn root_slots(&self) -> (r: Range<usize>)
        ensures
            r == self.root_slots_spec(),
    {
        self.root_slots.start..self.root_slots.end
    }

    /// Reserves slot `index` of the task's CSpace as the destination of one
    /// transferred capability.
    pub fn receive_slot(&mut self, index: usize) -> (r: Result<ReceiveSlot<'_>, IpcError>)
        ensures
            final(self).cspace_spec() == old(self).cspace_spec(),
            final(self).root_slots_spec() == old(self).root_slots_spec(),
            old(self).slots_spec() is None ==> (r matches Err(e) && e == IpcError::InvalidReceiveSlot),
            old(self).slots_spec() matches Some(v) ==> (v.admission(index) is Ok <==> r is Ok),
            r matches Ok(slot) ==> slot.root == old(self).cspace_spec() && slot.size_bits
                == old(self).cspace_size_bits_spec() && slot.reservation.slot == index
                && *slot.reservation.state == RESERVED && old(self).slots_spec() is Some
                && final(self).slots_spec() == Some(old(self).slots_spec()->Some_0.with_state(index, *final(slot.reservation.state))),
            r is Err ==> final(self).slots_spec() == old(self).slots_spec(),
    {
        let root = self.cspace.root();
        let size_bits = self.cspace.size_bits();
        match &mut self.slots {
            Some(tracker) => receive_slot(root, size_bits, tracker, index),
            None => Err(IpcError::InvalidReceiveSlot),
        }
    }
}

impl<'a> Bootstrap<'a> {
    /// Records a constructed task: its resources are the root slots
    /// committed since `checkpoint`, and its CSpace bookkeeping marks the
    /// installed destinations.
    fn assemble_task(
        &self,
        checkpoint: usize,
        config: &TaskConfig<'_>,
        thread: Thread,
        cspace: CSpace,
        vspace: VSpace,
        private_memory: Frame,
        stack: Frame,
        ipc_buffer: Frame,
    ) -> (r: Result<Task, BootstrapError>)
        requires
            delegations_valid(
                config.cspace_size_bits,
                delegation_views(config.delegated_capabilities@),
                route_view(config.fault_route),
            ),
        ensures
            !self.slots_spec().valid_checkpoint(checkpoint) ==> r == Err::<Task, BootstrapError>(BootstrapError::RollbackFailed),
            self.slots_spec().valid_checkpoint(checkpoint) ==> (r matches Ok(task) && task.tcb_spec() == thread.tcb_spec()
                && task.cspace_spec() == cspace.root_spec() && task.vspace_spec() == vspace.root_spec()
                && task.frames_spec() == (private_memory@, stack@, ipc_buffer@)
                && task.cspace_size_bits_spec() == cspace.size_bits_spec()
                && task.root_slots_spec() == (Range { start: checkpoint, end: self.slots_spec().next })
                && ((1usize << config.cspace_size_bits) <= SlotTracker::MAX_SLOTS <==> task.slots_spec() is Some)
                && (task.slots_spec() matches Some(tracker) ==> installed_slots_refused(config, tracker))),
    {
        let root_slots = self.committed_slots(checkpoint)?;
        let route = match &config.fault_route {
            Some(route) => Some(route),
            None => None,
        };
        let slots = installed_slots(config.cspace_size_bits, config.delegated_capabilities, route);
        proof {
            if slots is Some {
                let caps = delegation_views(config.delegated_capabilities@);
                let tracker = slots->Some_0@;
                law_installed_slots_are_not_receive_slots(
                    config.cspace_size_bits,
                    caps,
                    route_view(config.fault_route),
                    tracker,
                );
                assert forall|i: int| 0 <= i < config.delegated_capabilities@.len() implies tracker.admission(
                    #[trigger] config.delegated_capabilities@[i]@.destination,
                ) == Err::<(), SlotError>(SlotError::Occupied) by {
                    assert(caps[i] == config.delegated_capabilities@[i]@);
                }
            }
        }
        Ok(Task { thread, cspace, vspace, private_memory, stack, ipc_buffer, root_slots, slots })
    }

}

/// Physical sizes of the kernel objects a task is built from.
#[derive(Debug, Clone, Copy, PartialEq, Eq)]
pub struct ObjectSizes {
    /// Physical size of one CNode slot, in address bits.
    pub cnode_slot_bits: usize,
    /// Physical size of a VSpace root object.
    pub vspace_bits: usize,
    /// Physical size of a base-page frame.
    pub frame_bits: usize,
    /// Physical size of a TCB.
    pub tcb_bits: usize,
}

/// A rights-restricted copy of `frame` was made in some root slot through
/// `copy`, and that copy was mapped through `map` into `root` at `address`
/// with `rights`; `slot` is that root slot.
pub open spec fn page_mapped_through<C, P>(
    copy: C,
    map: P,
    frame: u64,
    root: u64,
    address: usize,
    rights: CapRights,
    slot: usize,
) -> bool where C: Fn(usize, u64, CapRights) -> bool, P: Fn(u64, u64, usize, CapRights) -> bool {
    &&& call_ensures(copy, (slot, frame, rights), true)
    &&& call_ensures(map, (slot as u64, root, address, rights), true)
}

/// `frame` was mapped into `root` at `address` with `rights` through a copy
/// in some root slot.
pub open spec fn page_mapped<C, P>(copy: C, map: P, frame: u64, root: u64, address: usize, rights: CapRights) -> bool where
    C: Fn(usize, u64, CapRights) -> bool,
    P: Fn(u64, u64, usize, CapRights) -> bool,
 {
    exists|slot: usize| #[trigger] page_mapped_through(copy, map, frame, root, address, rights, slot)
}

/// The settings the TCB of a task of `config` is configured with, its IPC
/// buffer mapped through the copy in root slot `ipc_buffer_mapping`.
pub open spec fn task_tcb_settings(config: &TaskConfig<'_>, task: &Task, ipc_buffer_mapping: usize) -> TcbSettings {
    TcbSettings {
        fault_endpoint: match config.fault_route {
            Some(route) => route@.destination as u64,
            None => 0u64,
        },
        cspace_root: task.cspace_spec(),
        cspace_root_data: CNodeCapData { guard: 0, guard_size: (WORD_SIZE - config.cspace_size_bits) as usize },
        vspace_root: task.vspace_spec(),
        ipc_buffer_address: config.ipc_buffer_address as u64,
        ipc_buffer_mapping: ipc_buffer_mapping as u64,
    }
}

/// `write_registers` reported that the TCB `tcb` was given registers that
/// start at `entry` with stack pointer `stack_pointer` and the four
/// arguments in X0 through X3.
pub open spec fn registers_written<F: FnOnce(u64, &Registers) -> bool>(
    write_registers: F,
    tcb: u64,
    entry: usize,
    stack_pointer: usize,
    arguments: [usize; 4],
) -> bool {
    exists|registers: &Registers|
        registers@.pc == entry && registers@.sp == stack_pointer && registers@.gprs.len() == 31 && (forall|i: int|
            0 <= i < 4 ==> #[trigger] registers@.gprs[i] == arguments@[i]) && (forall|i: int|
            4 <= i < 31 ==> #[trigger] registers@.gprs[i] == 0) && #[trigger] call_ensures(
            write_registers,
            (tcb, registers),
            true,
        )
}

/// What a constructed task owes its configuration: a valid layout and
/// delegation list, every delegation and the fault route minted into its
/// CSpace, its four pages mapped with their rights, and its thread set to
/// start at the entry point on top of its stack page with its arguments.
pub open spec fn task_built<M, C, P, G, W>(
    config: &TaskConfig<'_>,
    task: &Task,
    mint: M,
    copy: C,
    map: P,
    configure: G,
    write_registers: W,
) -> bool where
    M: Fn(u64, usize, usize, DelegatedCapability) -> bool,
    C: Fn(usize, u64, CapRights) -> bool,
    P: Fn(u64, u64, usize, CapRights) -> bool,
    G: FnOnce(u64, TcbSettings) -> bool,
    W: FnOnce(u64, &Registers) -> bool,
 {
    &&& layout_spec(
        Frame::BYTES,
        config.code.address,
        config.code.entry,
        config.private_memory_address,
        config.stack_address,
        config.ipc_buffer_address,
        config.reserved_pages@,
    ) is Ok
    &&& delegations_valid(
        config.cspace_size_bits,
        delegation_views(config.delegated_capabilities@),
        route_view(config.fault_route),
    )
    &&& forall|i: int|
        0 <= i < config.delegated_capabilities@.len() ==> call_ensures(
            mint,
            (
                task.cspace_spec(),
                #[trigger] config.delegated_capabilities@[i]@.destination,
                config.cspace_size_bits,
                config.delegated_capabilities@[i],
            ),
            true,
        )
    &&& config.fault_route matches Some(route) ==> call_ensures(
        mint,
        (task.cspace_spec(), route@.destination, config.cspace_size_bits, route.delegation_spec()),
        true,
    )
    &&& task.cspace_size_bits_spec() == config.cspace_size_bits
    &&& page_mapped(copy, map, config.code.frame@, task.vspace_spec(), config.code.address, CapRights { read: true, write: false, grant: false, grant_reply: false })
    &&& page_mapped(copy, map, task.frames_spec().0, task.vspace_spec(), config.private_memory_address, CapRights { read: true, write: true, grant: false, grant_reply: false })
    &&& page_mapped(copy, map, task.frames_spec().1, task.vspace_spec(), config.stack_address, CapRights { read: true, write: true, grant: false, grant_reply: false })
    &&& exists|slot: usize|
        #[trigger] page_mapped_through(copy, map, task.frames_spec().2, task.vspace_spec(), config.ipc_buffer_address, CapRights { read: true, write: true, grant: false, grant_reply: false }, slot)
            && call_ensures(configure, (task.tcb_spec(), task_tcb_settings(config, task, slot)), true)
    &&& registers_written(
        write_registers,
        task.tcb_spec(),
        config.code.entry,
        (config.stack_address + Frame::BYTES) as usize,
        config.initial_arguments,
    )
}

/// `bits` is the physical size of one of the objects a task of `config`
/// is built from: its CNode, VSpace root, a translation table of one of
/// `levels`, a frame, or its TCB.
pub open spec fn task_object_size(config: &TaskConfig<'_>, sizes: ObjectSizes, levels: Seq<TableLevel>, bits: usize) -> bool {
    ||| bits == config.cspace_size_bits + sizes.cnode_slot_bits
    ||| bits == sizes.vspace_bits
    ||| bits == sizes.frame_bits
    ||| bits == sizes.tcb_bits
    ||| exists|level: int| 0 <= level < levels.len() && #[trigger] levels[level].object_bits == bits
}

/// Why the construction of a task of `config` stopped with `error`, the
/// root slots standing at `slots` when it stopped: the configuration was
/// refused before any kernel call; an allocation of one of the task's
/// objects was refused; or one of the kernel operations reported failure.
pub open spec fn construction_refused<R, M, A, T, C, P, G, W>(
    config: &TaskConfig<'_>,
    sizes: ObjectSizes,
    levels: Seq<TableLevel>,
    bootinfo: &BootInfo,
    retype: R,
    mint: M,
    assign: A,
    map_table: T,
    copy: C,
    map: P,
    configure: G,
    write_registers: W,
    slots: FreeSlotsView,
    error: BootstrapError,
) -> bool where
    R: Fn(usize, usize) -> RetypeOutcome,
    M: Fn(u64, usize, usize, DelegatedCapability) -> bool,
    A: FnOnce(u64) -> bool,
    T: Fn(usize, u64, u64, usize) -> bool,
    C: Fn(usize, u64, CapRights) -> bool,
    P: Fn(u64, u64, usize, CapRights) -> bool,
    G: FnOnce(u64, TcbSettings) -> bool,
    W: FnOnce(u64, &Registers) -> bool,
 {
    match error {
        BootstrapError::InvalidTaskConfiguration => {
            ||| layout_spec(
                Frame::BYTES,
                config.code.address,
                config.code.entry,
                config.private_memory_address,
                config.stack_address,
                config.ipc_buffer_address,
                config.reserved_pages@,
            ) is Err
            ||| !delegations_valid(
                config.cspace_size_bits,
                delegation_views(config.delegated_capabilities@),
                route_view(config.fault_route),
            )
            ||| config.cspace_size_bits + sizes.cnode_slot_bits > usize::MAX
            ||| exists|level: int| 0 <= level < levels.len() && #[trigger] levels[level].span_bits >= usize::BITS
        },
        BootstrapError::NoFreeSlots => slots.is_exhausted(),
        BootstrapError::NoKernelMemory | BootstrapError::KernelAllocationFailed => exists|bits: usize|
            task_object_size(config, sizes, levels, bits) && #[trigger] allocation_refused(bootinfo, retype, bits, slots, error),
        BootstrapError::CSpaceCreationFailed => {
            ||| exists|root: u64, slot: usize, depth: usize, delegation: DelegatedCapability|
                #[trigger] call_ensures(mint, (root, slot, depth, delegation), false)
            ||| exists|slot: usize, source: u64, rights: CapRights| #[trigger] call_ensures(copy, (slot, source, rights), false)
        },
        BootstrapError::VSpaceCreationFailed => {
            ||| exists|root: u64| #[trigger] call_ensures(assign, (root,), false)
            ||| exists|level: usize, table: u64, root: u64, address: usize|
                #[trigger] call_ensures(map_table, (level, table, root, address), false)
        },
        BootstrapError::FrameMappingFailed => exists|mapping: u64, root: u64, address: usize, rights: CapRights|
            #[trigger] call_ensures(map, (mapping, root, address, rights), false),
        BootstrapError::ThreadConfigurationFailed => {
            ||| exists|tcb: u64, settings: TcbSettings| #[trigger] call_ensures(configure, (tcb, settings), false)
            ||| exists|tcb: u64, registers: &Registers| #[trigger] call_ensures(write_registers, (tcb, registers), false)
        },
        _ => false,
    }
}

/// The task's own capabilities lie in its root slots, in the order they
/// were created: its CNode first, then its VSpace root, its private
/// memory, stack and IPC buffer frames, and last its TCB.
pub open spec fn task_resources_in_order(task: &Task) -> bool {
    &&& task.root_slots_spec().start == task.cspace_spec()
    &&& task.cspace_spec() < task.vspace_spec()
    &&& task.vspace_spec() < task.frames_spec().0
    &&& task.frames_spec().0 < task.frames_spec().1
    &&& task.frames_spec().1 < task.frames_spec().2
    &&& task.frames_spec().2 < task.tcb_spec()
    &&& task.tcb_spec() < task.root_slots_spec().end
}

impl<'a> Bootstrap<'a> {
    /// Constructs a suspended task, rolling back root slots on failure. The
    /// layout is validated before anything is allocated. Kernel objects are
    /// created through `retype`, delegations minted through `mint`, the
    /// VSpace assigned through `assign` and its tables mapped through
    /// `map_table`, frames copied through `copy` and mapped through `map`,
    /// the thread configured through `configure` and `write_registers`, and
    /// a failed construction's slots deleted through `delete`.
    pub fn create_task(
        &mut self,
        config: TaskConfig<'_>,
        sizes: ObjectSizes,
        levels: &[TableLevel],
        retype: impl Fn(usize, usize) -> RetypeOutcome,
        mint: impl Fn(u64, usize, usize, DelegatedCapability) -> bool,
        assign: impl FnOnce(u64) -> bool,
        map_table: impl Fn(usize, u64, u64, usize) -> bool,
        copy: impl Fn(usize, u64, CapRights) -> bool,
        map: impl Fn(u64, u64, usize, CapRights) -> bool,
        configure: impl FnOnce(u64, TcbSettings) -> bool,
        write_registers: impl FnOnce(u64, &Registers) -> bool,
        delete: impl Fn(usize) -> bool,
    ) -> (r: Result<Task, BootstrapError>)
        requires
            config.reserved_pages@.len() + 4 <= usize::MAX,
            forall|untyped: usize, destination: usize| call_requires(retype, (untyped, destination)),
            forall|root: u64, slot: usize, depth: usize, delegation: DelegatedCapability|
                call_requires(mint, (root, slot, depth, delegation)),
            forall|root: u64| call_requires(assign, (root,)),
            forall|level: usize, table: u64, root: u64, address: usize|
                call_requires(map_table, (level, table, root, address)),
            forall|slot: usize, source: u64, granted: CapRights| call_requires(copy, (slot, source, granted)),
            forall|mapping: u64, root: u64, at: usize, granted: CapRights| call_requires(map, (mapping, root, at, granted)),
            forall|tcb: u64, settings: TcbSettings| call_requires(configure, (tcb, settings)),
            forall|tcb: u64, registers: &Registers| call_requires(write_registers, (tcb, registers)),
            forall|slot: usize| call_requires(delete, (slot,)),
        ensures
            final(self).bootinfo_spec() == old(self).bootinfo_spec(),
            layout_spec(
                Frame::BYTES,
                config.code.address,
                config.code.entry,
                config.private_memory_address,
                config.stack_address,
                config.ipc_buffer_address,
                config.reserved_pages@,
            ) is Err ==> r == Err::<Task, BootstrapError>(BootstrapError::InvalidTaskConfiguration)
                && final(self).slots_spec() == old(self).slots_spec(),
            r matches Err(e) ==> e == BootstrapError::RollbackFailed || final(self).slots_spec() == old(self).slots_spec(),
            !delegations_valid(
                config.cspace_size_bits,
                delegation_views(config.delegated_capabilities@),
                route_view(config.fault_route),
            ) || config.cspace_size_bits + sizes.cnode_slot_bits > usize::MAX ==> r == Err::<Task, BootstrapError>(
                BootstrapError::InvalidTaskConfiguration,
            ) && final(self).slots_spec() == old(self).slots_spec(),
            layout_spec(
                Frame::BYTES,
                config.code.address,
                config.code.entry,
                config.private_memory_address,
                config.stack_address,
                config.ipc_buffer_address,
                config.reserved_pages@,
            ) is Ok && old(self).slots_spec().is_exhausted() && delegations_valid(
                config.cspace_size_bits,
                delegation_views(config.delegated_capabilities@),
                route_view(config.fault_route),
            ) && config.cspace_size_bits + sizes.cnode_slot_bits <= usize::MAX ==> r == Err::<Task, BootstrapError>(
                BootstrapError::NoFreeSlots,
            ) && final(self).slots_spec() == old(self).slots_spec(),
            r matches Err(e) ==> (e != BootstrapError::RollbackFailed ==> exists|slots: FreeSlotsView|
                slots.first == old(self).slots_spec().first && slots.end == old(self).slots_spec().end
                    && old(self).slots_spec().next <= slots.next && #[trigger] construction_refused(
                    &config,
                    sizes,
                    levels@,
                    old(self).bootinfo_spec(),
                    retype,
                    mint,
                    assign,
                    map_table,
                    copy,
                    map,
                    configure,
                    write_registers,
                    slots,
                    e,
                ) && forall|slot: usize|
                    old(self).slots_spec().next <= slot < slots.next ==> call_ensures(delete, (slot,), true)),
            r matches Err(e) ==> (e == BootstrapError::RollbackFailed ==> exists|slot: usize|
                old(self).slots_spec().next <= slot < final(self).slots_spec().next && call_ensures(
                    delete,
                    (slot,),
                    false,
                )),
            r matches Ok(task) ==> {
                &&& task_built(&config, &task, mint, copy, map, configure, write_registers)
                &&& task_resources_in_order(&task)
                &&& task.slots_spec() matches Some(tracker) ==> installed_slots_refused(&config, tracker)
                &&& task.root_slots_spec() == (Range { start: old(self).slots_spec().next, end: final(self).slots_spec().next })
                &&& final(self).slots_spec().first == old(self).slots_spec().first
                &&& final(self).slots_spec().end == old(self).slots_spec().end
            },
    {
        let layout = match config.layout() {
            Ok(layout) => layout,
            Err(error) => {
                assert(construction_refused(
                    &config,
                    sizes,
                    levels@,
                    old(self).bootinfo_spec(),
                    retype,
                    mint,
                    assign,
                    map_table,
                    copy,
                    map,
                    configure,
                    write_registers,
                    self.slots_spec(),
                    error,
                ));
                return Err(error);
            },
        };
        let checkpoint = self.checkpoint();
        match self.create_task_inner(
            &config,
            sizes,
            levels,
            layout,
            checkpoint,
            &retype,
            &mint,
            assign,
            &map_table,
            &copy,
            &map,
            configure,
            write_registers,
        ) {
            Ok(task) => Ok(task),
            Err(error) => {
                let ghost stopped = self.slots_spec();
                match self.rollback(checkpoint, delete) {
                    Ok(()) => {
                        assert(stopped.first == old(self).slots_spec().first && stopped.end == old(self).slots_spec().end);
                        Err(error)
                    },
                    Err(_) => Err(BootstrapError::RollbackFailed),
                }
            },
        }
    }

    /// Performs construction after layout validation establishes safety.
    #[verifier::rlimit(40)]
    fn create_task_inner(
        &mut self,
        config: &TaskConfig<'_>,
        sizes: ObjectSizes,
        levels: &[TableLevel],
        layout: TaskLayout,
        checkpoint: usize,
        retype: &impl Fn(usize, usize) -> RetypeOutcome,
        mint: &impl Fn(u64, usize, usize, DelegatedCapability) -> bool,
        assign: impl FnOnce(u64) -> bool,
        map_table: &impl Fn(usize, u64, u64, usize) -> bool,
        copy: &impl Fn(usize, u64, CapRights) -> bool,
        map: &impl Fn(u64, u64, usize, CapRights) -> bool,
        configure: impl FnOnce(u64, TcbSettings) -> bool,
        write_registers: impl FnOnce(u64, &Registers) -> bool,
    ) -> (r: Result<Task, BootstrapError>)
        requires
            config.reserved_pages@.len() + 4 <= usize::MAX,
            checkpoint == old(self).slots_spec().next,
            old(self).slots_spec().valid_checkpoint(checkpoint),
            layout_spec(
                Frame::BYTES,
                config.code.address,
                config.code.entry,
                config.private_memory_address,
                config.stack_address,
                config.ipc_buffer_address,
                config.reserved_pages@,
            ) == Ok::<TaskLayout, LayoutError>(layout),
            forall|untyped: usize, destination: usize| call_requires(*retype, (untyped, destination)),
            forall|root: u64, slot: usize, depth: usize, delegation: DelegatedCapability|
                call_requires(*mint, (root, slot, depth, delegation)),
            forall|root: u64| call_requires(assign, (root,)),
            forall|level: usize, table: u64, root: u64, address: usize|
                call_requires(*map_table, (level, table, root, address)),
            forall|slot: usize, source: u64, granted: CapRights| call_requires(*copy, (slot, source, granted)),
            forall|mapping: u64, root: u64, at: usize, granted: CapRights| call_requires(*map, (mapping, root, at, granted)),
            forall|tcb: u64, settings: TcbSettings| call_requires(configure, (tcb, settings)),
            forall|tcb: u64, registers: &Registers| call_requires(write_registers, (tcb, registers)),
        ensures
            final(self).bootinfo_spec() == old(self).bootinfo_spec(),
            final(self).slots_spec().first == old(self).slots_spec().first,
            final(self).slots_spec().end == old(self).slots_spec().end,
            old(self).slots_spec().next <= final(self).slots_spec().next,
            r matches Ok(task) ==> task_built(config, &task, *mint, *copy, *map, configure, write_registers)
                && task.root_slots_spec() == (Range { start: checkpoint, end: final(self).slots_spec().next }),
            !delegations_valid(
                config.cspace_size_bits,
                delegation_views(config.delegated_capabilities@),
                route_view(config.fault_route),
            ) || config.cspace_size_bits + sizes.cnode_slot_bits > usize::MAX ==> r == Err::<Task, BootstrapError>(
                BootstrapError::InvalidTaskConfiguration,
            ) && final(self).slots_spec() == old(self).slots_spec(),
            old(self).slots_spec().is_exhausted() ==> r is Err && final(self).slots_spec() == old(self).slots_spec(),
            r matches Ok(task) ==> task_resources_in_order(&task),
            r matches Ok(task) ==> (task.slots_spec() matches Some(tracker) ==> installed_slots_refused(config, tracker)),
            r matches Err(e) ==> construction_refused(
                config,
                sizes,
                levels@,
                old(self).bootinfo_spec(),
                *retype,
                *mint,
                assign,
                *map_table,
                *copy,
                *map,
                configure,
                write_registers,
                final(self).slots_spec(),
                e,
            ),
            old(self).slots_spec().is_exhausted() && delegations_valid(
                config.cspace_size_bits,
                delegation_views(config.delegated_capabilities@),
                route_view(config.fault_route),
            ) && config.cspace_size_bits + sizes.cnode_slot_bits <= usize::MAX ==> r == Err::<Task, BootstrapError>(
                BootstrapError::NoFreeSlots,
            ),
    {
        let route = match &config.fault_route {
            Some(route) => Some(route),
            None => None,
        };
        let cnode_bits = match config.cspace_size_bits.checked_add(sizes.cnode_slot_bits) {
            Some(bits) => bits,
            None => return Err(BootstrapError::InvalidTaskConfiguration),
        };
        let cspace = match CSpace::create(
            self,
            config.cspace_size_bits,
            config.delegated_capabilities,
            route,
            cnode_bits,
            retype,
            mint,
        ) {
            Ok(cspace) => cspace,
            Err(error) => {
                proof {
                    let root = old(self).slots_spec().next as u64;
                    let caps = config.delegated_capabilities@;
                    if error == BootstrapError::CSpaceCreationFailed {
                        if exists|i: int| 0 <= i < caps.len() && call_ensures(
                            *mint,
                            (root, #[trigger] caps[i]@.destination, config.cspace_size_bits, caps[i]),
                            false,
                        ) {
                            let i = choose|i: int| 0 <= i < caps.len() && call_ensures(
                                *mint,
                                (root, #[trigger] caps[i]@.destination, config.cspace_size_bits, caps[i]),
                                false,
                            );
                            assert(call_ensures(*mint, (root, caps[i]@.destination, config.cspace_size_bits, caps[i]), false));
                        }
                    }
                    if error == BootstrapError::NoKernelMemory || error == BootstrapError::KernelAllocationFailed {
                        lemma_refusal_through_reference(old(self).bootinfo_spec(), *retype, cnode_bits, self.slots_spec(), error);
                        assert(task_object_size(config, sizes, levels@, cnode_bits));
                    }
                }
                return Err(error);
            },
        };
        let page_addresses = config.page_addresses();
        assert(page_addresses@.len() + config.reserved_pages@.len() <= usize::MAX);
        let ghost before_vspace = self.slots_spec();
        let vspace = match VSpace::create(
            self,
            page_addresses.as_slice(),
            config.reserved_pages,
            sizes.vspace_bits,
            levels,
            retype,
            assign,
            map_table,
        ) {
            Ok(vspace) => vspace,
            Err(error) => {
                proof {
                    if error == BootstrapError::NoKernelMemory || error == BootstrapError::KernelAllocationFailed
                        || error == BootstrapError::NoFreeSlots {
                        if allocation_refused(old(self).bootinfo_spec(), retype, sizes.vspace_bits, before_vspace, error)
                            && self.slots_spec() == before_vspace {
                            lemma_refusal_through_reference(old(self).bootinfo_spec(), *retype, sizes.vspace_bits, self.slots_spec(), error);
                            assert(task_object_size(config, sizes, levels@, sizes.vspace_bits));
                        } else {
                            let level = choose|level: int|
                                0 <= level < levels@.len() && allocation_refused(
                                    old(self).bootinfo_spec(),
                                    retype,
                                    #[trigger] levels@[level].object_bits,
                                    self.slots_spec(),
                                    error,
                                );
                            lemma_refusal_through_reference(old(self).bootinfo_spec(), *retype, levels@[level].object_bits, self.slots_spec(), error);
                            assert(task_object_size(config, sizes, levels@, levels@[level].object_bits));
                        }
                    }
                }
                return Err(error);
            },
        };
        proof {
            law_valid_layout_pages_are_distinct(
                Frame::BYTES,
                config.code.address,
                config.code.entry,
                config.private_memory_address,
                config.stack_address,
                config.ipc_buffer_address,
                config.reserved_pages@,
            );
            let all = seq![config.code.address, config.private_memory_address, config.stack_address, config.ipc_buffer_address]
                + config.reserved_pages@;
            assert(all[0] == config.code.address && all[1] == config.private_memory_address);
            assert(all[2] == config.stack_address && all[3] == config.ipc_buffer_address);
        }
        let ghost before = self.slots_spec();
        let ghost code_slot = before.next;
        match vspace.map_frame(self, config.code.frame, config.code.address, CapRights::read_only(), copy, map) {
            Ok(mapping) => {
                assert(page_mapped_through(*copy, *map, (config.code.frame)@, vspace.root_spec(), config.code.address, CapRights { read: true, write: false, grant: false, grant_reply: false }, code_slot));
                mapping
            },
            Err(error) => {
                proof {
                    if error == BootstrapError::CSpaceCreationFailed {
                        assert(call_ensures(*copy, (before.next, (config.code.frame)@, CapRights { read: true, write: false, grant: false, grant_reply: false }), false));
                    }
                    if error == BootstrapError::FrameMappingFailed {
                        assert(call_ensures(*map, (before.next as u64, vspace.root_spec(), config.code.address, CapRights { read: true, write: false, grant: false, grant_reply: false }), false));
                    }
                }
                return Err(error);
            },
        };
        let private_memory = match self.allocate_frame(sizes.frame_bits, retype) {
            Ok(frame) => frame,
            Err(error) => {
                proof {
                    lemma_refusal_through_reference(old(self).bootinfo_spec(), *retype, sizes.frame_bits, self.slots_spec(), error);
                    assert(task_object_size(config, sizes, levels@, sizes.frame_bits));
                }
                return Err(error);
            },
        };
        let ghost before = self.slots_spec();
        let ghost private_slot = before.next;
        match vspace.map_frame(self, &private_memory, config.private_memory_address, CapRights::read_write(), copy, map) {
            Ok(mapping) => {
                assert(page_mapped_through(*copy, *map, private_memory@, vspace.root_spec(), config.private_memory_address, CapRights { read: true, write: true, grant: false, grant_reply: false }, private_slot));
                mapping
            },
            Err(error) => {
                proof {
                    if error == BootstrapError::CSpaceCreationFailed {
                        assert(call_ensures(*copy, (before.next, (&private_memory)@, CapRights { read: true, write: true, grant: false, grant_reply: false }), false));
                    }
                    if error == BootstrapError::FrameMappingFailed {
                        assert(call_ensures(*map, (before.next as u64, vspace.root_spec(), config.private_memory_address, CapRights { read: true, write: true, grant: false, grant_reply: false }), false));
                    }
                }
                return Err(error);
            },
        };
        let stack = match self.allocate_frame(sizes.frame_bits, retype) {
            Ok(frame) => frame,
            Err(error) => {
                proof {
                    lemma_refusal_through_reference(old(self).bootinfo_spec(), *retype, sizes.frame_bits, self.slots_spec(), error);
                    assert(task_object_size(config, sizes, levels@, sizes.frame_bits));
                }
                return Err(error);
            },
        };
        let ghost before = self.slots_spec();
        let ghost stack_slot = before.next;
        match vspace.map_frame(self, &stack, config.stack_address, CapRights::read_write(), copy, map) {
            Ok(mapping) => {
                assert(page_mapped_through(*copy, *map, stack@, vspace.root_spec(), config.stack_address, CapRights { read: true, write: true, grant: false, grant_reply: false }, stack_slot));
                mapping
            },
            Err(error) => {
                proof {
                    if error == BootstrapError::CSpaceCreationFailed {
                        assert(call_ensures(*copy, (before.next, (&stack)@, CapRights { read: true, write: true, grant: false, grant_reply: false }), false));
                    }
                    if error == BootstrapError::FrameMappingFailed {
                        assert(call_ensures(*map, (before.next as u64, vspace.root_spec(), config.stack_address, CapRights { read: true, write: true, grant: false, grant_reply: false }), false));
                    }
                }
                return Err(error);
            },
        };
        let ipc_buffer = match self.allocate_frame(sizes.frame_bits, retype) {
            Ok(frame) => frame,
            Err(error) => {
                proof {
                    lemma_refusal_through_reference(old(self).bootinfo_spec(), *retype, sizes.frame_bits, self.slots_spec(), error);
                    assert(task_object_size(config, sizes, levels@, sizes.frame_bits));
                }
                return Err(error);
            },
        };
        let ghost before = self.slots_spec();
        let ghost ipc_slot = before.next;
        let ipc_buffer_mapping = match vspace.map_frame(self, &ipc_buffer, config.ipc_buffer_address, CapRights::read_write(), copy, map) {
            Ok(mapping) => {
                assert(page_mapped_through(*copy, *map, ipc_buffer@, vspace.root_spec(), config.ipc_buffer_address, CapRights { read: true, write: true, grant: false, grant_reply: false }, ipc_slot));
                mapping
            },
            Err(error) => {
                proof {
                    if error == BootstrapError::CSpaceCreationFailed {
                        assert(call_ensures(*copy, (before.next, (&ipc_buffer)@, CapRights { read: true, write: true, grant: false, grant_reply: false }), false));
                    }
                    if error == BootstrapError::FrameMappingFailed {
                        assert(call_ensures(*map, (before.next as u64, vspace.root_spec(), config.ipc_buffer_address, CapRights { read: true, write: true, grant: false, grant_reply: false }), false));
                    }
                }
                return Err(error);
            },
        };
        let thread_config = config.thread_config(&layout, ipc_buffer_mapping);
        let thread = match Thread::create(
            self,
            &cspace,
            &vspace,
            thread_config,
            sizes.tcb_bits,
            retype,
            configure,
            write_registers,
        ) {
            Ok(thread) => thread,
            Err(error) => {
                proof {
                    if error != BootstrapError::ThreadConfigurationFailed {
                        lemma_refusal_through_reference(old(self).bootinfo_spec(), *retype, sizes.tcb_bits, self.slots_spec(), error);
                        assert(task_object_size(config, sizes, levels@, sizes.tcb_bits));
                    }
                }
                return Err(error);
            },
        };
        let ghost settings = tcb_settings(thread_config, &cspace, &vspace);
        let ghost frames = (private_memory@, stack@, ipc_buffer@);
        let result = self.assemble_task(checkpoint, config, thread, cspace, vspace, private_memory, stack, ipc_buffer);
        proof {
            if result is Ok {
                let task = result->Ok_0;
                assert(settings == task_tcb_settings(config, &task, ipc_slot));
                assert(page_mapped_through(*copy, *map, frames.2, task.vspace_spec(), config.ipc_buffer_address, CapRights { read: true, write: true, grant: false, grant_reply: false }, ipc_slot));
            }
        }
        result
    }
}

impl Task {
    /// Maps a recovery frame into a previously prepared task address, read
    /// and write, through a copy in the next free root slot made by `copy`
    /// and mapped by `map`, as by [`VSpace::map_frame`]. A failed mapping
    /// is rolled back through `delete` and its error reported; a successful
    /// one must have committed exactly one root slot, which retains the
    /// mapping. The task must be blocked or suspended, `address` must be
    /// unmapped, and no live task reference may cover the page until it is
    /// mapped.
    pub fn map_recovery_frame(
        &self,
        bootstrap: &mut Bootstrap<'_>,
        frame: &Frame,
        address: usize,
        copy: impl FnOnce(usize, u64, CapRights) -> bool,
        map: impl FnOnce(u64, u64, usize, CapRights) -> bool,
        delete: impl Fn(usize) -> bool,
    ) -> (r: Result<TaskMapping, BootstrapError>)
        requires
            forall|slot: usize, source: u64, granted: CapRights| call_requires(copy, (slot, source, granted)),
            forall|mapping: u64, root: u64, at: usize, granted: CapRights| call_requires(map, (mapping, root, at, granted)),
            forall|slot: usize| call_requires(delete, (slot,)),
        ensures
            final(bootstrap).bootinfo_spec() == old(bootstrap).bootinfo_spec(),
            r matches Ok(mapping) ==> {
                &&& mapping.root_slot_spec() == old(bootstrap).slots_spec().next
                &&& mapping.mapping_spec() == old(bootstrap).slots_spec().next as u64
                &&& final(bootstrap).slots_spec() == old(bootstrap).slots_spec().advanced()
                &&& call_ensures(copy, (old(bootstrap).slots_spec().next, frame@, CapRights { read: true, write: true, grant: false, grant_reply: false }), true)
                &&& call_ensures(map, (mapping.mapping_spec(), self.vspace_spec(), address, CapRights { read: true, write: true, grant: false, grant_reply: false }), true)
            },
            r matches Err(e) ==> e == BootstrapError::RollbackFailed || final(bootstrap).slots_spec() == old(bootstrap).slots_spec(),
            address % Frame::BYTES != 0 ==> r == Err::<TaskMapping, BootstrapError>(BootstrapError::InvalidTaskConfiguration)
                && final(bootstrap).slots_spec() == old(bootstrap).slots_spec(),
            address % Frame::BYTES == 0 && old(bootstrap).slots_spec().is_exhausted() ==> r == Err::<
                TaskMapping,
                BootstrapError,
            >(BootstrapError::NoFreeSlots) && final(bootstrap).slots_spec() == old(bootstrap).slots_spec(),
            r matches Err(e) ==> e == BootstrapError::InvalidTaskConfiguration || e == BootstrapError::NoFreeSlots
                || e == BootstrapError::CSpaceCreationFailed || e == BootstrapError::FrameMappingFailed || e
                == BootstrapError::RollbackFailed,
            r matches Err(e) ==> (e == BootstrapError::CSpaceCreationFailed ==> call_ensures(
                copy,
                (old(bootstrap).slots_spec().next, frame@, CapRights { read: true, write: true, grant: false, grant_reply: false }),
                false,
            )),
            r matches Err(e) ==> (e == BootstrapError::FrameMappingFailed || e == BootstrapError::RollbackFailed
                ==> call_ensures(
                copy,
                (old(bootstrap).slots_spec().next, frame@, CapRights { read: true, write: true, grant: false, grant_reply: false }),
                true,
            ) && call_ensures(
                map,
                (old(bootstrap).slots_spec().next as u64, self.vspace_spec(), address, CapRights { read: true, write: true, grant: false, grant_reply: false }),
                false,
            ) && call_ensures(delete, (old(bootstrap).slots_spec().next,), e == BootstrapError::FrameMappingFailed)),
    {
        let checkpoint = bootstrap.checkpoint();
        let mapping = match self.vspace.map_frame(bootstrap, frame, address, CapRights::read_write(), copy, map) {
            Ok(mapping) => mapping,
            Err(error) => {
                let ghost advanced = bootstrap.slots_spec();
                match bootstrap.rollback(checkpoint, delete) {
                    Ok(()) => {
                        assert(advanced.next == checkpoint || call_ensures(delete, (checkpoint,), true));
                        return Err(error);
                    },
                    Err(failure) => {
                        assert(call_ensures(delete, (checkpoint,), false)) by {
                            let slot = choose|slot: usize| checkpoint <= slot < advanced.next && call_ensures(delete, (slot,), false);
                            assert(slot == checkpoint);
                        }
                        return Err(failure);
                    },
                }
            },
        };
        let slots = bootstrap.committed_slots(checkpoint)?;
        if slots.start < slots.end && slots.end - slots.start == 1 {
            Ok(TaskMapping::new(mapping, slots.start))
        } else {
            Err(BootstrapError::RollbackFailed)
        }
    }
}

} // verus!
