//! VSpace layout decisions and base-page mapping records.
use vstd::prelude::*;
use crate::boot::{
    allocation_refused, lemma_refusal_through_reference, BootInfo, created_by, first_fit_outcome, lemma_first_fit_through_reference, Bootstrap,
    RetypeOutcome,
};
use crate::cspace::CapRights;
use crate::errors::BootstrapError;

verus! {

/// A frame capability whose mappings are managed explicitly by its owner.
pub struct Frame(u64);

impl View for Frame {
    type V = u64;

    /// The frame's owner capability word.
    closed spec fn view(&self) -> u64 {
        self.0
    }
}

impl Frame {
    /// Size and required virtual-address alignment of a base page.
    pub const BYTES: usize = 4096;

    /// A frame for the given owner capability word.
    pub fn new(cap: u64) -> (r: Self)
        ensures
            r@ == cap,
    {
        Frame(cap)
    }

    /// Returns the owner capability used to derive mapping caps.
    pub fn cap(&self) -> (r: u64)
        ensures
            r == self@,
    {
        self.0
    }

    /// Checks an address at which this frame is to be mapped into the
    /// initial address space: it must be page-aligned.
    pub fn check_map_address(address: usize) -> (r: Result<(), BootstrapError>)
        ensures
            address % Self::BYTES == 0 <==> r is Ok,
            r matches Err(e) ==> e == BootstrapError::InvalidImageRegion,
    {
        if !address.is_multiple_of(Self::BYTES) {
            return Err(BootstrapError::InvalidImageRegion);
        }
        Ok(())
    }

    /// Maps this frame as read/write normal RAM at `address` in the initial
    /// address space, through `map`, which maps the frame capability it is
    /// given at the address it is given and reports success. A misaligned
    /// address is refused before any mapping is attempted.
    pub fn map(&self, address: usize, map: impl FnOnce(u64, usize) -> bool) -> (r: Result<(), BootstrapError>)
        requires
            call_requires(map, (self@, address)),
        ensures
            address % Self::BYTES != 0 ==> r == Err::<(), BootstrapError>(BootstrapError::InvalidImageRegion),
            address % Self::BYTES == 0 ==> exists|mapped: bool|
                #[trigger] call_ensures(map, (self@, address), mapped) && if mapped {
                    r is Ok
                } else {
                    r == Err::<(), BootstrapError>(BootstrapError::FrameMappingFailed)
                },
    {
        Self::check_map_address(address)?;
        if map(self.0, address) {
            Ok(())
        } else {
            Err(BootstrapError::FrameMappingFailed)
        }
    }

    /// Removes the mapping held by this capability, through `unmap`, which
    /// unmaps the frame capability it is given and reports success.
    pub fn unmap(&self, unmap: impl FnOnce(u64) -> bool) -> (r: Result<(), BootstrapError>)
        requires
            call_requires(unmap, (self@,)),
        ensures
            exists|unmapped: bool|
                #[trigger] call_ensures(unmap, (self@,), unmapped) && if unmapped {
                    r is Ok
                } else {
                    r == Err::<(), BootstrapError>(BootstrapError::FrameUnmappingFailed)
                },
    {
        if unmap(self.0) {
            Ok(())
        } else {
            Err(BootstrapError::FrameUnmappingFailed)
        }
    }
}

/// A root-held capability for one frame mapping in a task VSpace.
pub struct TaskMapping {
    mapping: u64,
    root_slot: usize,
}

impl TaskMapping {
    /// A mapping held by capability word `mapping` in root slot `root_slot`.
    pub fn new(mapping: u64, root_slot: usize) -> (r: Self)
        ensures
            r.mapping_spec() == mapping,
            r.root_slot_spec() == root_slot,
    {
        TaskMapping { mapping, root_slot }
    }

    /// The mapping capability word.
    pub closed spec fn mapping_spec(&self) -> u64 {
        self.mapping
    }

    /// The root slot retaining the mapping capability.
    pub closed spec fn root_slot_spec(&self) -> usize {
        self.root_slot
    }

    /// Returns the mapping capability word.
    pub fn mapping(&self) -> (r: u64)
        ensures
            r == self.mapping_spec(),
    {
        self.mapping
    }

    /// Returns the explicitly retained root CSpace slot.
    pub fn root_slot(&self) -> (r: usize)
        ensures
            r == self.root_slot_spec(),
    {
        self.root_slot
    }

    /// Removes this mapping from the task VSpace, through `unmap`, which
    /// unmaps the mapping capability it is given and reports success.
    pub fn unmap(&self, unmap: impl FnOnce(u64) -> bool) -> (r: Result<(), BootstrapError>)
        requires
            call_requires(unmap, (self.mapping_spec(),)),
        ensures
            exists|unmapped: bool|
                #[trigger] call_ensures(unmap, (self.mapping_spec(),), unmapped) && if unmapped {
                    r is Ok
                } else {
                    r == Err::<(), BootstrapError>(BootstrapError::FrameUnmappingFailed)
                },
    {
        if unmap(self.mapping) {
            Ok(())
        } else {
            Err(BootstrapError::FrameUnmappingFailed)
        }
    }
}

/// A task's VSpace root.
pub struct VSpace {
    root: u64,
}

impl VSpace {
    /// A VSpace with the given root capability word.
    pub fn new(root: u64) -> (r: Self)
        ensures
            r.root_spec() == root,
    {
        VSpace { root }
    }

    /// The root capability word.
    pub closed spec fn root_spec(&self) -> u64 {
        self.root
    }

    /// Returns the parent-held VSpace root capability.
    pub fn root(&self) -> (r: u64)
        ensures
            r == self.root_spec(),
    {
        self.root
    }

    /// Checks an address at which a frame is to be mapped into this VSpace:
    /// it must be page-aligned.
    pub fn check_frame_address(address: usize) -> (r: Result<(), BootstrapError>)
        ensures
            address % Frame::BYTES == 0 <==> r is Ok,
            r matches Err(e) ==> e == BootstrapError::InvalidTaskConfiguration,
    {
        if !address.is_multiple_of(Frame::BYTES) {
            return Err(BootstrapError::InvalidTaskConfiguration);
        }
        Ok(())
    }
}

/// The span of one translation table at a level whose entries cover
/// `span_bits` address bits: refused when it does not fit a word.
pub fn table_span(span_bits: usize) -> (r: Result<usize, BootstrapError>)
    ensures
        span_bits < usize::BITS ==> r == Ok::<usize, BootstrapError>(1usize << span_bits),
        r matches Ok(span) ==> span > 0,
        span_bits >= usize::BITS ==> r == Err::<usize, BootstrapError>(
            BootstrapError::InvalidTaskConfiguration,
        ),
{
    if span_bits >= usize::BITS as usize {
        return Err(BootstrapError::InvalidTaskConfiguration);
    }
    assert(span_bits < usize::BITS ==> (1usize << span_bits) > 0) by (bit_vector);
    Ok(1usize << span_bits)
}

/// No address before position `index` lies in the same table as the
/// address at `index`.
pub open spec fn opens_table(addresses: Seq<usize>, index: int, span: usize) -> bool {
    forall|j: int| 0 <= j < index ==> #[trigger] (addresses[j] / span) != addresses[index] / span
}

/// The addresses, among the first `n`, that each need a new table: those
/// whose table no earlier address shares, in order.
pub open spec fn tables_needed_spec(addresses: Seq<usize>, span: usize, n: nat) -> Seq<usize>
    decreases n,
{
    if n == 0 {
        Seq::empty()
    } else {
        let before = tables_needed_spec(addresses, span, (n - 1) as nat);
        if opens_table(addresses, n - 1, span) {
            before.push(addresses[n - 1])
        } else {
            before
        }
    }
}

/// Whether an address before position `index` lies in the same table.
fn shares_table_before(addresses: &[usize], reserved: &[usize], index: usize, span: usize) -> (r: bool)
    requires
        span > 0,
        index < addresses@.len() + reserved@.len(),
    ensures
        r == !opens_table(addresses@ + reserved@, index as int, span),
{
    let ghost all = addresses@ + reserved@;
    let target = if index < addresses.len() {
        addresses[index]
    } else {
        reserved[index - addresses.len()]
    };
    assert(target == all[index as int]);
    let mut j: usize = 0;
    while j < index
        invariant
            j <= index,
            index < addresses@.len() + reserved@.len(),
            all == addresses@ + reserved@,
            target == all[index as int],
            span > 0,
            forall|k: int| 0 <= k < j ==> #[trigger] (all[k] / span) != target / span,
        decreases index - j,
    {
        let prior = if j < addresses.len() {
            addresses[j]
        } else {
            reserved[j - addresses.len()]
        };
        assert(prior == all[j as int]);
        if prior / span == target / span {
            return true;
        }
        j = j + 1;
    }
    false
}

/// The page and reserved addresses that each need their own table at a
/// level whose tables span `span` bytes: each distinct table is mapped
/// once, at the first address that falls into it.
pub fn tables_needed(addresses: &[usize], reserved: &[usize], span: usize) -> (r: Vec<usize>)
    requires
        span > 0,
        addresses@.len() + reserved@.len() <= usize::MAX,
    ensures
        r@ == tables_needed_spec(
            addresses@ + reserved@,
            span,
            (addresses@.len() + reserved@.len()) as nat,
        ),
{
    let ghost all = addresses@ + reserved@;
    let total = addresses.len() + reserved.len();
    let mut needed: Vec<usize> = Vec::new();
    let mut index: usize = 0;
    while index < total
        invariant
            index <= total,
            total == addresses@.len() + reserved@.len(),
            all == addresses@ + reserved@,
            span > 0,
            needed@ == tables_needed_spec(all, span, index as nat),
        decreases total - index,
    {
        let address = if index < addresses.len() {
            addresses[index]
        } else {
            reserved[index - addresses.len()]
        };
        assert(address == all[index as int]);
        if !shares_table_before(addresses, reserved, index, span) {
            needed.push(address);
        }
        index = index + 1;
    }
    needed
}

/// Every table that some address needs is mapped: each address shares its
/// table with one of the addresses chosen to open a table.
pub proof fn law_every_address_has_a_table(addresses: Seq<usize>, span: usize, n: nat, i: int)
    requires
        span > 0,
        n <= addresses.len(),
        0 <= i < n,
    ensures
        exists|k: int|
            0 <= k < tables_needed_spec(addresses, span, n).len() && #[trigger] tables_needed_spec(
                addresses,
                span,
                n,
            )[k] / span == addresses[i] / span,
    decreases n,
{
    let needed = tables_needed_spec(addresses, span, n);
    let before = tables_needed_spec(addresses, span, (n - 1) as nat);
    if i < n - 1 {
        law_every_address_has_a_table(addresses, span, (n - 1) as nat, i);
        let k = choose|k: int|
            0 <= k < before.len() && #[trigger] before[k] / span == addresses[i] / span;
        if opens_table(addresses, n - 1, span) {
            assert(needed[k] == before[k]);
        }
        assert(needed[k] / span == addresses[i] / span);
    } else if opens_table(addresses, n - 1, span) {
        assert(needed[before.len() as int] == addresses[i]);
    } else {
        let j = choose|j: int| 0 <= j < n - 1 && #[trigger] (addresses[j] / span) == addresses[n - 1] / span;
        law_every_address_has_a_table(addresses, span, (n - 1) as nat, j);
        let k = choose|k: int|
            0 <= k < before.len() && #[trigger] before[k] / span == addresses[j] / span;
        assert(needed[k] / span == addresses[i] / span);
    }
}

/// Each address chosen to open a table is one of the first `n` addresses.
proof fn lemma_chosen_addresses_come_from_the_prefix(addresses: Seq<usize>, span: usize, n: nat, k: int)
    requires
        n <= addresses.len(),
        0 <= k < tables_needed_spec(addresses, span, n).len(),
    ensures
        exists|j: int| 0 <= j < n && #[trigger] addresses[j] == tables_needed_spec(addresses, span, n)[k],
    decreases n,
{
    let before = tables_needed_spec(addresses, span, (n - 1) as nat);
    if k < before.len() {
        lemma_chosen_addresses_come_from_the_prefix(addresses, span, (n - 1) as nat, k);
        let j = choose|j: int| 0 <= j < n - 1 && #[trigger] addresses[j] == before[k];
        assert(addresses[j] == tables_needed_spec(addresses, span, n)[k]);
    } else {
        assert(addresses[n - 1] == tables_needed_spec(addresses, span, n)[k]);
    }
}

/// No table is created twice: the addresses chosen to open tables at one
/// level all fall into distinct tables.
pub proof fn law_tables_are_distinct(addresses: Seq<usize>, span: usize, n: nat, i: int, k: int)
    requires
        span > 0,
        n <= addresses.len(),
        0 <= i < k < tables_needed_spec(addresses, span, n).len(),
    ensures
        tables_needed_spec(addresses, span, n)[i] / span != tables_needed_spec(addresses, span, n)[k]
            / span,
    decreases n,
{
    let needed = tables_needed_spec(addresses, span, n);
    let before = tables_needed_spec(addresses, span, (n - 1) as nat);
    if k < before.len() {
        law_tables_are_distinct(addresses, span, (n - 1) as nat, i, k);
    } else {
        lemma_chosen_addresses_come_from_the_prefix(addresses, span, (n - 1) as nat, i);
        let j = choose|j: int| 0 <= j < n - 1 && #[trigger] addresses[j] == before[i];
        assert(needed[i] == before[i]);
        assert(needed[k] == addresses[n - 1]);
        assert(addresses[j] / span != addresses[n - 1] / span);
    }
}

/// One level of intermediate translation tables: the address bits that
/// one of its tables spans, and the physical size of its table object.
#[derive(Debug, Clone, Copy, PartialEq, Eq)]
pub struct TableLevel {
    /// Address bits covered by one table of this level.
    pub span_bits: usize,
    /// Physical size of one table object of this level.
    pub object_bits: usize,
}

/// The addresses that need a table at `level`, among pages then reserved
/// pages.
pub open spec fn level_tables(levels: Seq<TableLevel>, level: int, all: Seq<usize>) -> Seq<usize> {
    tables_needed_spec(all, 1usize << levels[level].span_bits, all.len())
}

/// Number of tables that the levels before `level` need.
pub open spec fn tables_before(levels: Seq<TableLevel>, all: Seq<usize>, level: int) -> int
    decreases level,
{
    if level <= 0 {
        0
    } else {
        tables_before(levels, all, level - 1) + level_tables(levels, level - 1, all).len()
    }
}

/// The slot holding the `k`th table of `level` when tables are created in
/// consecutive slots from `base`, level by level.
pub open spec fn table_slot(levels: Seq<TableLevel>, all: Seq<usize>, base: int, level: int, k: int) -> int {
    base + tables_before(levels, all, level) + k
}

/// Each table that some level needs was created, first fit, in its own
/// consecutive slot from `base`, and mapped into `root` at the level for
/// the address that opened it.
pub open spec fn tables_created_and_mapped<R, M>(
    bootinfo: &BootInfo,
    retype: R,
    map_table: M,
    levels: Seq<TableLevel>,
    all: Seq<usize>,
    root: u64,
    base: int,
) -> bool where R: Fn(usize, usize) -> RetypeOutcome, M: Fn(usize, u64, u64, usize) -> bool {
    forall|level: int, k: int|
        0 <= level < levels.len() && 0 <= k < level_tables(levels, level, all).len() ==> {
            &&& created_by(bootinfo, retype, levels[level].object_bits, table_slot(levels, all, base, level, k) as usize)
            &&& call_ensures(
                map_table,
                (level as usize, table_slot(levels, all, base, level, k) as u64, root, #[trigger] level_tables(levels, level, all)[k]),
                true,
            )
        }
}

impl VSpace {
    /// Creates a VSpace covering the requested pages: a VSpace object of
    /// physical size `vspace_bits`, created through `retype` as by
    /// [`Bootstrap::allocate_blueprint`], assigned an address-space
    /// identifier through `assign`; then, level by level, one intermediate
    /// table for each distinct table that the pages and reserved pages fall
    /// into, each created through `retype` and mapped through `map_table`,
    /// which maps the table it is given at the level it is given into the
    /// VSpace it is given for the address it is given.
    #[verifier::loop_isolation(false)]
    pub fn create(
        bootstrap: &mut Bootstrap<'_>,
        page_addresses: &[usize],
        reserved_pages: &[usize],
        vspace_bits: usize,
        levels: &[TableLevel],
        retype: impl Fn(usize, usize) -> RetypeOutcome,
        assign: impl FnOnce(u64) -> bool,
        map_table: impl Fn(usize, u64, u64, usize) -> bool,
    ) -> (r: Result<Self, BootstrapError>)
        requires
            page_addresses@.len() + reserved_pages@.len() <= usize::MAX,
            forall|untyped: usize, destination: usize| call_requires(retype, (untyped, destination)),
            forall|root: u64| call_requires(assign, (root,)),
            forall|level: usize, table: u64, root: u64, address: usize|
                call_requires(map_table, (level, table, root, address)),
        ensures
            final(bootstrap).bootinfo_spec() == old(bootstrap).bootinfo_spec(),
            final(bootstrap).slots_spec().first == old(bootstrap).slots_spec().first,
            final(bootstrap).slots_spec().end == old(bootstrap).slots_spec().end,
            old(bootstrap).slots_spec().next <= final(bootstrap).slots_spec().next,
            r matches Ok(vspace) ==> {
                &&& vspace.root_spec() == old(bootstrap).slots_spec().next as u64
                &&& created_by(old(bootstrap).bootinfo_spec(), retype, vspace_bits, old(bootstrap).slots_spec().next)
                &&& call_ensures(assign, (vspace.root_spec(),), true)
                &&& forall|level: int| 0 <= level < levels@.len() ==> #[trigger] levels@[level].span_bits < usize::BITS
                &&& final(bootstrap).slots_spec().next == old(bootstrap).slots_spec().next + 1 + tables_before(
                    levels@,
                    page_addresses@ + reserved_pages@,
                    levels@.len() as int,
                )
                &&& tables_created_and_mapped(
                    old(bootstrap).bootinfo_spec(),
                    retype,
                    map_table,
                    levels@,
                    page_addresses@ + reserved_pages@,
                    vspace.root_spec(),
                    old(bootstrap).slots_spec().next + 1,
                )
            },
            r matches Err(e) ==> (e == BootstrapError::NoFreeSlots || e == BootstrapError::NoKernelMemory || e
                == BootstrapError::KernelAllocationFailed ==> (final(bootstrap).slots_spec() == old(bootstrap).slots_spec()
                && allocation_refused(
                old(bootstrap).bootinfo_spec(),
                retype,
                vspace_bits,
                old(bootstrap).slots_spec(),
                e,
            )) || exists|level: int|
                0 <= level < levels@.len() && allocation_refused(
                    old(bootstrap).bootinfo_spec(),
                    retype,
                    #[trigger] levels@[level].object_bits,
                    final(bootstrap).slots_spec(),
                    e,
                )),
            r matches Err(e) ==> e == BootstrapError::InvalidTaskConfiguration || e
                == BootstrapError::NoFreeSlots || e == BootstrapError::NoKernelMemory || e
                == BootstrapError::KernelAllocationFailed || e == BootstrapError::VSpaceCreationFailed,
            old(bootstrap).slots_spec().is_exhausted() ==> r == Err::<Self, BootstrapError>(
                BootstrapError::NoFreeSlots,
            ) && final(bootstrap).slots_spec() == old(bootstrap).slots_spec(),
            r matches Err(e) ==> (e == BootstrapError::InvalidTaskConfiguration ==> exists|level: int|
                0 <= level < levels@.len() && #[trigger] levels@[level].span_bits >= usize::BITS),
            r matches Err(e) ==> (e == BootstrapError::VSpaceCreationFailed ==> {
                let root = old(bootstrap).slots_spec().next as u64;
                ||| call_ensures(assign, (root,), false)
                ||| exists|level: usize, table: u64, address: usize|
                    #[trigger] call_ensures(map_table, (level, table, root, address), false)
            }),
    {
        let slot = match bootstrap.allocate_blueprint(vspace_bits, &retype) {
            Ok(slot) => slot,
            Err(error) => {
                proof {
                    lemma_refusal_through_reference(bootstrap.bootinfo_spec(), retype, vspace_bits, bootstrap.slots_spec(), error);
                }
                return Err(error);
            },
        };
        proof {
            let i = choose|i: int|
                first_fit_outcome(bootstrap.bootinfo_spec(), &retype, vspace_bits, slot, i, RetypeOutcome::Created);
            lemma_first_fit_through_reference(bootstrap.bootinfo_spec(), retype, vspace_bits, slot, i, RetypeOutcome::Created);
        }
        let root = slot as u64;
        if !assign(root) {
            return Err(BootstrapError::VSpaceCreationFailed);
        }
        let vspace = VSpace { root };
        vspace.map_translation_tables(bootstrap, page_addresses, reserved_pages, levels, retype, map_table)?;
        Ok(vspace)
    }

    /// Maps each distinct intermediate translation table once per level.
    #[verifier::loop_isolation(false)]
    fn map_translation_tables(
        &self,
        bootstrap: &mut Bootstrap<'_>,
        page_addresses: &[usize],
        reserved_pages: &[usize],
        levels: &[TableLevel],
        retype: impl Fn(usize, usize) -> RetypeOutcome,
        map_table: impl Fn(usize, u64, u64, usize) -> bool,
    ) -> (r: Result<(), BootstrapError>)
        requires
            page_addresses@.len() + reserved_pages@.len() <= usize::MAX,
            forall|untyped: usize, destination: usize| call_requires(retype, (untyped, destination)),
            forall|level: usize, table: u64, root: u64, address: usize|
                call_requires(map_table, (level, table, root, address)),
        ensures
            final(bootstrap).bootinfo_spec() == old(bootstrap).bootinfo_spec(),
            final(bootstrap).slots_spec().first == old(bootstrap).slots_spec().first,
            final(bootstrap).slots_spec().end == old(bootstrap).slots_spec().end,
            old(bootstrap).slots_spec().next <= final(bootstrap).slots_spec().next,
            r is Ok ==> forall|level: int| 0 <= level < levels@.len() ==> #[trigger] levels@[level].span_bits < usize::BITS,
            r is Ok ==> final(bootstrap).slots_spec().next == old(bootstrap).slots_spec().next + tables_before(
                levels@,
                page_addresses@ + reserved_pages@,
                levels@.len() as int,
            ),
            r is Ok ==> tables_created_and_mapped(
                old(bootstrap).bootinfo_spec(),
                retype,
                map_table,
                levels@,
                page_addresses@ + reserved_pages@,
                self.root_spec(),
                old(bootstrap).slots_spec().next as int,
            ),
            r matches Err(e) ==> e == BootstrapError::InvalidTaskConfiguration || e
                == BootstrapError::NoFreeSlots || e == BootstrapError::NoKernelMemory || e
                == BootstrapError::KernelAllocationFailed || e == BootstrapError::VSpaceCreationFailed,
            r matches Err(e) ==> (e == BootstrapError::NoFreeSlots || e == BootstrapError::NoKernelMemory || e
                == BootstrapError::KernelAllocationFailed ==> exists|level: int|
                0 <= level < levels@.len() && allocation_refused(
                    old(bootstrap).bootinfo_spec(),
                    retype,
                    #[trigger] levels@[level].object_bits,
                    final(bootstrap).slots_spec(),
                    e,
                )),
            r matches Err(e) ==> (e == BootstrapError::InvalidTaskConfiguration ==> exists|level: int|
                0 <= level < levels@.len() && #[trigger] levels@[level].span_bits >= usize::BITS),
            r matches Err(e) ==> (e == BootstrapError::VSpaceCreationFailed ==> exists|
                level: usize,
                table: u64,
                address: usize,
            | #[trigger] call_ensures(map_table, (level, table, self.root_spec(), address), false)),
    {
        let ghost all = page_addresses@ + reserved_pages@;
        let ghost base = old(bootstrap).slots_spec().next as int;
        let ghost bootinfo = old(bootstrap).bootinfo_spec();
        let mut level: usize = 0;
        while level < levels.len()
            invariant
                level <= levels@.len(),
                all == page_addresses@ + reserved_pages@,
                base == old(bootstrap).slots_spec().next,
                bootinfo == old(bootstrap).bootinfo_spec(),
                bootstrap.bootinfo_spec() == old(bootstrap).bootinfo_spec(),
                bootstrap.slots_spec().first == old(bootstrap).slots_spec().first,
                bootstrap.slots_spec().end == old(bootstrap).slots_spec().end,
                bootstrap.slots_spec().next == base + tables_before(levels@, all, level as int),
                old(bootstrap).slots_spec().next <= bootstrap.slots_spec().next,
                forall|l: int| 0 <= l < level ==> #[trigger] levels@[l].span_bits < usize::BITS,
                forall|l: int, k: int|
                    0 <= l < level && 0 <= k < level_tables(levels@, l, all).len() ==> {
                        &&& created_by(bootinfo, retype, levels@[l].object_bits, table_slot(levels@, all, base, l, k) as usize)
                        &&& call_ensures(
                            map_table,
                            (l as usize, table_slot(levels@, all, base, l, k) as u64, self.root, #[trigger] level_tables(levels@, l, all)[k]),
                            true,
                        )
                    },
            decreases levels@.len() - level,
        {
            let table_level = levels[level];
            let span = table_span(table_level.span_bits)?;
            let needed = tables_needed(page_addresses, reserved_pages, span);
            assert(needed@ == level_tables(levels@, level as int, all));
            let mut k: usize = 0;
            while k < needed.len()
                invariant
                    k <= needed@.len(),
                    needed@ == level_tables(levels@, level as int, all),
                    table_level == levels@[level as int],
                    bootstrap.bootinfo_spec() == old(bootstrap).bootinfo_spec(),
                    bootstrap.slots_spec().first == old(bootstrap).slots_spec().first,
                    bootstrap.slots_spec().end == old(bootstrap).slots_spec().end,
                    bootstrap.slots_spec().next == base + tables_before(levels@, all, level as int) + k,
                    old(bootstrap).slots_spec().next <= bootstrap.slots_spec().next,
                    forall|j: int| 0 <= j < k ==> {
                        &&& created_by(bootinfo, retype, table_level.object_bits, table_slot(levels@, all, base, level as int, j) as usize)
                        &&& call_ensures(
                            map_table,
                            (level, table_slot(levels@, all, base, level as int, j) as u64, self.root, #[trigger] needed@[j]),
                            true,
                        )
                    },
                decreases needed@.len() - k,
            {
                let address = needed[k];
                let slot = match bootstrap.allocate_blueprint(table_level.object_bits, &retype) {
                    Ok(slot) => slot,
                    Err(error) => {
                        proof {
                            lemma_refusal_through_reference(bootinfo, retype, table_level.object_bits, bootstrap.slots_spec(), error);
                        }
                        return Err(error);
                    },
                };
                proof {
                    let i = choose|i: int|
                        first_fit_outcome(bootinfo, &retype, table_level.object_bits, slot, i, RetypeOutcome::Created);
                    lemma_first_fit_through_reference(bootinfo, retype, table_level.object_bits, slot, i, RetypeOutcome::Created);
                }
                let table = slot as u64;
                if !map_table(level, table, self.root, address) {
                    assert(call_ensures(map_table, (level, table, self.root_spec(), address), false));
                    return Err(BootstrapError::VSpaceCreationFailed);
                }
                assert(slot == table_slot(levels@, all, base, level as int, k as int));
                k = k + 1;
            }
            assert forall|l: int, j: int|
                0 <= l < level + 1 && 0 <= j < level_tables(levels@, l, all).len() implies {
                    &&& created_by(bootinfo, retype, levels@[l].object_bits, table_slot(levels@, all, base, l, j) as usize)
                    &&& call_ensures(
                        map_table,
                        (l as usize, table_slot(levels@, all, base, l, j) as u64, self.root, #[trigger] level_tables(levels@, l, all)[j]),
                        true,
                    )
                } by {
                if l == level {
                    assert(needed@[j] == level_tables(levels@, l, all)[j]);
                }
            }
            level = level + 1;
        }
        Ok(())
    }
}

impl VSpace {
    /// Maps `frame` at `address` with `rights` through a rights-restricted
    /// copy, retaining the owner capability unmapped: the copy is made in
    /// the next free root slot through `copy`, which derives the frame it is
    /// given with the rights it is given into the root slot it is given, and
    /// mapped through `map`, which maps the capability it is given into the
    /// VSpace it is given at the address it is given. Returns the mapping
    /// capability.
    pub fn map_frame(
        &self,
        bootstrap: &mut Bootstrap<'_>,
        frame: &Frame,
        address: usize,
        rights: CapRights,
        copy: impl FnOnce(usize, u64, CapRights) -> bool,
        map: impl FnOnce(u64, u64, usize, CapRights) -> bool,
    ) -> (r: Result<u64, BootstrapError>)
        requires
            forall|slot: usize, source: u64, granted: CapRights| call_requires(copy, (slot, source, granted)),
            forall|mapping: u64, root: u64, at: usize, granted: CapRights| call_requires(map, (mapping, root, at, granted)),
        ensures
            final(bootstrap).bootinfo_spec() == old(bootstrap).bootinfo_spec(),
            final(bootstrap).slots_spec().first == old(bootstrap).slots_spec().first,
            final(bootstrap).slots_spec().end == old(bootstrap).slots_spec().end,
            old(bootstrap).slots_spec().next <= final(bootstrap).slots_spec().next,
            address % Frame::BYTES != 0 ==> r == Err::<u64, BootstrapError>(BootstrapError::InvalidTaskConfiguration)
                && final(bootstrap).slots_spec() == old(bootstrap).slots_spec(),
            r matches Ok(mapping) ==> {
                &&& address % Frame::BYTES == 0
                &&& mapping == old(bootstrap).slots_spec().next as u64
                &&& final(bootstrap).slots_spec() == old(bootstrap).slots_spec().advanced()
                &&& call_ensures(copy, (old(bootstrap).slots_spec().next, frame@, rights), true)
                &&& call_ensures(map, (mapping, self.root_spec(), address, rights), true)
            },
            r matches Err(e) ==> e == BootstrapError::InvalidTaskConfiguration || e == BootstrapError::NoFreeSlots
                || e == BootstrapError::CSpaceCreationFailed || e == BootstrapError::FrameMappingFailed,
            address % Frame::BYTES == 0 && old(bootstrap).slots_spec().is_exhausted() ==> r == Err::<
                u64,
                BootstrapError,
            >(BootstrapError::NoFreeSlots) && final(bootstrap).slots_spec() == old(bootstrap).slots_spec(),
            r matches Err(e) ==> (e != BootstrapError::FrameMappingFailed ==> final(bootstrap).slots_spec()
                == old(bootstrap).slots_spec()),
            r matches Err(e) ==> (e == BootstrapError::InvalidTaskConfiguration ==> address % Frame::BYTES != 0),
            r matches Err(e) ==> (e == BootstrapError::NoFreeSlots ==> old(bootstrap).slots_spec().is_exhausted()),
            r matches Err(e) ==> (e == BootstrapError::CSpaceCreationFailed ==> final(bootstrap).slots_spec()
                == old(bootstrap).slots_spec() && call_ensures(
                copy,
                (old(bootstrap).slots_spec().next, frame@, rights),
                false,
            )),
            r matches Err(e) ==> (e == BootstrapError::FrameMappingFailed ==> final(bootstrap).slots_spec()
                == old(bootstrap).slots_spec().advanced() && call_ensures(
                copy,
                (old(bootstrap).slots_spec().next, frame@, rights),
                true,
            ) && call_ensures(
                map,
                (old(bootstrap).slots_spec().next as u64, self.root_spec(), address, rights),
                false,
            )),
    {
        Self::check_frame_address(address)?;
        let source = frame.cap();
        let slot = bootstrap.copy_cap(
            (|slot: usize| -> (copied: bool)
                ensures
                    call_ensures(copy, (slot, source, rights), copied),
                { copy(slot, source, rights) }),
        )?;
        let mapping = slot as u64;
        if !map(mapping, self.root, address, rights) {
            return Err(BootstrapError::FrameMappingFailed);
        }
        Ok(mapping)
    }
}

} // verus!
