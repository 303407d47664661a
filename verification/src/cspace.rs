//! Creation and explicit population of child capability spaces.
use vstd::prelude::*;
use core::ops::Range;
use crate::errors::BootstrapError;
use crate::boot::{allocation_refused, created_by, Bootstrap, RetypeOutcome};
use crate::free_slots::FreeSlots;
use crate::fault::FaultRoute;
use crate::ipc::{Badge, Endpoint, Notification};

verus! {

/// Bits in a capability word and in a capability pointer.
pub const WORD_SIZE: usize = 64;

/// The access rights carried by a derived capability.
#[derive(Debug, Clone, Copy, PartialEq, Eq)]
pub struct CapRights {
    /// Read (receive, wait) authority.
    pub read: bool,
    /// Write (send, signal) authority.
    pub write: bool,
    /// Authority to transfer capabilities.
    pub grant: bool,
    /// Authority to grant only reply capabilities.
    pub grant_reply: bool,
}

impl CapRights {
    /// No authority at all.
    pub fn none() -> (r: Self)
        ensures
            r == (CapRights { read: false, write: false, grant: false, grant_reply: false }),
    {
        CapRights { read: false, write: false, grant: false, grant_reply: false }
    }

    /// Every authority.
    pub fn all() -> (r: Self)
        ensures
            r == (CapRights { read: true, write: true, grant: true, grant_reply: true }),
    {
        CapRights { read: true, write: true, grant: true, grant_reply: true }
    }

    /// Read authority only.
    pub fn read_only() -> (r: Self)
        ensures
            r == (CapRights { read: true, write: false, grant: false, grant_reply: false }),
    {
        CapRights { read: true, write: false, grant: false, grant_reply: false }
    }

    /// Write authority only.
    pub fn write_only() -> (r: Self)
        ensures
            r == (CapRights { read: false, write: true, grant: false, grant_reply: false }),
    {
        CapRights { read: false, write: true, grant: false, grant_reply: false }
    }

    /// Read and write authority.
    pub fn read_write() -> (r: Self)
        ensures
            r == (CapRights { read: true, write: true, grant: false, grant_reply: false }),
    {
        CapRights { read: true, write: true, grant: false, grant_reply: false }
    }

    /// Send authority together with the authority to transfer capabilities,
    /// as a client or the kernel needs to call through an endpoint.
    pub fn write_grant() -> (r: Self)
        ensures
            r == (CapRights { read: false, write: true, grant: true, grant_reply: false }),
    {
        CapRights { read: false, write: true, grant: true, grant_reply: false }
    }
}

/// The plain content of a [`DelegatedCapability`].
pub struct DelegationView {
    /// Capability word of the source in the root CSpace.
    pub source: u64,
    /// Destination slot in the child CSpace.
    pub destination: usize,
    /// Rights of the derived capability.
    pub rights: CapRights,
    /// Badge of the derived capability.
    pub badge: u64,
}

/// A capability to install explicitly in a task's CSpace.
#[derive(Clone, Copy)]
pub struct DelegatedCapability {
    source: u64,
    destination: usize,
    rights: CapRights,
    badge: u64,
}

impl View for DelegatedCapability {
    type V = DelegationView;

    closed spec fn view(&self) -> DelegationView {
        DelegationView {
            source: self.source,
            destination: self.destination,
            rights: self.rights,
            badge: self.badge,
        }
    }
}

impl DelegatedCapability {
    /// Installs a derived cap with the requested rights and badge.
    pub fn new(source: u64, destination: usize, rights: CapRights, badge: u64) -> (r: Self)
        ensures
            r@ == (DelegationView { source, destination, rights, badge }),
    {
        DelegatedCapability { source, destination, rights, badge }
    }

    /// Delegates only signalling authority for a notification.
    pub fn notification(source: &Notification, destination: usize) -> (r: Self)
        ensures
            r@ == (DelegationView {
                source: source.cap_spec(),
                destination,
                rights: CapRights { read: false, write: true, grant: false, grant_reply: false },
                badge: 0,
            }),
    {
        Self::new(source.cap(), destination, CapRights::write_only(), 0)
    }

    /// Delegates calling authority on an endpoint along a badged path.
    pub fn badged_endpoint(endpoint: &Endpoint, destination: usize, badge: Badge) -> (r: Self)
        ensures
            r@ == (DelegationView {
                source: endpoint@.cap,
                destination,
                rights: CapRights { read: false, write: true, grant: true, grant_reply: false },
                badge: badge@,
            }),
    {
        Self::new(endpoint.cap(), destination, CapRights::write_grant(), badge.raw())
    }

    /// The destination slot in the child CSpace.
    pub fn destination(&self) -> (r: usize)
        ensures
            r == self@.destination,
    {
        self.destination
    }

    /// The capability word of the source in the root CSpace.
    pub fn source(&self) -> (r: u64)
        ensures
            r == self@.source,
    {
        self.source
    }

    /// The rights of the derived capability.
    pub fn rights(&self) -> (r: CapRights)
        ensures
            r == self@.rights,
    {
        self.rights
    }

    /// The badge of the derived capability.
    pub fn badge(&self) -> (r: u64)
        ensures
            r == self@.badge,
    {
        self.badge
    }
}

/// The contents of a sequence of delegations.
pub open spec fn delegation_views(capabilities: Seq<DelegatedCapability>) -> Seq<DelegationView> {
    capabilities.map_values(|c: DelegatedCapability| c@)
}

/// A destination is usable in a CSpace of `size_bits`: it is not the null
/// slot and lies inside the CNode.
pub open spec fn destination_in_range(size_bits: usize, destination: usize) -> bool {
    destination != 0 && destination < (1usize << size_bits)
}

/// The CSpace size is one the single-level layout can address.
pub open spec fn size_bits_valid(size_bits: usize) -> bool {
    0 < size_bits && size_bits < WORD_SIZE && size_bits < usize::BITS
}

/// A delegation list is valid: each destination is in range and distinct
/// from every earlier one, and each source is not the null capability; a
/// fault route needs the same of its slot and endpoint and must not share a
/// destination with any delegation.
pub open spec fn delegations_valid(size_bits: usize, caps: Seq<DelegationView>, route: Option<DelegationView>) -> bool {
    &&& size_bits_valid(size_bits)
    &&& forall|i: int|
        0 <= i < caps.len() ==> destination_in_range(size_bits, #[trigger] caps[i].destination)
            && caps[i].source != 0
    &&& forall|i: int, j: int|
        0 <= i < j < caps.len() ==> #[trigger] caps[i].destination != #[trigger] caps[j].destination
    &&& route matches Some(r) ==> {
        &&& destination_in_range(size_bits, r.destination)
        &&& r.source != 0
        &&& forall|i: int| 0 <= i < caps.len() ==> #[trigger] caps[i].destination != r.destination
    }
}

/// Whether some delegation among the first `end` targets `destination`.
fn destination_taken(capabilities: &[DelegatedCapability], end: usize, destination: usize) -> (r: bool)
    requires
        end <= capabilities@.len(),
    ensures
        r == destination_taken_spec(capabilities@, end as int, destination),
{
    let mut i: usize = 0;
    while i < end
        invariant
            i <= end,
            end <= capabilities@.len(),
            forall|k: int| 0 <= k < i ==> #[trigger] capabilities@[k]@.destination != destination,
        decreases end - i,
    {
        if capabilities[i].destination() == destination {
            return true;
        }
        i = i + 1;
    }
    false
}

/// The first `n` delegations are valid among themselves.
pub open spec fn prefix_valid(size_bits: usize, caps: Seq<DelegationView>, n: int) -> bool {
    &&& forall|i: int|
        0 <= i < n ==> destination_in_range(size_bits, #[trigger] caps[i].destination)
            && caps[i].source != 0
    &&& forall|i: int, j: int|
        0 <= i < j < n ==> #[trigger] caps[i].destination != #[trigger] caps[j].destination
}

proof fn lemma_extend_prefix(size_bits: usize, caps: Seq<DelegationView>, n: int)
    requires
        0 <= n < caps.len(),
        prefix_valid(size_bits, caps, n),
        destination_in_range(size_bits, caps[n].destination),
        caps[n].source != 0,
        forall|k: int| 0 <= k < n ==> #[trigger] caps[k].destination != caps[n].destination,
    ensures
        prefix_valid(size_bits, caps, n + 1),
{
    assert forall|i: int, j: int| 0 <= i < j < n + 1 implies #[trigger] caps[i].destination != #[trigger] caps[j].destination by {
        if j == n {
            assert(caps[i].destination != caps[n].destination);
        }
    }
}

/// Rejects invalid, null, out-of-range, or duplicate destinations.
pub fn validate(size_bits: usize, capabilities: &[DelegatedCapability], fault_route: Option<&FaultRoute>) -> (r:
    Result<(), BootstrapError>)
    ensures
        r is Ok <==> delegations_valid(
            size_bits,
            delegation_views(capabilities@),
            match fault_route {
                Some(route) => Some(route@),
                None => None,
            },
        ),
        r matches Err(e) ==> e == BootstrapError::InvalidTaskConfiguration,
{
    let ghost caps = delegation_views(capabilities@);
    if size_bits == 0 || size_bits >= WORD_SIZE || size_bits >= usize::BITS as usize {
        return Err(BootstrapError::InvalidTaskConfiguration);
    }
    let capacity = 1usize << size_bits;
    let mut index: usize = 0;
    while index < capabilities.len()
        invariant
            index <= capabilities@.len(),
            caps == delegation_views(capabilities@),
            size_bits_valid(size_bits),
            capacity == 1usize << size_bits,
            prefix_valid(size_bits, caps, index as int),
        decreases capabilities@.len() - index,
    {
        let capability = &capabilities[index];
        let destination = capability.destination();
        assert(caps[index as int] == capabilities@[index as int]@);
        if destination == 0 || destination >= capacity || capability.source() == 0
            || destination_taken(capabilities, index, destination) {
            proof {
                if destination_taken_spec(capabilities@, index as int, destination) {
                    let k = choose|k: int| 0 <= k < index && #[trigger] capabilities@[k]@.destination == destination;
                    assert(caps[k].destination == caps[index as int].destination);
                }
            }
            return Err(BootstrapError::InvalidTaskConfiguration);
        }
        proof {
            assert forall|k: int| 0 <= k < index implies #[trigger] caps[k].destination != caps[index as int].destination by {
                assert(caps[k] == capabilities@[k]@);
            }
            lemma_extend_prefix(size_bits, caps, index as int);
        }
        index = index + 1;
    }
    if let Some(route) = fault_route {
        let delegation = route.delegation();
        let destination = delegation.destination();
        if destination == 0 || destination >= capacity || delegation.source() == 0
            || destination_taken(capabilities, capabilities.len(), destination) {
            proof {
                if destination_taken_spec(capabilities@, capabilities@.len() as int, destination) {
                    let k = choose|k: int| 0 <= k < capabilities@.len() && #[trigger] capabilities@[k]@.destination == destination;
                    assert(caps[k].destination == route@.destination);
                }
            }
            return Err(BootstrapError::InvalidTaskConfiguration);
        }
        proof {
            assert forall|k: int| 0 <= k < caps.len() implies #[trigger] caps[k].destination != route@.destination by {
                assert(caps[k] == capabilities@[k]@);
            }
        }
    }
    Ok(())
}

spec fn destination_taken_spec(capabilities: Seq<DelegatedCapability>, end: int, destination: usize) -> bool {
    exists|i: int| 0 <= i < end && #[trigger] capabilities[i]@.destination == destination
}

/// The guard word that lets a single-level CSpace resolve a full capability
/// pointer.
#[derive(Debug, Clone, Copy, PartialEq, Eq)]
pub struct CNodeCapData {
    /// Guard value.
    pub guard: u64,
    /// Guard size in bits.
    pub guard_size: usize,
}

/// A child CSpace: its root CNode and its size in slot-index bits.
pub struct CSpace {
    root: u64,
    size_bits: usize,
}

impl CSpace {
    /// A CSpace with the given root capability word and size.
    pub fn new(root: u64, size_bits: usize) -> (r: Self)
        ensures
            r.root_spec() == root,
            r.size_bits_spec() == size_bits,
    {
        CSpace { root, size_bits }
    }

    /// The root capability word.
    pub closed spec fn root_spec(&self) -> u64 {
        self.root
    }

    /// The size in slot-index bits.
    pub closed spec fn size_bits_spec(&self) -> usize {
        self.size_bits
    }

    /// Returns the parent-held CSpace root capability.
    pub fn root(&self) -> (r: u64)
        ensures
            r == self.root_spec(),
    {
        self.root
    }

    /// Returns the size in slot-index bits.
    pub fn size_bits(&self) -> (r: usize)
        ensures
            r == self.size_bits_spec(),
    {
        self.size_bits
    }

    /// Encodes the guard required for this single-level CSpace: no guard
    /// value, and a guard covering every pointer bit the CNode does not
    /// index.
    pub fn root_data(&self) -> (r: CNodeCapData)
        requires
            self.size_bits_spec() <= WORD_SIZE,
        ensures
            r == (CNodeCapData { guard: 0, guard_size: (WORD_SIZE - self.size_bits_spec()) as usize }),
    {
        CNodeCapData { guard: 0, guard_size: WORD_SIZE - self.size_bits }
    }
}

/// Copies a capability into the next tracked root slot through `copy`,
/// which copies the source into the destination slot it is given.
pub fn copy_to_root(slots: &mut FreeSlots, copy: impl FnOnce(usize) -> bool) -> (r: Result<usize, BootstrapError>)
    requires
        forall|slot: usize| call_requires(copy, (slot,)),
    ensures
        old(slots)@.is_exhausted() ==> r == Err::<usize, BootstrapError>(BootstrapError::NoFreeSlots)
            && final(slots)@ == old(slots)@,
        r matches Ok(slot) ==> slot == old(slots)@.next && final(slots)@ == old(slots)@.advanced()
            && call_ensures(copy, (slot,), true),
        r matches Err(e) ==> final(slots)@ == old(slots)@ && (e == BootstrapError::NoFreeSlots || (e
            == BootstrapError::CSpaceCreationFailed && call_ensures(copy, (old(slots)@.next,), false))),
        r matches Err(e) ==> (e == BootstrapError::NoFreeSlots ==> old(slots)@.is_exhausted()),
{
    let result = slots.try_allocate(
        (|index: usize| -> (r: Result<usize, BootstrapError>)
            ensures
                r matches Ok(created) ==> created == index && call_ensures(copy, (index,), true),
                r matches Err(e) ==> e == BootstrapError::CSpaceCreationFailed && call_ensures(copy, (index,), false),
            {
                if copy(index) {
                    Ok(index)
                } else {
                    Err(BootstrapError::CSpaceCreationFailed)
                }
            }),
    );
    match result {
        Ok(Some(slot)) => Ok(slot),
        Ok(None) => Err(BootstrapError::NoFreeSlots),
        Err(error) => Err(error),
    }
}

/// Deletes a construction suffix in reverse ownership order through
/// `delete`, which deletes the capability in the root slot it is given;
/// the first refusal stops the deletion.
pub fn delete_root_slots(slots: Range<usize>, delete: impl Fn(usize) -> bool) -> (r: Result<(), BootstrapError>)
    requires
        forall|slot: usize| call_requires(delete, (slot,)),
    ensures
        slots.end <= slots.start ==> r is Ok,
        r is Ok ==> forall|slot: usize| slots.start <= slot < slots.end ==> call_ensures(delete, (slot,), true),
        r matches Err(e) ==> e == BootstrapError::RollbackFailed && exists|slot: usize|
            slots.start <= slot < slots.end && call_ensures(delete, (slot,), false),
{
    let mut index = slots.end;
    while index > slots.start
        invariant
            slots.start <= index <= slots.end || index == slots.end,
            forall|slot: usize| call_requires(delete, (slot,)),
            forall|slot: usize| index <= slot < slots.end ==> call_ensures(delete, (slot,), true),
        decreases index,
    {
        index = index - 1;
        if !delete(index) {
            return Err(BootstrapError::RollbackFailed);
        }
    }
    Ok(())
}

impl CSpace {
    /// Creates an empty CNode of `size_bits` slot-index bits and installs
    /// only the explicit delegations, then the fault route, through `mint`,
    /// which derives the delegation it is given into the slot of the CNode
    /// it is given, at the depth it is given. The CNode object, of physical
    /// size `cnode_bits`, is created through `retype` as by
    /// [`Bootstrap::allocate_blueprint`]. Nothing is allocated when the
    /// delegations are invalid.
    #[verifier::loop_isolation(false)]
    pub fn create(
        bootstrap: &mut Bootstrap<'_>,
        size_bits: usize,
        capabilities: &[DelegatedCapability],
        fault_route: Option<&FaultRoute>,
        cnode_bits: usize,
        retype: impl Fn(usize, usize) -> RetypeOutcome,
        mint: impl Fn(u64, usize, usize, DelegatedCapability) -> bool,
    ) -> (r: Result<Self, BootstrapError>)
        requires
            forall|untyped: usize, destination: usize| call_requires(retype, (untyped, destination)),
            forall|root: u64, slot: usize, depth: usize, delegation: DelegatedCapability|
                call_requires(mint, (root, slot, depth, delegation)),
        ensures
            final(bootstrap).bootinfo_spec() == old(bootstrap).bootinfo_spec(),
            final(bootstrap).slots_spec().first == old(bootstrap).slots_spec().first,
            final(bootstrap).slots_spec().end == old(bootstrap).slots_spec().end,
            old(bootstrap).slots_spec().next <= final(bootstrap).slots_spec().next,
            !delegations_valid(size_bits, delegation_views(capabilities@), match fault_route {
                Some(route) => Some(route@),
                None => None,
            }) ==> r == Err::<Self, BootstrapError>(BootstrapError::InvalidTaskConfiguration)
                && final(bootstrap).slots_spec() == old(bootstrap).slots_spec(),
            r matches Ok(cspace) ==> {
                &&& delegations_valid(size_bits, delegation_views(capabilities@), match fault_route {
                    Some(route) => Some(route@),
                    None => None,
                })
                &&& cspace.root_spec() == old(bootstrap).slots_spec().next as u64
                &&& cspace.size_bits_spec() == size_bits
                &&& final(bootstrap).slots_spec() == old(bootstrap).slots_spec().advanced()
                &&& created_by(old(bootstrap).bootinfo_spec(), retype, cnode_bits, old(bootstrap).slots_spec().next)
                &&& forall|i: int| 0 <= i < capabilities@.len() ==> call_ensures(
                    mint,
                    (cspace.root_spec(), #[trigger] capabilities@[i]@.destination, size_bits, capabilities@[i]),
                    true,
                )
                &&& fault_route matches Some(route) ==> call_ensures(
                    mint,
                    (cspace.root_spec(), route@.destination, size_bits, route.delegation_spec()),
                    true,
                )
            },
            r matches Err(e) ==> e == BootstrapError::InvalidTaskConfiguration || e
                == BootstrapError::NoFreeSlots || e == BootstrapError::NoKernelMemory || e
                == BootstrapError::KernelAllocationFailed || e == BootstrapError::CSpaceCreationFailed,
            r matches Err(e) ==> (e == BootstrapError::InvalidTaskConfiguration ==> !delegations_valid(
                size_bits,
                delegation_views(capabilities@),
                match fault_route {
                    Some(route) => Some(route@),
                    None => None,
                },
            ) && final(bootstrap).slots_spec() == old(bootstrap).slots_spec()),
            old(bootstrap).slots_spec().is_exhausted() && delegations_valid(size_bits, delegation_views(capabilities@), match fault_route {
                Some(route) => Some(route@),
                None => None,
            }) ==> r == Err::<Self, BootstrapError>(BootstrapError::NoFreeSlots)
                && final(bootstrap).slots_spec() == old(bootstrap).slots_spec(),
            r matches Err(e) ==> (e != BootstrapError::InvalidTaskConfiguration && e
                != BootstrapError::CSpaceCreationFailed ==> final(bootstrap).slots_spec()
                == old(bootstrap).slots_spec() && allocation_refused(
                old(bootstrap).bootinfo_spec(),
                retype,
                cnode_bits,
                old(bootstrap).slots_spec(),
                e,
            )),
            r matches Err(e) ==> (e == BootstrapError::CSpaceCreationFailed ==> {
                let root = old(bootstrap).slots_spec().next as u64;
                &&& final(bootstrap).slots_spec() == old(bootstrap).slots_spec().advanced()
                &&& created_by(old(bootstrap).bootinfo_spec(), retype, cnode_bits, old(bootstrap).slots_spec().next)
                &&& (exists|i: int| 0 <= i < capabilities@.len() && call_ensures(
                    mint,
                    (root, #[trigger] capabilities@[i]@.destination, size_bits, capabilities@[i]),
                    false,
                ) && forall|j: int| 0 <= j < i ==> call_ensures(
                    mint,
                    (root, #[trigger] capabilities@[j]@.destination, size_bits, capabilities@[j]),
                    true,
                )) || (fault_route matches Some(route) && call_ensures(
                    mint,
                    (root, route@.destination, size_bits, route.delegation_spec()),
                    false,
                ) && forall|j: int| 0 <= j < capabilities@.len() ==> call_ensures(
                    mint,
                    (root, #[trigger] capabilities@[j]@.destination, size_bits, capabilities@[j]),
                    true,
                ))
            }),
    {
        validate(size_bits, capabilities, fault_route)?;
        let slot = bootstrap.allocate_blueprint(cnode_bits, retype)?;
        let root = slot as u64;
        let cspace = CSpace { root, size_bits };
        let mut index: usize = 0;
        while index < capabilities.len()
            invariant
                index <= capabilities@.len(),
                root == cspace.root_spec(),
                size_bits == cspace.size_bits_spec(),
                forall|root: u64, slot: usize, depth: usize, delegation: DelegatedCapability|
                    call_requires(mint, (root, slot, depth, delegation)),
                forall|i: int| 0 <= i < index ==> call_ensures(
                    mint,
                    (root, #[trigger] capabilities@[i]@.destination, size_bits, capabilities@[i]),
                    true,
                ),
            decreases capabilities@.len() - index,
        {
            let capability = capabilities[index];
            if !mint(root, capability.destination(), size_bits, capability) {
                return Err(BootstrapError::CSpaceCreationFailed);
            }
            index = index + 1;
        }
        if let Some(route) = fault_route {
            let delegation = *route.delegation();
            if !mint(root, route.child_slot(), size_bits, delegation) {
                return Err(BootstrapError::CSpaceCreationFailed);
            }
        }
        Ok(cspace)
    }
}

} // verus!
