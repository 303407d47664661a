//! Verified bounded state, validation and decoding for the seL4 root-task
//! substrate: slot accounting, badges, messages, reply authority, fault
//! decoding, CSpace and task layout validation, and register state.
pub mod api;
pub mod boot;
pub mod cspace;
pub mod errors;
pub mod fault;
pub mod free_slots;
pub mod ipc;
pub mod ipc_state;
pub mod root;
pub mod task;
pub mod thread;
pub mod vspace;

pub use boot::{BootInfo, Bootstrap, RetypeOutcome, UntypedDescriptor};
pub use cspace::{CapRights, DelegatedCapability};
pub use errors::BootstrapError;
pub use fault::{
    CapabilityFault, CapabilityLookupFailure, Fault, FaultBadge, FaultBadgeError,
    FaultDecodeError, FaultEndpoint, FaultReceiveError, FaultRoute, ReceivedFault,
    UnknownSyscallFault, VmFault,
};
pub use ipc::{
    Badge, BadgeAllocationError, BadgeAllocator, BadgeError, DeferredReply, Endpoint,
    IpcError, Message, MessageInfo, Notification, ReceiveSlot, ReceivedMessage, ReplyPool,
    EXTRA_CAPACITY, MESSAGE_CAPACITY,
};
pub use task::{SharedCode, Task, TaskConfig};
pub use thread::Registers;
pub use vspace::{Frame, TaskMapping};
