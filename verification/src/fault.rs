//! Decoding of the fault IPC ABI used by the pinned AArch64 kernel.
use vstd::prelude::*;
use crate::cspace::{DelegatedCapability, DelegationView};
use crate::ipc::{
    badge_view, incoming_spec, observed_badge, Badge, BadgeError, Delivery, Endpoint, EndpointView,
    IpcError, Message, MessageInfo, ReceivedMessage, MESSAGE_CAPACITY,
};

verus! {

/// Message label of a capability fault.
pub const CAPABILITY_FAULT_LABEL: u64 = 1;
/// Message label of an unknown-syscall fault.
pub const UNKNOWN_SYSCALL_LABEL: u64 = 2;
/// Message label of a VM fault.
pub const VM_FAULT_LABEL: u64 = 5;

/// A decoded fault supported by the pinned kernel configuration.
#[derive(Debug, Clone, PartialEq, Eq)]
pub enum Fault {
    /// A failed capability lookup.
    CapabilityFault(CapabilityFault),
    /// A syscall number outside the seL4 syscall range.
    UnknownSyscall(UnknownSyscallFault),
    /// An instruction or data access fault.
    VmFault(VmFault),
}

/// Failure to decode a fault message without accessing invalid registers.
#[derive(Debug, Clone, PartialEq, Eq)]
pub enum FaultDecodeError {
    /// The pinned kernel does not expose this fault class to the substrate.
    UnsupportedLabel(u64),
    /// The message does not contain exactly the registers required by its
    /// fault class.
    UnexpectedLength {
        /// Raw seL4 message label.
        label: u64,
        /// Required message-register count.
        expected: usize,
        /// Received message-register count.
        actual: usize,
    },
    /// A field documented by seL4 as boolean was not zero or one.
    InvalidBoolean {
        /// Raw seL4 message label.
        label: u64,
        /// Message-register index containing the invalid value.
        index: usize,
        /// Invalid raw value.
        value: u64,
    },
    /// The capability lookup failure discriminator is not defined by seL4.
    InvalidLookupFailureType(u64),
}

/// Context for an AArch64 VM fault.
#[derive(Debug, Clone, PartialEq, Eq)]
pub struct VmFault {
    /// Instruction address at which the fault occurred.
    pub instruction_pointer: u64,
    /// Virtual address that could not be accessed.
    pub address: u64,
    /// Whether instruction fetch, rather than data access, faulted.
    pub instruction_fault: bool,
    /// Raw architecture fault-syndrome value retained for policy layers.
    pub syndrome: u64,
}

/// Context for an AArch64 unknown-syscall fault.
#[derive(Debug, Clone, PartialEq, Eq)]
pub struct UnknownSyscallFault {
    /// X0 through X7 at the fault boundary.
    pub argument_registers: [u64; 8],
    /// Address of the faulting syscall instruction.
    pub instruction_pointer: u64,
    /// Stack pointer at the fault boundary.
    pub stack_pointer: u64,
    /// Link register at the fault boundary.
    pub link_register: u64,
    /// Saved process status register.
    pub status_register: u64,
    /// Raw syscall number supplied to seL4.
    pub syscall_number: u64,
}

/// Context for a capability fault.
#[derive(Debug, Clone, PartialEq, Eq)]
pub struct CapabilityFault {
    /// Instruction address at which the capability lookup failed.
    pub instruction_pointer: u64,
    /// Capability pointer supplied to the failed operation.
    pub capability_address: u64,
    /// Whether the lookup failed while receiving.
    pub in_receive_phase: bool,
    /// Structured capability lookup failure.
    pub lookup_failure: CapabilityLookupFailure,
}

/// The variable-length lookup details carried by a capability fault.
#[derive(Debug, Clone, PartialEq, Eq)]
pub enum CapabilityLookupFailure {
    /// The CSpace root was not a valid CNode.
    InvalidRoot,
    /// No capability was present at the current lookup depth.
    MissingCapability {
        /// Unresolved capability-pointer bits.
        bits_left: u64,
    },
    /// A CNode ended before all requested bits were resolved.
    DepthMismatch {
        /// Unresolved capability-pointer bits.
        bits_left: u64,
        /// Bits resolved by the final CNode.
        bits_found: u64,
    },
    /// A CNode guard did not match the capability pointer.
    GuardMismatch {
        /// Unresolved capability-pointer bits.
        bits_left: u64,
        /// Guard value found in the CNode capability.
        guard_found: u64,
        /// Number of guard bits compared.
        bits_found: u64,
    },
}

/// The length error reported for a message of `actual` registers.
pub open spec fn length_error(label: u64, expected: usize, actual: nat) -> FaultDecodeError {
    FaultDecodeError::UnexpectedLength { label, expected, actual: actual as usize }
}

/// A register documented as boolean: zero is false, one is true, anything
/// else is an error naming the register.
pub open spec fn boolean_spec(label: u64, index: usize, value: u64) -> Result<bool, FaultDecodeError> {
    if value == 0 {
        Ok(false)
    } else if value == 1 {
        Ok(true)
    } else {
        Err(FaultDecodeError::InvalidBoolean { label, index, value })
    }
}

/// A VM fault message carries exactly the instruction pointer, the
/// faulting address, the instruction-fault flag and the syndrome.
pub open spec fn vm_fault_spec(regs: Seq<u64>) -> Result<VmFault, FaultDecodeError> {
    if regs.len() != 4 {
        Err(length_error(VM_FAULT_LABEL, 4, regs.len()))
    } else {
        match boolean_spec(VM_FAULT_LABEL, 2, regs[2]) {
            Ok(flag) => Ok(
                VmFault {
                    instruction_pointer: regs[0],
                    address: regs[1],
                    instruction_fault: flag,
                    syndrome: regs[3],
                },
            ),
            Err(e) => Err(e),
        }
    }
}

/// An unknown-syscall message carries exactly X0..X7, then PC, SP, LR,
/// SPSR and the syscall number.
pub open spec fn unknown_syscall_spec(regs: Seq<u64>) -> Result<UnknownSyscallFault, FaultDecodeError> {
    if regs.len() != 13 {
        Err(length_error(UNKNOWN_SYSCALL_LABEL, 13, regs.len()))
    } else {
        Ok(
            UnknownSyscallFault {
                argument_registers: [
                    regs[0],
                    regs[1],
                    regs[2],
                    regs[3],
                    regs[4],
                    regs[5],
                    regs[6],
                    regs[7],
                ],
                instruction_pointer: regs[8],
                stack_pointer: regs[9],
                link_register: regs[10],
                status_register: regs[11],
                syscall_number: regs[12],
            },
        )
    }
}

/// The exact message length that a lookup-failure discriminator requires,
/// or `None` for a discriminator that seL4 does not define.
pub open spec fn lookup_failure_length(kind: u64) -> Option<usize> {
    if kind == 1 {
        Some(4)
    } else if kind == 2 {
        Some(5)
    } else if kind == 3 {
        Some(6)
    } else if kind == 4 {
        Some(7)
    } else {
        None
    }
}

/// The lookup failure described by registers 3 and following, for a
/// message whose length matches its discriminator.
pub open spec fn lookup_failure_spec(regs: Seq<u64>) -> CapabilityLookupFailure {
    if regs[3] == 1 {
        CapabilityLookupFailure::InvalidRoot
    } else if regs[3] == 2 {
        CapabilityLookupFailure::MissingCapability { bits_left: regs[4] }
    } else if regs[3] == 3 {
        CapabilityLookupFailure::DepthMismatch { bits_left: regs[4], bits_found: regs[5] }
    } else {
        CapabilityLookupFailure::GuardMismatch {
            bits_left: regs[4],
            guard_found: regs[5],
            bits_found: regs[6],
        }
    }
}

/// A capability fault message: at least four registers, a defined lookup
/// discriminator in register 3 fixing the exact length, then a boolean
/// receive-phase flag in register 2.
pub open spec fn capability_fault_spec(regs: Seq<u64>) -> Result<CapabilityFault, FaultDecodeError> {
    if regs.len() < 4 {
        Err(length_error(CAPABILITY_FAULT_LABEL, 4, regs.len()))
    } else {
        match lookup_failure_length(regs[3]) {
            None => Err(FaultDecodeError::InvalidLookupFailureType(regs[3])),
            Some(expected) => if regs.len() != expected {
                Err(length_error(CAPABILITY_FAULT_LABEL, expected, regs.len()))
            } else {
                match boolean_spec(CAPABILITY_FAULT_LABEL, 2, regs[2]) {
                    Ok(flag) => Ok(
                        CapabilityFault {
                            instruction_pointer: regs[0],
                            capability_address: regs[1],
                            in_receive_phase: flag,
                            lookup_failure: lookup_failure_spec(regs),
                        },
                    ),
                    Err(e) => Err(e),
                }
            },
        }
    }
}

/// The outcome of decoding a fault message with the given label and
/// message registers.
pub open spec fn decode_spec(label: u64, regs: Seq<u64>) -> Result<Fault, FaultDecodeError> {
    if label == CAPABILITY_FAULT_LABEL {
        match capability_fault_spec(regs) {
            Ok(f) => Ok(Fault::CapabilityFault(f)),
            Err(e) => Err(e),
        }
    } else if label == UNKNOWN_SYSCALL_LABEL {
        match unknown_syscall_spec(regs) {
            Ok(f) => Ok(Fault::UnknownSyscall(f)),
            Err(e) => Err(e),
        }
    } else if label == VM_FAULT_LABEL {
        match vm_fault_spec(regs) {
            Ok(f) => Ok(Fault::VmFault(f)),
            Err(e) => Err(e),
        }
    } else {
        Err(FaultDecodeError::UnsupportedLabel(label))
    }
}

impl Fault {
    /// Decodes a complete fault message after validating its exact shape.
    pub fn decode(label: u64, registers: &[u64]) -> (r: Result<Self, FaultDecodeError>)
        ensures
            r == decode_spec(label, registers@),
    {
        if label == CAPABILITY_FAULT_LABEL {
            match decode_capability_fault(registers) {
                Ok(f) => Ok(Fault::CapabilityFault(f)),
                Err(e) => Err(e),
            }
        } else if label == UNKNOWN_SYSCALL_LABEL {
            match decode_unknown_syscall(registers) {
                Ok(f) => Ok(Fault::UnknownSyscall(f)),
                Err(e) => Err(e),
            }
        } else if label == VM_FAULT_LABEL {
            match decode_vm_fault(registers) {
                Ok(f) => Ok(Fault::VmFault(f)),
                Err(e) => Err(e),
            }
        } else {
            Err(FaultDecodeError::UnsupportedLabel(label))
        }
    }
}

fn expect_length(label: u64, registers: &[u64], expected: usize) -> (r: Result<(), FaultDecodeError>)
    ensures
        r == (if registers@.len() == expected {
            Ok(())
        } else {
            Err(length_error(label, expected, registers@.len()))
        }),
{
    if registers.len() != expected {
        return Err(
            FaultDecodeError::UnexpectedLength { label, expected, actual: registers.len() },
        );
    }
    Ok(())
}

fn decode_boolean(label: u64, index: usize, value: u64) -> (r: Result<bool, FaultDecodeError>)
    ensures
        r == boolean_spec(label, index, value),
{
    match value {
        0 => Ok(false),
        1 => Ok(true),
        _ => Err(FaultDecodeError::InvalidBoolean { label, index, value }),
    }
}

fn decode_vm_fault(registers: &[u64]) -> (r: Result<VmFault, FaultDecodeError>)
    ensures
        r == vm_fault_spec(registers@),
{
    expect_length(VM_FAULT_LABEL, registers, 4)?;
    let instruction_fault = decode_boolean(VM_FAULT_LABEL, 2, registers[2])?;
    Ok(
        VmFault {
            instruction_pointer: registers[0],
            address: registers[1],
            instruction_fault,
            syndrome: registers[3],
        },
    )
}

fn decode_unknown_syscall(registers: &[u64]) -> (r: Result<UnknownSyscallFault, FaultDecodeError>)
    ensures
        r == unknown_syscall_spec(registers@),
{
    expect_length(UNKNOWN_SYSCALL_LABEL, registers, 13)?;
    let argument_registers = [
        registers[0],
        registers[1],
        registers[2],
        registers[3],
        registers[4],
        registers[5],
        registers[6],
        registers[7],
    ];
    Ok(
        UnknownSyscallFault {
            argument_registers,
            instruction_pointer: registers[8],
            stack_pointer: registers[9],
            link_register: registers[10],
            status_register: registers[11],
            syscall_number: registers[12],
        },
    )
}

fn decode_capability_fault(registers: &[u64]) -> (r: Result<CapabilityFault, FaultDecodeError>)
    ensures
        r == capability_fault_spec(registers@),
{
    if registers.len() < 4 {
        return Err(
            FaultDecodeError::UnexpectedLength {
                label: CAPABILITY_FAULT_LABEL,
                expected: 4,
                actual: registers.len(),
            },
        );
    }
    let lookup_failure = match registers[3] {
        1 => {
            expect_length(CAPABILITY_FAULT_LABEL, registers, 4)?;
            CapabilityLookupFailure::InvalidRoot
        },
        2 => {
            expect_length(CAPABILITY_FAULT_LABEL, registers, 5)?;
            CapabilityLookupFailure::MissingCapability { bits_left: registers[4] }
        },
        3 => {
            expect_length(CAPABILITY_FAULT_LABEL, registers, 6)?;
            CapabilityLookupFailure::DepthMismatch {
                bits_left: registers[4],
                bits_found: registers[5],
            }
        },
        4 => {
            expect_length(CAPABILITY_FAULT_LABEL, registers, 7)?;
            CapabilityLookupFailure::GuardMismatch {
                bits_left: registers[4],
                guard_found: registers[5],
                bits_found: registers[6],
            }
        },
        other => {
            return Err(FaultDecodeError::InvalidLookupFailureType(other));
        },
    };
    let in_receive_phase = decode_boolean(CAPABILITY_FAULT_LABEL, 2, registers[2])?;
    Ok(
        CapabilityFault {
            instruction_pointer: registers[0],
            capability_address: registers[1],
            in_receive_phase,
            lookup_failure,
        },
    )
}

/// A nonzero badge assigned to one fault capability path.
pub type FaultBadge = Badge;

/// Failure to construct a valid fault badge.
pub type FaultBadgeError = BadgeError;

/// A shared endpoint adapted for kernel fault IPC validation and decoding.
pub struct FaultEndpoint {
    endpoint: Endpoint,
}

/// A task's badged capability route to a shared fault endpoint.
#[derive(Clone, Copy)]
pub struct FaultRoute {
    delegation: DelegatedCapability,
}

impl View for FaultRoute {
    type V = DelegationView;

    /// The delegation that installs the route in the task's CSpace.
    closed spec fn view(&self) -> DelegationView {
        self.delegation@
    }
}

impl FaultRoute {
    /// The delegation that installs the route.
    pub closed spec fn delegation_spec(&self) -> DelegatedCapability {
        self.delegation
    }

    /// Derives one fault route through the generic endpoint mechanism.
    pub fn new(endpoint: &FaultEndpoint, badge: FaultBadge, child_slot: usize) -> (r: Self)
        ensures
            r@ == (DelegationView {
                source: endpoint@.cap,
                destination: child_slot,
                rights: crate::cspace::CapRights { read: false, write: true, grant: true, grant_reply: false },
                badge: badge@,
            }),
    {
        FaultRoute {
            delegation: DelegatedCapability::badged_endpoint(&endpoint.endpoint, child_slot, badge),
        }
    }

    /// The slot of the task's CSpace that holds the route.
    pub fn child_slot(&self) -> (r: usize)
        ensures
            r == self@.destination,
    {
        self.delegation.destination()
    }

    /// The delegation that installs the route.
    pub fn delegation(&self) -> (r: &DelegatedCapability)
        ensures
            r@ == self@,
            *r == self.delegation_spec(),
    {
        &self.delegation
    }
}

/// One decoded fault retaining its exact classic-kernel reply authority.
pub struct ReceivedFault<'a> {
    /// The badge assigned to the fault capability path.
    pub source: FaultBadge,
    /// The decoded fault.
    pub fault: Fault,
    /// The received message holding the reply authority.
    pub received: ReceivedMessage<'a>,
}

impl ReceivedFault<'_> {
    /// Returns the badge assigned to the fault capability path.
    pub fn source(&self) -> (r: FaultBadge)
        ensures
            r == self.source,
    {
        self.source
    }

    /// Returns the safely decoded fault context.
    pub fn fault(&self) -> (r: &Fault)
        ensures
            r == self.fault,
    {
        &self.fault
    }
}

/// Failure to validate or decode received fault IPC.
#[derive(Debug, Clone, PartialEq, Eq)]
pub enum FaultReceiveError {
    /// The kernel delivered an unbadged message on a fault endpoint.
    MissingSourceBadge,
    /// Fault IPC must not transfer capabilities.
    UnexpectedCapabilities {
        /// Capabilities unwrapped by seL4.
        caps_unwrapped: usize,
        /// Extra capability slots in the message.
        extra_caps: usize,
    },
    /// The message length exceeds the pinned IPC-buffer capacity.
    MessageTooLong {
        /// Length reported by seL4.
        length: usize,
        /// Available message registers.
        capacity: usize,
    },
    /// Generic endpoint state prevented a valid fault receive.
    Ipc(IpcError),
    /// The fault payload is malformed or unsupported.
    Decode(FaultDecodeError),
}

/// The outcome of receiving a fault delivered with `info`, message
/// registers `registers` and badge `raw_badge`: no capability may arrive,
/// the payload must fit, the path must be badged, no capability word may
/// have been unwrapped, and the payload must decode.
pub open spec fn fault_receive_spec(info: MessageInfo, registers: Seq<u64>, raw_badge: u64) -> Result<(u64, Fault), FaultReceiveError> {
    if info.extra_caps > 0 {
        Err(FaultReceiveError::UnexpectedCapabilities { caps_unwrapped: 0, extra_caps: info.extra_caps })
    } else {
        match incoming_spec(info, registers) {
            Err(IpcError::MessageTooLong { length, capacity }) => Err(
                FaultReceiveError::MessageTooLong { length, capacity },
            ),
            Err(other) => Err(FaultReceiveError::Ipc(other)),
            Ok(view) => if raw_badge == 0 {
                Err(FaultReceiveError::MissingSourceBadge)
            } else if view.caps_unwrapped != 0 || view.extra_caps != 0 {
                Err(
                    FaultReceiveError::UnexpectedCapabilities {
                        caps_unwrapped: view.caps_unwrapped,
                        extra_caps: view.extra_caps,
                    },
                )
            } else {
                match decode_spec(view.label, view.words) {
                    Err(e) => Err(FaultReceiveError::Decode(e)),
                    Ok(fault) => Ok((raw_badge, fault)),
                }
            },
        }
    }
}

impl View for FaultEndpoint {
    type V = EndpointView;

    closed spec fn view(&self) -> EndpointView {
        self.endpoint@
    }
}

impl FaultEndpoint {
    /// Adapts a generic endpoint for fault delivery.
    pub fn new(endpoint: Endpoint) -> (r: Self)
        ensures
            r@ == endpoint@,
    {
        FaultEndpoint { endpoint }
    }

    /// The underlying endpoint.
    pub fn endpoint(&self) -> (r: &Endpoint)
        ensures
            r@ == self@,
    {
        &self.endpoint
    }

    /// Claims the reply authority before a fault receive; refused while an
    /// earlier fault has not been replied to.
    pub fn begin_receive(&mut self) -> (r: Result<(), FaultReceiveError>)
        ensures
            old(self)@.reply_pending ==> r == Err::<(), FaultReceiveError>(
                FaultReceiveError::Ipc(IpcError::ReplyPending),
            ) && final(self)@ == old(self)@,
            !old(self)@.reply_pending ==> r is Ok && final(self)@ == (EndpointView {
                cap: old(self)@.cap,
                reply_pending: true,
            }),
    {
        match self.endpoint.begin_receive() {
            Ok(()) => Ok(()),
            Err(error) => Err(FaultReceiveError::Ipc(error)),
        }
    }

    /// Validates and decodes one delivered fault. Every refusal gives up the
    /// reply authority, which the caller answers with an empty reply.
    pub fn complete_receive<'a>(&'a mut self, info: MessageInfo, registers: &[u64], raw_badge: u64) -> (r:
        Result<ReceivedFault<'a>, FaultReceiveError>)
        requires
            registers@.len() == MESSAGE_CAPACITY,
        ensures
            match fault_receive_spec(info, registers@, raw_badge) {
                Err(f) => (r matches Err(e) && e == f) && final(self)@ == (EndpointView {
                    cap: old(self)@.cap,
                    reply_pending: false,
                }),
                Ok((badge, fault)) => r matches Ok(received) && received.source@ == badge
                    && received.fault == fault && (*received.received.endpoint)@ == old(self)@
                    && final(self)@ == (*final(received.received.endpoint))@,
            },
    {
        let received = match self.endpoint.complete_receive(None, info, registers, raw_badge) {
            Ok(received) => received,
            Err(error) => {
                return Err(
                    match error {
                        IpcError::MessageTooLong { length, capacity } => {
                            FaultReceiveError::MessageTooLong { length, capacity }
                        },
                        IpcError::ReceiveCapacityExceeded { count, .. } => {
                            FaultReceiveError::UnexpectedCapabilities {
                                caps_unwrapped: 0,
                                extra_caps: count,
                            }
                        },
                        other => FaultReceiveError::Ipc(other),
                    },
                );
            },
        };
        let source = match received.badge() {
            Some(source) => source,
            None => {
                received.finish();
                return Err(FaultReceiveError::MissingSourceBadge);
            },
        };
        let message = received.message();
        if message.caps_unwrapped() != 0 || message.extra_caps() != 0 {
            let error = FaultReceiveError::UnexpectedCapabilities {
                caps_unwrapped: message.caps_unwrapped(),
                extra_caps: message.extra_caps(),
            };
            received.finish();
            return Err(error);
        }
        let fault = match Fault::decode(message.label(), message.words()) {
            Ok(fault) => fault,
            Err(error) => {
                received.finish();
                return Err(FaultReceiveError::Decode(error));
            },
        };
        Ok(ReceivedFault { source, fault, received })
    }

    /// Blocks until a fault is delivered and validates it: claims the reply
    /// authority, has `recv` wait for a delivery (no capability is accepted),
    /// and accepts it as by [`FaultEndpoint::complete_receive`]. A refused
    /// fault gives the authority up, and `clear` answers it with an empty
    /// reply.
    pub fn receive<'a>(&'a mut self, recv: impl FnOnce() -> Delivery, clear: impl FnOnce()) -> (r:
        Result<ReceivedFault<'a>, FaultReceiveError>)
        requires
            call_requires(recv, ()),
            call_requires(clear, ()),
        ensures
            old(self)@.reply_pending ==> r == Err::<ReceivedFault<'a>, FaultReceiveError>(
                FaultReceiveError::Ipc(IpcError::ReplyPending),
            ) && final(self)@ == old(self)@,
            !old(self)@.reply_pending ==> exists|delivery: Delivery|
                #[trigger] call_ensures(recv, (), delivery) && match fault_receive_spec(
                    delivery.info,
                    delivery.registers@,
                    delivery.badge,
                ) {
                    Err(f) => (r matches Err(e) && e == f) && final(self)@ == (EndpointView {
                        cap: old(self)@.cap,
                        reply_pending: false,
                    }) && call_ensures(clear, (), ()),
                    Ok((badge, fault)) => r matches Ok(received) && received.source@ == badge
                        && received.fault == fault && (*received.received.endpoint)@ == (EndpointView {
                        cap: old(self)@.cap,
                        reply_pending: true,
                    }) && final(self)@ == (*final(received.received.endpoint))@,
                },
    {
        self.begin_receive()?;
        let delivery = recv();
        match self.complete_receive(delivery.info, delivery.registers.as_slice(), delivery.badge) {
            Ok(received) => Ok(received),
            Err(error) => {
                clear();
                Err(error)
            },
        }
    }

    /// Replies through the authority retained by this exact received fault:
    /// returns the empty reply's message-info word and gives up the
    /// authority.
    pub fn reply(fault: ReceivedFault<'_>) -> (r: MessageInfo)
        ensures
            r == (MessageInfo { label: 0, length: 0, extra_caps: 0, caps_unwrapped: 0 }),
            (*final(fault.received.endpoint))@ == (EndpointView {
                cap: (*old(fault.received.endpoint))@.cap,
                reply_pending: false,
            }),
    {
        let empty = Message::empty_reply();
        fault.received.reply(&empty)
    }
}

} // verus!
