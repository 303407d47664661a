use substrate::fault::{
    CapabilityFault, CapabilityLookupFailure, Fault, FaultDecodeError, UnknownSyscallFault,
    VmFault,
};

#[test]
fn decodes_vm_fault_context() {
    let fault = Fault::decode(5, &[0x1000, 0x4000, 0, 0x9200_0047]);
    assert_eq!(
        fault,
        Ok(Fault::VmFault(VmFault {
            instruction_pointer: 0x1000,
            address: 0x4000,
            instruction_fault: false,
            syndrome: 0x9200_0047,
        })),
    );
}

#[test]
fn rejects_malformed_vm_faults_before_field_access() {
    assert_eq!(
        Fault::decode(5, &[0x1000, 0x4000, 0]),
        Err(FaultDecodeError::UnexpectedLength { label: 5, expected: 4, actual: 3 }),
    );
    assert_eq!(
        Fault::decode(5, &[0x1000, 0x4000, 2, 0]),
        Err(FaultDecodeError::InvalidBoolean { label: 5, index: 2, value: 2 }),
    );
}

#[test]
fn decodes_unknown_syscall_register_context() {
    let registers = [
        10, 11, 12, 13, 14, 15, 16, 0x123, 0x8000, 0x9000, 0xa000, 0x40, 0x123,
    ];
    assert_eq!(
        Fault::decode(2, &registers),
        Ok(Fault::UnknownSyscall(UnknownSyscallFault {
            argument_registers: [10, 11, 12, 13, 14, 15, 16, 0x123],
            instruction_pointer: 0x8000,
            stack_pointer: 0x9000,
            link_register: 0xa000,
            status_register: 0x40,
            syscall_number: 0x123,
        })),
    );
}

#[test]
fn validates_capability_fault_shape_by_lookup_failure() {
    assert_eq!(
        Fault::decode(1, &[0x1000, 7, 0, 2, 61]),
        Ok(Fault::CapabilityFault(CapabilityFault {
            instruction_pointer: 0x1000,
            capability_address: 7,
            in_receive_phase: false,
            lookup_failure: CapabilityLookupFailure::MissingCapability { bits_left: 61 },
        })),
    );
    assert_eq!(
        Fault::decode(1, &[0x1000, 7, 1, 4, 60, 3, 4]),
        Ok(Fault::CapabilityFault(CapabilityFault {
            instruction_pointer: 0x1000,
            capability_address: 7,
            in_receive_phase: true,
            lookup_failure: CapabilityLookupFailure::GuardMismatch {
                bits_left: 60,
                guard_found: 3,
                bits_found: 4,
            },
        })),
    );
    assert_eq!(
        Fault::decode(1, &[0, 0, 0, 4, 0, 0]),
        Err(FaultDecodeError::UnexpectedLength { label: 1, expected: 7, actual: 6 }),
    );
}

#[test]
fn rejects_unsupported_labels_and_invalid_lookup_types() {
    assert_eq!(Fault::decode(3, &[]), Err(FaultDecodeError::UnsupportedLabel(3)));
    assert_eq!(
        Fault::decode(1, &[0, 0, 0, 9]),
        Err(FaultDecodeError::InvalidLookupFailureType(9)),
    );
}

#[test]
fn decodes_every_lookup_failure_kind() {
    assert_eq!(
        Fault::decode(1, &[1, 2, 1, 1]),
        Ok(Fault::CapabilityFault(CapabilityFault {
            instruction_pointer: 1,
            capability_address: 2,
            in_receive_phase: true,
            lookup_failure: CapabilityLookupFailure::InvalidRoot,
        })),
    );
    assert_eq!(
        Fault::decode(1, &[1, 2, 0, 3, 50, 14]),
        Ok(Fault::CapabilityFault(CapabilityFault {
            instruction_pointer: 1,
            capability_address: 2,
            in_receive_phase: false,
            lookup_failure: CapabilityLookupFailure::DepthMismatch {
                bits_left: 50,
                bits_found: 14,
            },
        })),
    );
}

#[test]
fn capability_fault_checks_length_before_receive_flag() {
    assert_eq!(
        Fault::decode(1, &[0, 0, 0]),
        Err(FaultDecodeError::UnexpectedLength { label: 1, expected: 4, actual: 3 }),
    );
    assert_eq!(
        Fault::decode(1, &[0, 0, 7, 1]),
        Err(FaultDecodeError::InvalidBoolean { label: 1, index: 2, value: 7 }),
    );
    assert_eq!(
        Fault::decode(1, &[0, 0, 7, 2]),
        Err(FaultDecodeError::UnexpectedLength { label: 1, expected: 5, actual: 4 }),
    );
}

#[test]
fn unknown_syscall_requires_thirteen_registers() {
    assert_eq!(
        Fault::decode(2, &[0; 12]),
        Err(FaultDecodeError::UnexpectedLength { label: 2, expected: 13, actual: 12 }),
    );
    assert_eq!(
        Fault::decode(2, &[0; 14]),
        Err(FaultDecodeError::UnexpectedLength { label: 2, expected: 13, actual: 14 }),
    );
}

#[test]
fn vm_fault_reports_instruction_fetch() {
    assert_eq!(
        Fault::decode(5, &[8, 16, 1, 3]),
        Ok(Fault::VmFault(VmFault {
            instruction_pointer: 8,
            address: 16,
            instruction_fault: true,
            syndrome: 3,
        })),
    );
}
