use std::cell::RefCell;
use substrate::cspace::{validate, CNodeCapData, CSpace};
use substrate::ipc::{Endpoint, IpcError, Notification};
use substrate::task::{installed_slots, ObjectSizes};
use substrate::thread::{TcbSettings, Thread, ThreadConfig};
use substrate::vspace::{TableLevel, VSpace};
use substrate::{Registers, RetypeOutcome, UntypedDescriptor};
use substrate::{
    Badge, BootInfo, Bootstrap, BootstrapError, CapRights, DelegatedCapability, FaultEndpoint,
    FaultRoute, Frame, SharedCode, TaskConfig,
};

fn boot_info() -> BootInfo {
    BootInfo {
        empty: 50..80,
        untyped: 10..11,
        untyped_list: vec![UntypedDescriptor { size_bits: 30, is_device: false }],
        user_image_frames: 0..0,
    }
}

fn config<'a>(code: &'a Frame, capabilities: &'a [DelegatedCapability]) -> TaskConfig<'a> {
    TaskConfig {
        cspace_size_bits: 4,
        code: SharedCode { frame: code, address: 0x0100_0000, entry: 0x0100_0000 },
        private_memory_address: 0x0200_0000,
        stack_address: 0x0200_1000,
        ipc_buffer_address: 0x0200_2000,
        reserved_pages: &[],
        initial_arguments: [1, 2, 3, 4],
        delegated_capabilities: capabilities,
        fault_route: None,
    }
}

#[test]
fn delegations_must_use_distinct_in_range_slots() {
    let notification = Notification::new(21);
    let a = DelegatedCapability::notification(&notification, 1);
    let b = DelegatedCapability::new(22, 2, CapRights::all(), 0);
    assert_eq!(validate(4, &[a, b], None), Ok(()));
    assert_eq!(validate(4, &[a, a], None), Err(BootstrapError::InvalidTaskConfiguration));
    let null_slot = DelegatedCapability::new(22, 0, CapRights::all(), 0);
    assert_eq!(validate(4, &[null_slot], None), Err(BootstrapError::InvalidTaskConfiguration));
    let too_far = DelegatedCapability::new(22, 16, CapRights::all(), 0);
    assert_eq!(validate(4, &[too_far], None), Err(BootstrapError::InvalidTaskConfiguration));
    let null_source = DelegatedCapability::new(0, 3, CapRights::all(), 0);
    assert_eq!(validate(4, &[null_source], None), Err(BootstrapError::InvalidTaskConfiguration));
    assert_eq!(validate(0, &[], None), Err(BootstrapError::InvalidTaskConfiguration));
    assert_eq!(validate(64, &[], None), Err(BootstrapError::InvalidTaskConfiguration));
}

#[test]
fn fault_routes_need_their_own_slot() {
    let endpoint = FaultEndpoint::new(Endpoint::new(30));
    let badge = Badge::new(0x41).expect("nonzero");
    let route = FaultRoute::new(&endpoint, badge, 3);
    assert_eq!(route.child_slot(), 3);
    assert_eq!(route.delegation().badge(), 0x41);
    assert_eq!(route.delegation().source(), 30);
    let other = DelegatedCapability::new(22, 2, CapRights::all(), 0);
    assert_eq!(validate(4, &[other], Some(&route)), Ok(()));
    let clash = DelegatedCapability::new(22, 3, CapRights::all(), 0);
    assert_eq!(validate(4, &[clash], Some(&route)), Err(BootstrapError::InvalidTaskConfiguration));
    let outside = FaultRoute::new(&endpoint, badge, 16);
    assert_eq!(validate(4, &[], Some(&outside)), Err(BootstrapError::InvalidTaskConfiguration));
}

#[test]
fn single_level_cspaces_guard_the_remaining_bits() {
    let cspace = CSpace::new(77, 4);
    assert_eq!(cspace.root(), 77);
    assert_eq!(cspace.root_data(), CNodeCapData { guard: 0, guard_size: 60 });
}

#[test]
fn installed_destinations_are_not_receive_slots() {
    let other = DelegatedCapability::new(22, 2, CapRights::all(), 0);
    let tracker = installed_slots(4, &[other], None).expect("sixteen slots fit");
    let mut tracker = tracker;
    assert!(tracker.reserve(2).is_err());
    assert!(tracker.reserve(3).is_ok());
    assert!(installed_slots(9, &[], None).is_none());
}

#[test]
fn task_configuration_yields_layout_and_thread_state() {
    let code = Frame::new(9);
    let capabilities = [DelegatedCapability::new(22, 1, CapRights::write_only(), 0)];
    let mut config = config(&code, &capabilities);
    let layout = config.layout().expect("valid layout");
    assert_eq!(layout.stack_pointer, 0x0200_2000);
    assert_eq!(config.page_addresses(), [0x0100_0000, 0x0200_0000, 0x0200_1000, 0x0200_2000]);
    assert_eq!(config.fault_endpoint(), 0);
    let thread = config.thread_config(&layout, 99);
    let registers = thread.initial_registers().expect("representable");
    assert_eq!(registers.instruction_pointer(), 0x0100_0000);
    assert_eq!(registers.stack_pointer(), 0x0200_2000);
    assert_eq!(registers.general_register(3), Ok(4));
    assert_eq!(registers.general_register(4), Ok(0));
    let endpoint = FaultEndpoint::new(Endpoint::new(30));
    config.fault_route = Some(FaultRoute::new(&endpoint, Badge::new(5).expect("nonzero"), 3));
    assert_eq!(config.fault_endpoint(), 3);
    config.stack_address = 0x0200_0000;
    assert_eq!(config.layout().err(), Some(BootstrapError::InvalidTaskConfiguration));
}


const SIZES: ObjectSizes = ObjectSizes { cnode_slot_bits: 5, vspace_bits: 12, frame_bits: 12, tcb_bits: 11 };
const LEVELS: [TableLevel; 3] = [
    TableLevel { span_bits: 39, object_bits: 12 },
    TableLevel { span_bits: 30, object_bits: 12 },
    TableLevel { span_bits: 21, object_bits: 12 },
];

#[test]
fn cspaces_install_delegations_then_the_fault_route() {
    let info = boot_info();
    let mut bootstrap = Bootstrap::new(&info).expect("free slots");
    let endpoint = FaultEndpoint::new(Endpoint::new(30));
    let route = FaultRoute::new(&endpoint, Badge::new(0x41).expect("nonzero"), 3);
    let capabilities = [
        DelegatedCapability::new(21, 1, CapRights::write_only(), 0),
        DelegatedCapability::new(22, 2, CapRights::all(), 7),
    ];
    let minted = RefCell::new(Vec::new());
    let cspace = CSpace::create(
        &mut bootstrap,
        4,
        &capabilities,
        Some(&route),
        9,
        |_, _| RetypeOutcome::Created,
        |root, slot, depth, delegation| {
            minted.borrow_mut().push((root, slot, depth, delegation.source(), delegation.badge()));
            true
        },
    )
    .expect("valid delegations");
    assert_eq!(cspace.root(), 50);
    assert_eq!(cspace.size_bits(), 4);
    assert_eq!(minted.into_inner(), vec![(50, 1, 4, 21, 0), (50, 2, 4, 22, 7), (50, 3, 4, 30, 0x41)]);
    let invalid = CSpace::create(&mut bootstrap, 4, &[capabilities[0], capabilities[0]], None, 9, |_, _| RetypeOutcome::Created, |_, _, _, _| true);
    assert_eq!(invalid.err(), Some(BootstrapError::InvalidTaskConfiguration));
    assert_eq!(bootstrap.checkpoint(), 51);
    let refused = CSpace::create(&mut bootstrap, 4, &capabilities, None, 9, |_, _| RetypeOutcome::Created, |_, _, _, _| false);
    assert_eq!(refused.err(), Some(BootstrapError::CSpaceCreationFailed));
}

#[test]
fn vspaces_map_one_table_per_span_and_level() {
    let info = boot_info();
    let mut bootstrap = Bootstrap::new(&info).expect("free slots");
    let tables = RefCell::new(Vec::new());
    let vspace = VSpace::create(
        &mut bootstrap,
        &[0x0100_0000, 0x0200_0000, 0x0200_1000, 0x0200_2000],
        &[0x0200_3000],
        12,
        &LEVELS,
        |_, _| RetypeOutcome::Created,
        |root| root == 50,
        |level, table, root, address| {
            tables.borrow_mut().push((level, table, root, address));
            true
        },
    )
    .expect("created");
    assert_eq!(vspace.root(), 50);
    assert_eq!(
        tables.into_inner(),
        vec![
            (0, 51, 50, 0x0100_0000),
            (1, 52, 50, 0x0100_0000),
            (2, 53, 50, 0x0100_0000),
            (2, 54, 50, 0x0200_0000),
        ]
    );
    let refused = VSpace::create(&mut bootstrap, &[0], &[], 12, &LEVELS, |_, _| RetypeOutcome::Created, |_| false, |_, _, _, _| true);
    assert_eq!(refused.err(), Some(BootstrapError::VSpaceCreationFailed));
    let too_wide = [TableLevel { span_bits: 64, object_bits: 12 }];
    let invalid = VSpace::create(&mut bootstrap, &[0], &[], 12, &too_wide, |_, _| RetypeOutcome::Created, |_| true, |_, _, _, _| true);
    assert_eq!(invalid.err(), Some(BootstrapError::InvalidTaskConfiguration));
}

#[test]
fn frames_are_mapped_through_a_restricted_copy() {
    let info = boot_info();
    let mut bootstrap = Bootstrap::new(&info).expect("free slots");
    let vspace = VSpace::new(77);
    let frame = Frame::new(9);
    let copies = RefCell::new(Vec::new());
    let mapping = vspace
        .map_frame(
            &mut bootstrap,
            &frame,
            0x3000,
            CapRights::read_only(),
            |slot, source, rights| {
                copies.borrow_mut().push((slot, source, rights));
                true
            },
            |mapping, root, address, rights| mapping == 50 && root == 77 && address == 0x3000 && rights == CapRights::read_only(),
        )
        .expect("mapped");
    assert_eq!(mapping, 50);
    assert_eq!(copies.into_inner(), vec![(50, 9, CapRights::read_only())]);
    assert_eq!(
        vspace.map_frame(&mut bootstrap, &frame, 0x3001, CapRights::read_write(), |_, _, _| true, |_, _, _, _| true).err(),
        Some(BootstrapError::InvalidTaskConfiguration)
    );
    assert_eq!(
        vspace.map_frame(&mut bootstrap, &frame, 0x4000, CapRights::read_write(), |_, _, _| true, |_, _, _, _| false).err(),
        Some(BootstrapError::FrameMappingFailed)
    );
    assert_eq!(bootstrap.checkpoint(), 52);
}

#[test]
fn threads_start_configured_and_suspended() {
    let info = boot_info();
    let mut bootstrap = Bootstrap::new(&info).expect("free slots");
    let cspace = CSpace::new(41, 4);
    let vspace = VSpace::new(42);
    let config = ThreadConfig {
        ipc_buffer_address: 0x0200_2000,
        ipc_buffer_mapping: 60,
        entry: 0x0100_0000,
        stack_pointer: 0x0200_2000,
        arguments: [1, 2, 3, 4],
        fault_endpoint: 3,
    };
    let seen = RefCell::new(None);
    let written = RefCell::new(None);
    let thread = Thread::create(
        &mut bootstrap,
        &cspace,
        &vspace,
        config,
        11,
        |_, _| RetypeOutcome::Created,
        |tcb, settings: TcbSettings| {
            *seen.borrow_mut() = Some((tcb, settings));
            true
        },
        |tcb, registers: &Registers| {
            *written.borrow_mut() = Some((tcb, registers.instruction_pointer(), registers.stack_pointer(), registers.general_register(3)));
            true
        },
    )
    .expect("configured");
    assert_eq!(thread.tcb(), 50);
    let (tcb, settings) = seen.into_inner().expect("configured once");
    assert_eq!(tcb, 50);
    assert_eq!(settings.cspace_root, 41);
    assert_eq!(settings.cspace_root_data, CNodeCapData { guard: 0, guard_size: 60 });
    assert_eq!(settings.vspace_root, 42);
    assert_eq!(settings.fault_endpoint, 3);
    assert_eq!(settings.ipc_buffer_address, 0x0200_2000);
    assert_eq!(settings.ipc_buffer_mapping, 60);
    assert_eq!(written.into_inner(), Some((50, 0x0100_0000, 0x0200_2000, Ok(4))));
}

#[test]
fn tasks_are_built_and_track_their_receive_slots() {
    let info = boot_info();
    let mut bootstrap = Bootstrap::new(&info).expect("free slots");
    let code = Frame::new(9);
    let capabilities = [DelegatedCapability::new(22, 1, CapRights::write_only(), 0)];
    let config = config(&code, &capabilities);
    let mappings = RefCell::new(Vec::new());
    let mut task = bootstrap
        .create_task(
            config,
            SIZES,
            &LEVELS,
            |_, _| RetypeOutcome::Created,
            |_, _, _, _| true,
            |_| true,
            |_, _, _, _| true,
            |_, _, _| true,
            |mapping, _, address, rights| {
                mappings.borrow_mut().push((mapping, address, rights));
                true
            },
            |_, _| true,
            |_, _| true,
            |_| true,
        )
        .expect("constructed");
    assert_eq!(task.cspace(), 50);
    assert_eq!(task.vspace(), 51);
    assert_eq!(task.root_slots(), 50..64);
    assert_eq!(task.private_memory().cap(), 57);
    assert_eq!(task.stack().cap(), 59);
    assert_eq!(task.ipc_buffer().cap(), 61);
    assert_eq!(task.tcb(), 63);
    assert_eq!(
        mappings.into_inner(),
        vec![
            (56, 0x0100_0000, CapRights::read_only()),
            (58, 0x0200_0000, CapRights::read_write()),
            (60, 0x0200_1000, CapRights::read_write()),
            (62, 0x0200_2000, CapRights::read_write()),
        ]
    );
    assert!(matches!(task.receive_slot(0), Err(IpcError::InvalidReceiveSlot)));
    assert!(matches!(task.receive_slot(16), Err(IpcError::InvalidReceiveSlot)));
    assert!(matches!(task.receive_slot(1), Err(IpcError::InvalidReceiveSlot)));
    let slot = task.receive_slot(2).expect("free slot");
    assert_eq!(slot.absolute().root, 50);
    assert_eq!(slot.finish(true), Ok(()));
    assert!(matches!(task.receive_slot(2), Err(IpcError::InvalidReceiveSlot)));
}

#[test]
fn failed_construction_is_rolled_back() {
    let info = boot_info();
    let mut bootstrap = Bootstrap::new(&info).expect("free slots");
    let code = Frame::new(9);
    let deleted = RefCell::new(Vec::new());
    let result = bootstrap.create_task(
        config(&code, &[]),
        SIZES,
        &LEVELS,
        |_, _| RetypeOutcome::Created,
        |_, _, _, _| true,
        |_| true,
        |_, _, _, _| true,
        |_, _, _| true,
        |_, _, _, _| true,
        |_, _| false,
        |_, _| true,
        |slot| {
            deleted.borrow_mut().push(slot);
            true
        },
    );
    assert_eq!(result.err(), Some(BootstrapError::ThreadConfigurationFailed));
    assert_eq!(bootstrap.checkpoint(), 50);
    let deleted = deleted.into_inner();
    assert_eq!(deleted.first(), Some(&63));
    assert_eq!(deleted.last(), Some(&50));
    let stuck = bootstrap.create_task(
        config(&code, &[]),
        SIZES,
        &LEVELS,
        |_, _| RetypeOutcome::Created,
        |_, _, _, _| true,
        |_| true,
        |_, _, _, _| true,
        |_, _, _| true,
        |_, _, _, _| false,
        |_, _| true,
        |_, _| true,
        |_| false,
    );
    assert_eq!(stuck.err(), Some(BootstrapError::RollbackFailed));
    let mut bad = config(&code, &[]);
    bad.code.entry = 0x0100_0002;
    let before = bootstrap.checkpoint();
    let invalid = bootstrap.create_task(
        bad,
        SIZES,
        &LEVELS,
        |_, _| RetypeOutcome::Created,
        |_, _, _, _| true,
        |_| true,
        |_, _, _, _| true,
        |_, _, _| true,
        |_, _, _, _| true,
        |_, _| true,
        |_, _| true,
        |_| true,
    );
    assert_eq!(invalid.err(), Some(BootstrapError::InvalidTaskConfiguration));
    assert_eq!(bootstrap.checkpoint(), before);
}

#[test]
fn recovery_frames_retain_exactly_one_slot() {
    let info = boot_info();
    let mut bootstrap = Bootstrap::new(&info).expect("free slots");
    let code = Frame::new(9);
    let task = bootstrap
        .create_task(
            config(&code, &[]),
            SIZES,
            &LEVELS,
            |_, _| RetypeOutcome::Created,
            |_, _, _, _| true,
            |_| true,
            |_, _, _, _| true,
            |_, _, _| true,
            |_, _, _, _| true,
            |_, _| true,
            |_, _| true,
            |_| true,
        )
        .expect("constructed");
    let recovery = Frame::new(70);
    let mapping = task
        .map_recovery_frame(&mut bootstrap, &recovery, 0x0200_3000, |_, _, _| true, |_, _, _, _| true, |_| true)
        .expect("mapped");
    assert_eq!(mapping.root_slot(), 64);
    assert!(mapping.root_slot() >= task.root_slots().end);
    let failed = task.map_recovery_frame(&mut bootstrap, &recovery, 0x0200_4000, |_, _, _| true, |_, _, _, _| false, |_| true);
    assert_eq!(failed.err(), Some(BootstrapError::FrameMappingFailed));
    assert_eq!(bootstrap.checkpoint(), 65);
    let unaligned = task.map_recovery_frame(&mut bootstrap, &recovery, 0x0200_4008, |_, _, _| true, |_, _, _, _| true, |_| true);
    assert_eq!(unaligned.err(), Some(BootstrapError::InvalidTaskConfiguration));
}

#[test]
fn refused_table_allocations_keep_the_root_and_report_the_refusal() {
    let info = boot_info();
    let mut bootstrap = Bootstrap::new(&info).expect("free slots");
    let attempts = RefCell::new(0usize);
    let outcome = VSpace::create(
        &mut bootstrap,
        &[0x0100_0000],
        &[],
        12,
        &LEVELS,
        |_, _| {
            let mut count = attempts.borrow_mut();
            *count += 1;
            if *count == 1 { RetypeOutcome::Created } else { RetypeOutcome::NotEnoughMemory }
        },
        |_| true,
        |_, _, _, _| true,
    );
    assert_eq!(outcome.err(), Some(BootstrapError::NoKernelMemory));
    assert_eq!(bootstrap.checkpoint(), 51);
    let failed = VSpace::create(&mut bootstrap, &[0], &[], 12, &LEVELS, |_, _| RetypeOutcome::Failed, |_| true, |_, _, _, _| true);
    assert_eq!(failed.err(), Some(BootstrapError::KernelAllocationFailed));
    assert_eq!(bootstrap.checkpoint(), 51);
}

#[test]
fn first_fit_tries_regions_in_boot_order() {
    let info = BootInfo {
        empty: 50..60,
        untyped: 10..13,
        untyped_list: vec![
            UntypedDescriptor { size_bits: 30, is_device: false },
            UntypedDescriptor { size_bits: 30, is_device: false },
            UntypedDescriptor { size_bits: 30, is_device: false },
        ],
        user_image_frames: 0..0,
    };
    let mut bootstrap = Bootstrap::new(&info).expect("free slots");
    let tried = RefCell::new(Vec::new());
    let slot = bootstrap
        .allocate_blueprint(12, |untyped, _| {
            tried.borrow_mut().push(untyped);
            if untyped == 11 { RetypeOutcome::Created } else { RetypeOutcome::NotEnoughMemory }
        })
        .expect("created");
    assert_eq!(slot, 50);
    assert_eq!(tried.into_inner(), vec![10, 11]);
}
