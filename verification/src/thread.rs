//! TCB register state.
use vstd::prelude::*;
use crate::boot::{allocation_refused, created_by, Bootstrap, RetypeOutcome};
use crate::cspace::{CNodeCapData, CSpace, WORD_SIZE};
use crate::errors::BootstrapError;
use crate::vspace::VSpace;

verus! {

/// Number of AArch64 general-purpose registers, X0 through X30.
pub const GENERAL_REGISTERS: usize = 31;

/// The abstract content of a [`Registers`] value.
pub struct RegistersView {
    /// Program counter.
    pub pc: u64,
    /// Stack pointer.
    pub sp: u64,
    /// Saved program status register.
    pub spsr: u64,
    /// X0 through X30.
    pub gprs: Seq<u64>,
    /// EL0 read/write thread-ID register.
    pub tpidr_el0: u64,
    /// EL0 read-only thread-ID register.
    pub tpidrro_el0: u64,
}

/// A task user-register context.
pub struct Registers {
    pc: u64,
    sp: u64,
    spsr: u64,
    gprs: [u64; 31],
    tpidr_el0: u64,
    tpidrro_el0: u64,
}

impl View for Registers {
    type V = RegistersView;

    closed spec fn view(&self) -> RegistersView {
        RegistersView {
            pc: self.pc,
            sp: self.sp,
            spsr: self.spsr,
            gprs: self.gprs@,
            tpidr_el0: self.tpidr_el0,
            tpidrro_el0: self.tpidrro_el0,
        }
    }
}

impl Registers {
    /// A context with every register zero.
    pub fn zeroed() -> (r: Self)
        ensures
            r@.pc == 0 && r@.sp == 0 && r@.spsr == 0 && r@.tpidr_el0 == 0 && r@.tpidrro_el0 == 0,
            r@.gprs.len() == GENERAL_REGISTERS,
            forall|i: int| 0 <= i < GENERAL_REGISTERS ==> #[trigger] r@.gprs[i] == 0,
    {
        Registers { pc: 0, sp: 0, spsr: 0, gprs: [0u64; 31], tpidr_el0: 0, tpidrro_el0: 0 }
    }

    /// A context assembled from every saved register.
    pub fn from_parts(
        pc: u64,
        sp: u64,
        spsr: u64,
        gprs: [u64; 31],
        tpidr_el0: u64,
        tpidrro_el0: u64,
    ) -> (r: Self)
        ensures
            r@ == (RegistersView { pc, sp, spsr, gprs: gprs@, tpidr_el0, tpidrro_el0 }),
    {
        Registers { pc, sp, spsr, gprs, tpidr_el0, tpidrro_el0 }
    }

    /// Returns the current program counter.
    pub fn instruction_pointer(&self) -> (r: u64)
        ensures
            r == self@.pc,
    {
        self.pc
    }

    /// Updates the program counter for the next register-state write.
    pub fn set_instruction_pointer(&mut self, value: u64)
        ensures
            final(self)@ == (RegistersView { pc: value, ..old(self)@ }),
    {
        self.pc = value;
    }

    /// Returns the current stack pointer.
    pub fn stack_pointer(&self) -> (r: u64)
        ensures
            r == self@.sp,
    {
        self.sp
    }

    /// Updates the stack pointer for the next register-state write.
    pub fn set_stack_pointer(&mut self, value: u64)
        ensures
            final(self)@ == (RegistersView { sp: value, ..old(self)@ }),
    {
        self.sp = value;
    }

    /// Returns the saved program status register.
    pub fn status_register(&self) -> (r: u64)
        ensures
            r == self@.spsr,
    {
        self.spsr
    }

    /// Returns the EL0 read/write and read-only thread-ID registers.
    pub fn thread_id_registers(&self) -> (r: (u64, u64))
        ensures
            r == (self@.tpidr_el0, self@.tpidrro_el0),
    {
        (self.tpidr_el0, self.tpidrro_el0)
    }

    /// Returns general-purpose register X0 through X30.
    pub fn general_register(&self, index: usize) -> (r: Result<u64, BootstrapError>)
        ensures
            index < GENERAL_REGISTERS ==> r == Ok::<u64, BootstrapError>(self@.gprs[index as int]),
            index >= GENERAL_REGISTERS ==> r == Err::<u64, BootstrapError>(BootstrapError::InvalidRegister),
    {
        if index >= GENERAL_REGISTERS {
            return Err(BootstrapError::InvalidRegister);
        }
        Ok(self.gprs[index])
    }

    /// Updates general-purpose register X0 through X30.
    pub fn set_general_register(&mut self, index: usize, value: u64) -> (r: Result<(), BootstrapError>)
        ensures
            index < GENERAL_REGISTERS ==> r is Ok && final(self)@ == (RegistersView {
                gprs: old(self)@.gprs.update(index as int, value),
                ..old(self)@
            }),
            index >= GENERAL_REGISTERS ==> r == Err::<(), BootstrapError>(BootstrapError::InvalidRegister)
                && final(self)@ == old(self)@,
    {
        if index >= GENERAL_REGISTERS {
            return Err(BootstrapError::InvalidRegister);
        }
        let mut gprs = self.gprs;
        gprs[index] = value;
        self.gprs = gprs;
        Ok(())
    }
}

/// Writing a general-purpose register and reading it back gives the value
/// written, and leaves every other register unchanged.
pub proof fn law_register_write_then_read(before: RegistersView, index: int, value: u64, other: int)
    requires
        before.gprs.len() == GENERAL_REGISTERS,
        0 <= index < GENERAL_REGISTERS,
        0 <= other < GENERAL_REGISTERS,
        other != index,
    ensures
        before.gprs.update(index, value)[index] == value,
        before.gprs.update(index, value)[other] == before.gprs[other],
{
}

/// The register-relevant part of a TCB configuration.
pub struct ThreadConfig {
    /// Virtual address of the IPC buffer.
    pub ipc_buffer_address: usize,
    /// Capability word of the IPC buffer's mapping.
    pub ipc_buffer_mapping: u64,
    /// Initial program counter.
    pub entry: usize,
    /// Initial stack pointer.
    pub stack_pointer: usize,
    /// Initial X0 through X3.
    pub arguments: [usize; 4],
    /// Capability pointer of the fault endpoint in the task's CSpace.
    pub fault_endpoint: u64,
}

impl ThreadConfig {
    /// The initial user context of the configured thread: entry as program
    /// counter, the stack pointer, and the four arguments in X0 through X3;
    /// every other register zero.
    pub fn initial_registers(&self) -> (r: Result<Registers, BootstrapError>)
        ensures
            r matches Ok(regs) && regs@.pc == self.entry && regs@.sp == self.stack_pointer
                && regs@.spsr == 0 && regs@.tpidr_el0 == 0 && regs@.tpidrro_el0 == 0
                && regs@.gprs.len() == GENERAL_REGISTERS && (forall|i: int|
                0 <= i < 4 ==> #[trigger] regs@.gprs[i] == self.arguments@[i]) && (forall|i: int|
                4 <= i < GENERAL_REGISTERS ==> #[trigger] regs@.gprs[i] == 0),
    {
        let mut registers = Registers::zeroed();
        registers.set_instruction_pointer(self.entry as u64);
        registers.set_stack_pointer(self.stack_pointer as u64);
        let mut index: usize = 0;
        while index < 4
            invariant
                index <= 4,
                registers@.pc == self.entry,
                registers@.sp == self.stack_pointer,
                registers@.spsr == 0 && registers@.tpidr_el0 == 0 && registers@.tpidrro_el0 == 0,
                registers@.gprs.len() == GENERAL_REGISTERS,
                forall|i: int| 0 <= i < index ==> #[trigger] registers@.gprs[i] == self.arguments@[i],
                forall|i: int| index <= i < GENERAL_REGISTERS ==> #[trigger] registers@.gprs[i] == 0,
            decreases 4 - index,
        {
            let value = self.arguments[index] as u64;
            match registers.set_general_register(index, value) {
                Ok(()) => {},
                Err(_) => return Err(BootstrapError::InvalidTaskConfiguration),
            }
            index = index + 1;
        }
        Ok(registers)
    }
}

/// The settings a TCB is configured with.
#[derive(Debug, Clone, Copy, PartialEq, Eq)]
pub struct TcbSettings {
    /// Capability pointer of the fault endpoint in the task's CSpace.
    pub fault_endpoint: u64,
    /// Capability word of the CSpace root.
    pub cspace_root: u64,
    /// Guard of the CSpace root.
    pub cspace_root_data: CNodeCapData,
    /// Capability word of the VSpace root.
    pub vspace_root: u64,
    /// Virtual address of the IPC buffer.
    pub ipc_buffer_address: u64,
    /// Capability word of the IPC buffer's mapping.
    pub ipc_buffer_mapping: u64,
}

/// `registers` is the initial context of a thread of `config`: entry as
/// program counter, the stack pointer, and the four arguments in X0
/// through X3.
pub open spec fn initial_context(config: ThreadConfig, registers: RegistersView) -> bool {
    &&& registers.pc == config.entry
    &&& registers.sp == config.stack_pointer
    &&& registers.gprs.len() == GENERAL_REGISTERS
    &&& forall|i: int| 0 <= i < 4 ==> #[trigger] registers.gprs[i] == config.arguments@[i]
    &&& forall|i: int| 4 <= i < GENERAL_REGISTERS ==> #[trigger] registers.gprs[i] == 0
}

/// The settings a thread of `config` is configured with in `cspace` and
/// `vspace`: the CSpace root is guarded so that its index bits resolve the
/// whole word.
pub open spec fn tcb_settings(config: ThreadConfig, cspace: &CSpace, vspace: &VSpace) -> TcbSettings {
    TcbSettings {
        fault_endpoint: config.fault_endpoint,
        cspace_root: cspace.root_spec(),
        cspace_root_data: CNodeCapData { guard: 0, guard_size: (WORD_SIZE - cspace.size_bits_spec()) as usize },
        vspace_root: vspace.root_spec(),
        ipc_buffer_address: config.ipc_buffer_address as u64,
        ipc_buffer_mapping: config.ipc_buffer_mapping,
    }
}

/// A configured, suspended thread of control.
pub struct Thread {
    tcb: u64,
}

impl Thread {
    /// The TCB capability word.
    pub closed spec fn tcb_spec(&self) -> u64 {
        self.tcb
    }

    /// Returns the TCB capability word.
    pub fn tcb(&self) -> (r: u64)
        ensures
            r == self.tcb_spec(),
    {
        self.tcb
    }

    /// Configures a suspended TCB with validated space and register state:
    /// the TCB object, of physical size `tcb_bits`, is created through
    /// `retype` as by [`Bootstrap::allocate_blueprint`], configured through
    /// `configure` with the settings it is given, and given its initial
    /// registers through `write_registers`.
    pub fn create(
        bootstrap: &mut Bootstrap<'_>,
        cspace: &CSpace,
        vspace: &VSpace,
        config: ThreadConfig,
        tcb_bits: usize,
        retype: impl Fn(usize, usize) -> RetypeOutcome,
        configure: impl FnOnce(u64, TcbSettings) -> bool,
        write_registers: impl FnOnce(u64, &Registers) -> bool,
    ) -> (r: Result<Self, BootstrapError>)
        requires
            cspace.size_bits_spec() <= WORD_SIZE,
            forall|untyped: usize, destination: usize| call_requires(retype, (untyped, destination)),
            forall|tcb: u64, settings: TcbSettings| call_requires(configure, (tcb, settings)),
            forall|tcb: u64, registers: &Registers| call_requires(write_registers, (tcb, registers)),
        ensures
            final(bootstrap).bootinfo_spec() == old(bootstrap).bootinfo_spec(),
            final(bootstrap).slots_spec().first == old(bootstrap).slots_spec().first,
            final(bootstrap).slots_spec().end == old(bootstrap).slots_spec().end,
            old(bootstrap).slots_spec().next <= final(bootstrap).slots_spec().next,
            r matches Ok(thread) ==> {
                &&& thread.tcb_spec() == old(bootstrap).slots_spec().next as u64
                &&& final(bootstrap).slots_spec() == old(bootstrap).slots_spec().advanced()
                &&& created_by(old(bootstrap).bootinfo_spec(), retype, tcb_bits, old(bootstrap).slots_spec().next)
                &&& call_ensures(configure, (thread.tcb_spec(), tcb_settings(config, cspace, vspace)), true)
                &&& exists|registers: &Registers|
                    initial_context(config, registers@) && #[trigger] call_ensures(
                        write_registers,
                        (thread.tcb_spec(), registers),
                        true,
                    )
            },
            old(bootstrap).slots_spec().is_exhausted() ==> r == Err::<Thread, BootstrapError>(
                BootstrapError::NoFreeSlots,
            ),
            r matches Err(e) ==> e == BootstrapError::NoFreeSlots || e == BootstrapError::NoKernelMemory
                || e == BootstrapError::KernelAllocationFailed || e == BootstrapError::ThreadConfigurationFailed,
            r matches Err(e) ==> (e != BootstrapError::ThreadConfigurationFailed ==> final(bootstrap).slots_spec()
                == old(bootstrap).slots_spec() && allocation_refused(
                old(bootstrap).bootinfo_spec(),
                retype,
                tcb_bits,
                old(bootstrap).slots_spec(),
                e,
            )),
            r matches Err(e) && e == BootstrapError::ThreadConfigurationFailed ==> {
                let tcb = old(bootstrap).slots_spec().next as u64;
                &&& final(bootstrap).slots_spec() == old(bootstrap).slots_spec().advanced()
                &&& created_by(old(bootstrap).bootinfo_spec(), retype, tcb_bits, old(bootstrap).slots_spec().next)
                &&& (call_ensures(configure, (tcb, tcb_settings(config, cspace, vspace)), false) || exists|
                    registers: &Registers,
                | initial_context(config, registers@) && #[trigger] call_ensures(write_registers, (tcb, registers), false))
            },
    {
        let ipc_buffer_address = config.ipc_buffer_address as u64;
        let slot = bootstrap.allocate_blueprint(tcb_bits, retype)?;
        let tcb = slot as u64;
        let settings = TcbSettings {
            fault_endpoint: config.fault_endpoint,
            cspace_root: cspace.root(),
            cspace_root_data: cspace.root_data(),
            vspace_root: vspace.root(),
            ipc_buffer_address,
            ipc_buffer_mapping: config.ipc_buffer_mapping,
        };
        if !configure(tcb, settings) {
            return Err(BootstrapError::ThreadConfigurationFailed);
        }
        let registers = config.initial_registers()?;
        if !write_registers(tcb, &registers) {
            return Err(BootstrapError::ThreadConfigurationFailed);
        }
        Ok(Thread { tcb })
    }
}

} // verus!
