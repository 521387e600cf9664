//! Decoding of the fault status registers and of the stacked program status
//! word into a report.

use vstd::prelude::*;

verus! {

/// The registers that the hardware stacks on exception entry.
#[derive(Clone, Copy, Debug, PartialEq, Eq, Structural)]
pub struct ExceptionFrame {
    pub r0: u32,
    pub r1: u32,
    pub r2: u32,
    pub r3: u32,
    pub r12: u32,
    pub lr: u32,
    pub pc: u32,
    pub xpsr: u32,
}

/// The fault status and address registers, as read in the handler.
#[derive(Clone, Copy, Debug, PartialEq, Eq, Structural)]
pub struct FaultRegisters {
    /// System handler control and state register.
    pub shcsr: u32,
    /// Configurable fault status register: MemManage, BusFault and
    /// UsageFault status.
    pub cfsr: u32,
    /// HardFault status register.
    pub hfsr: u32,
    /// MemManage fault address register.
    pub mmfar: u32,
    /// BusFault address register.
    pub bfar: u32,
}

/// A faulting address, trusted only where the hardware marked it valid.
#[derive(Clone, Copy, Debug, PartialEq, Eq, Structural)]
pub enum FaultAddress {
    Valid(u32),
    NotValid,
}

/// Every condition that the status registers can name.
#[derive(Clone, Copy, Debug, PartialEq, Eq, Structural)]
pub struct FaultFlags {
    pub instruction_access_violation: bool,
    pub data_access_violation: bool,
    pub mem_unstacking_fault: bool,
    pub mem_stacking_fault: bool,
    pub mem_lazy_fp_fault: bool,
    pub instruction_bus_error: bool,
    pub precise_data_bus_error: bool,
    pub imprecise_data_bus_error: bool,
    pub bus_unstacking_fault: bool,
    pub bus_stacking_fault: bool,
    pub bus_lazy_fp_fault: bool,
    pub undefined_instruction: bool,
    pub invalid_state: bool,
    pub invalid_pc_load: bool,
    pub no_coprocessor: bool,
    pub unaligned_access: bool,
    pub divide_by_zero: bool,
    pub vector_table_read: bool,
    pub forced: bool,
}

/// The fields of the program status word.
#[derive(Clone, Copy, Debug, PartialEq, Eq, Structural)]
pub struct ProgramStatus {
    pub negative: bool,
    pub zero: bool,
    pub carry: bool,
    pub overflow: bool,
    pub saturation: bool,
    /// GE[3:0].
    pub greater_equal: u32,
    /// The interrupt-continuable / if-then state, ICI/IT[7:0].
    pub ici_it: u32,
    pub thumb: bool,
    pub exception_number: usize,
}

/// Everything the fault handler reports before it stops.
#[derive(Clone, Copy, Debug, PartialEq, Eq, Structural)]
pub struct FaultReport {
    pub frame: ExceptionFrame,
    /// The raw status registers. The fault address registers are not kept:
    /// they reach the report only through the two gated addresses below.
    pub shcsr: u32,
    pub cfsr: u32,
    pub hfsr: u32,
    pub flags: FaultFlags,
    pub status: ProgramStatus,
    pub mem_fault_address: FaultAddress,
    pub bus_fault_address: FaultAddress,
}

/// The MemManage conditions, in the order of their status bits.
#[derive(Clone, Copy, Debug, PartialEq, Eq, Structural)]
pub enum MemManageCondition {
    InstructionAccessViolation,
    DataAccessViolation,
    UnstackingFault,
    StackingFault,
    LazyFpFault,
}

/// What the MemManage status byte says.
#[derive(Debug)]
pub struct MemManageTrace {
    /// MMFSR, the low byte of CFSR.
    pub mmfsr: u8,
    /// The conditions whose bits are set, lowest bit first.
    pub conditions: Vec<MemManageCondition>,
    pub fault_address: FaultAddress,
}

/// MMFSR bit: MMFAR holds a valid address.
pub const MMARVALID: u32 = 7;

/// BFSR bit (within CFSR): BFAR holds a valid address.
pub const BFARVALID: u32 = 15;

pub open spec fn bit(w: u32, n: u32) -> bool {
    (w >> n) & 1 == 1
}

/// The address, when its valid bit is set; `NotValid` whatever it holds
/// otherwise.
pub open spec fn gated_address(valid: bool, address: u32) -> FaultAddress {
    if valid {
        FaultAddress::Valid(address)
    } else {
        FaultAddress::NotValid
    }
}

pub open spec fn flags_of(cfsr: u32, hfsr: u32) -> FaultFlags {
    FaultFlags {
        instruction_access_violation: bit(cfsr, 0),
        data_access_violation: bit(cfsr, 1),
        mem_unstacking_fault: bit(cfsr, 3),
        mem_stacking_fault: bit(cfsr, 4),
        mem_lazy_fp_fault: bit(cfsr, 5),
        instruction_bus_error: bit(cfsr, 8),
        precise_data_bus_error: bit(cfsr, 9),
        imprecise_data_bus_error: bit(cfsr, 10),
        bus_unstacking_fault: bit(cfsr, 11),
        bus_stacking_fault: bit(cfsr, 12),
        bus_lazy_fp_fault: bit(cfsr, 13),
        undefined_instruction: bit(cfsr, 16),
        invalid_state: bit(cfsr, 17),
        invalid_pc_load: bit(cfsr, 18),
        no_coprocessor: bit(cfsr, 19),
        unaligned_access: bit(cfsr, 24),
        divide_by_zero: bit(cfsr, 25),
        vector_table_read: bit(hfsr, 1),
        forced: bit(hfsr, 30),
    }
}

pub open spec fn status_of(xpsr: u32) -> ProgramStatus {
    ProgramStatus {
        negative: bit(xpsr, 31),
        zero: bit(xpsr, 30),
        carry: bit(xpsr, 29),
        overflow: bit(xpsr, 28),
        saturation: bit(xpsr, 27),
        greater_equal: (xpsr >> 16u32) & 0xf,
        ici_it: (((xpsr >> 25u32) & 0x3) << 6u32) | ((xpsr >> 10u32) & 0x3f),
        thumb: bit(xpsr, 24),
        exception_number: (xpsr & 0x1ff) as usize,
    }
}

pub open spec fn report_of(frame: ExceptionFrame, regs: FaultRegisters) -> FaultReport {
    FaultReport {
        frame,
        shcsr: regs.shcsr,
        cfsr: regs.cfsr,
        hfsr: regs.hfsr,
        flags: flags_of(regs.cfsr, regs.hfsr),
        status: status_of(frame.xpsr),
        mem_fault_address: gated_address(bit(regs.cfsr, MMARVALID), regs.mmfar),
        bus_fault_address: gated_address(bit(regs.cfsr, BFARVALID), regs.bfar),
    }
}

/// Name of each exception number, as the architecture assigns them.
pub open spec fn isr_name(n: usize) -> Seq<char> {
    if n == 0 {
        "Thread Mode"@
    } else if n == 2 {
        "NMI"@
    } else if n == 3 {
        "HardFault"@
    } else if n == 4 {
        "MemManage"@
    } else if n == 5 {
        "BusFault"@
    } else if n == 6 {
        "UsageFault"@
    } else if n == 11 {
        "SVCall"@
    } else if n == 12 {
        "Reserved for Debug"@
    } else if n == 14 {
        "PendSV"@
    } else if n == 15 {
        "SysTick"@
    } else if n == 1 || (7 <= n <= 10) || n == 13 {
        "Reserved"@
    } else if 16 <= n <= 255 {
        "IRQn"@
    } else {
        "(Unknown! Illegal value?)"@
    }
}

pub open spec fn condition_text(c: MemManageCondition) -> Seq<char> {
    match c {
        MemManageCondition::InstructionAccessViolation => "Instruction Access Violation"@,
        MemManageCondition::DataAccessViolation => "Data Access Violation"@,
        MemManageCondition::UnstackingFault => "MemManage Fault on Unstacking"@,
        MemManageCondition::StackingFault => "MemManage Fault on Stacking"@,
        MemManageCondition::LazyFpFault => "MemManage Fault on Lazy FP State Preservation"@,
    }
}

pub open spec fn present(set: bool, c: MemManageCondition) -> Seq<MemManageCondition> {
    if set {
        seq![c]
    } else {
        seq![]
    }
}

/// The conditions that a status word names, lowest bit first.
pub open spec fn conditions_of(cfsr: u32) -> Seq<MemManageCondition> {
    present(bit(cfsr, 0), MemManageCondition::InstructionAccessViolation) + present(
        bit(cfsr, 1),
        MemManageCondition::DataAccessViolation,
    ) + present(bit(cfsr, 3), MemManageCondition::UnstackingFault) + present(
        bit(cfsr, 4),
        MemManageCondition::StackingFault,
    ) + present(bit(cfsr, 5), MemManageCondition::LazyFpFault)
}

fn bit_set(w: u32, n: u32) -> (r: bool)
    requires
        n < 32,
    ensures
        r == bit(w, n),
{
    (w >> n) & 1 == 1
}

fn address_if(valid: bool, address: u32) -> (r: FaultAddress)
    ensures
        r == gated_address(valid, address),
{
    if valid {
        FaultAddress::Valid(address)
    } else {
        FaultAddress::NotValid
    }
}

/// Names the exception that an IPSR number stands for.
pub fn ipsr_isr_number_to_str(isr_number: usize) -> (r: &'static str)
    ensures
        r@ == isr_name(isr_number),
{
    match isr_number {
        0 => "Thread Mode",
        1 => "Reserved",
        2 => "NMI",
        3 => "HardFault",
        4 => "MemManage",
        5 => "BusFault",
        6 => "UsageFault",
        7..=10 => "Reserved",
        11 => "SVCall",
        12 => "Reserved for Debug",
        13 => "Reserved",
        14 => "PendSV",
        15 => "SysTick",
        16..=255 => "IRQn",
        _ => "(Unknown! Illegal value?)",
    }
}

/// Readable name of a MemManage condition.
pub fn condition_name(c: MemManageCondition) -> (r: &'static str)
    ensures
        r@ == condition_text(c),
{
    match c {
        MemManageCondition::InstructionAccessViolation => "Instruction Access Violation",
        MemManageCondition::DataAccessViolation => "Data Access Violation",
        MemManageCondition::UnstackingFault => "MemManage Fault on Unstacking",
        MemManageCondition::StackingFault => "MemManage Fault on Stacking",
        MemManageCondition::LazyFpFault => "MemManage Fault on Lazy FP State Preservation",
    }
}

/// Whether CFSR names a MemManage fault (any status bit but the address
/// valid bit).
pub fn has_mem_manage_fault(cfsr: u32) -> (r: bool)
    ensures
        r == (conditions_of(cfsr).len() > 0),
{
    let r = bit_set(cfsr, 0) || bit_set(cfsr, 1) || bit_set(cfsr, 3) || bit_set(cfsr, 4)
        || bit_set(cfsr, 5);
    r
}

/// Lists the MemManage conditions that CFSR names, and the faulting address
/// when the hardware marked it valid.
pub fn mem_manage_fault_trace(cfsr: u32, mmfar: u32) -> (t: MemManageTrace)
    ensures
        t.mmfsr == cfsr & 0xff,
        t.conditions@ == conditions_of(cfsr),
        t.fault_address == gated_address(bit(cfsr, MMARVALID), mmfar),
{
    assert(cfsr & 0xff <= 0xff) by (bit_vector);
    let mmfsr = (cfsr & 0xff) as u8;
    let mut conditions: Vec<MemManageCondition> = Vec::new();
    if bit_set(cfsr, 0) {
        conditions.push(MemManageCondition::InstructionAccessViolation);
    }
    if bit_set(cfsr, 1) {
        conditions.push(MemManageCondition::DataAccessViolation);
    }
    if bit_set(cfsr, 3) {
        conditions.push(MemManageCondition::UnstackingFault);
    }
    if bit_set(cfsr, 4) {
        conditions.push(MemManageCondition::StackingFault);
    }
    if bit_set(cfsr, 5) {
        conditions.push(MemManageCondition::LazyFpFault);
    }
    assert(conditions@ =~= conditions_of(cfsr));
    let fault_address = address_if(bit_set(cfsr, MMARVALID), mmfar);
    MemManageTrace { mmfsr, conditions, fault_address }
}

/// Decodes the program status word.
pub fn decode_program_status(xpsr: u32) -> (s: ProgramStatus)
    ensures
        s == status_of(xpsr),
{
    ProgramStatus {
        negative: bit_set(xpsr, 31),
        zero: bit_set(xpsr, 30),
        carry: bit_set(xpsr, 29),
        overflow: bit_set(xpsr, 28),
        saturation: bit_set(xpsr, 27),
        greater_equal: (xpsr >> 16u32) & 0xf,
        ici_it: (((xpsr >> 25u32) & 0x3) << 6u32) | ((xpsr >> 10u32) & 0x3f),
        thumb: bit_set(xpsr, 24),
        exception_number: (xpsr & 0x1ff) as usize,
    }
}

/// Decodes the status registers into named conditions.
pub fn decode_flags(cfsr: u32, hfsr: u32) -> (f: FaultFlags)
    ensures
        f == flags_of(cfsr, hfsr),
{
    FaultFlags {
        instruction_access_violation: bit_set(cfsr, 0),
        data_access_violation: bit_set(cfsr, 1),
        mem_unstacking_fault: bit_set(cfsr, 3),
        mem_stacking_fault: bit_set(cfsr, 4),
        mem_lazy_fp_fault: bit_set(cfsr, 5),
        instruction_bus_error: bit_set(cfsr, 8),
        precise_data_bus_error: bit_set(cfsr, 9),
        imprecise_data_bus_error: bit_set(cfsr, 10),
        bus_unstacking_fault: bit_set(cfsr, 11),
        bus_stacking_fault: bit_set(cfsr, 12),
        bus_lazy_fp_fault: bit_set(cfsr, 13),
        undefined_instruction: bit_set(cfsr, 16),
        invalid_state: bit_set(cfsr, 17),
        invalid_pc_load: bit_set(cfsr, 18),
        no_coprocessor: bit_set(cfsr, 19),
        unaligned_access: bit_set(cfsr, 24),
        divide_by_zero: bit_set(cfsr, 25),
        vector_table_read: bit_set(hfsr, 1),
        forced: bit_set(hfsr, 30),
    }
}

/// Builds the full report of a fault from the stacked frame and the status
/// registers. Each faulting address is reported only where its valid bit is
/// set: where it is clear, the report is the same whatever the address
/// register holds.
pub fn decode_fault(frame: ExceptionFrame, regs: FaultRegisters) -> (r: FaultReport)
    ensures
        r == report_of(frame, regs),
        !bit(regs.cfsr, MMARVALID) ==> r.mem_fault_address == FaultAddress::NotValid,
        !bit(regs.cfsr, BFARVALID) ==> r.bus_fault_address == FaultAddress::NotValid,
        !bit(regs.cfsr, MMARVALID) ==> forall|other: u32|
            r == report_of(frame, FaultRegisters { mmfar: other, ..regs }),
        !bit(regs.cfsr, BFARVALID) ==> forall|other: u32|
            r == report_of(frame, FaultRegisters { bfar: other, ..regs }),
{
    FaultReport {
        frame,
        shcsr: regs.shcsr,
        cfsr: regs.cfsr,
        hfsr: regs.hfsr,
        flags: decode_flags(regs.cfsr, regs.hfsr),
        status: decode_program_status(frame.xpsr),
        mem_fault_address: address_if(bit_set(regs.cfsr, MMARVALID), regs.mmfar),
        bus_fault_address: address_if(bit_set(regs.cfsr, BFARVALID), regs.bfar),
    }
}

} // verus!
