//! Memory-protection layer for a preemptive embedded kernel: a register codec
//! for the MPU, a backend that programs the hardware registers under a
//! critical section, the static region policy, the facade that the scheduler
//! calls, and the decoder of fault status registers.

pub mod arch;
pub mod codec;
pub mod fault;
pub mod guarantees;
pub mod i2c;
pub mod policy;
pub mod registers;

pub use arch::{ConfigError, Cpu, Mpu};
pub use codec::MemoryAccess;
pub use fault::ipsr_isr_number_to_str;
pub use policy::{MemoryLayout, MpuRegionUsage};

use arch::{initialized, region_configured};
use codec::valid_range;
use core::ops::Range;
use policy::{access_for, access_of, slot_for, slot_of};
use vstd::prelude::*;

verus! {

/// Installs the kernel's fixed regions and turns protection on. Call it once,
/// before any thread is scheduled and before faulting interrupts are unmasked.
pub fn init_mpu(cpu: &mut Cpu)
    requires
        old(cpu).wf(),
    ensures
        final(cpu).wf(),
        final(cpu).memory_layout() == old(cpu).memory_layout(),
        final(cpu).memory_attribute() == old(cpu).memory_attribute(),
        initialized(
            old(cpu).regs(),
            final(cpu).regs(),
            old(cpu).memory_layout(),
            old(cpu).memory_attribute(),
        ),
{
    cpu.init();
}

/// Moves the thread stack guard onto the stack of the thread about to run,
/// readable and writeable, never executable. No other slot changes.
pub fn context_switch(cpu: &mut Cpu, stack_addr: Range<usize>) -> (r: Result<(), ConfigError>)
    requires
        old(cpu).wf(),
    ensures
        final(cpu).wf(),
        final(cpu).memory_layout() == old(cpu).memory_layout(),
        final(cpu).memory_attribute() == old(cpu).memory_attribute(),
        r == (if valid_range(stack_addr) {
            Ok(())
        } else {
            Err(ConfigError::InvalidRange)
        }),
        r is Ok ==> region_configured(
            old(cpu).regs(),
            final(cpu).regs(),
            slot_of(MpuRegionUsage::ThreadStack),
            stack_addr,
            access_of(MpuRegionUsage::ThreadStack),
            old(cpu).memory_attribute(),
        ),
        r is Err ==> final(cpu).regs() == old(cpu).regs(),
{
    cpu.configure_region(
        stack_addr,
        slot_for(MpuRegionUsage::ThreadStack),
        access_for(MpuRegionUsage::ThreadStack),
    )
}

} // verus!
