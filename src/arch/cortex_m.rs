//! The Armv8-M MPU backend.

use super::{ConfigError, Mpu};
use crate::codec::{encode_region, MemoryAccess, ADDRESS_SPACE_END};
use crate::policy::{
    access_for, slot_for, MemoryLayout, MpuRegionUsage, MAIR_NON_CACHEABLE, MEM_MANAGE_PRIORITY,
};
use crate::registers::{RegisterFile, RegisterWrite, CTRL_ENABLE, N_REGIONS, SHCSR_MEMFAULTENA};
use core::ops::Range;
use vstd::prelude::*;

verus! {

/// The driver of an Armv8-M MPU, sole owner of its registers.
pub struct Cpu {
    regs: RegisterFile,
    layout: MemoryLayout,
    memory_attribute: u32,
}

impl Cpu {
    /// A driver for an MPU fresh out of reset, giving every region the
    /// non-cacheable memory attribute.
    pub fn new(layout: MemoryLayout) -> (c: Cpu)
        requires
            layout.wf(),
        ensures
            c.wf(),
            c.regs().is_reset(),
            c.memory_layout() == layout,
            c.memory_attribute() == MAIR_NON_CACHEABLE,
    {
        Cpu { regs: RegisterFile::reset(), layout, memory_attribute: MAIR_NON_CACHEABLE }
    }

    /// Like `new`, with another memory attribute in place of the
    /// non-cacheable default.
    pub fn with_memory_attribute(layout: MemoryLayout, attribute: u8) -> (c: Cpu)
        requires
            layout.wf(),
        ensures
            c.wf(),
            c.regs().is_reset(),
            c.memory_layout() == layout,
            c.memory_attribute() == attribute as u32,
    {
        Cpu { regs: RegisterFile::reset(), layout, memory_attribute: attribute as u32 }
    }

    /// The registers as the driver last wrote them.
    pub fn registers(&self) -> (r: &RegisterFile)
        ensures
            *r == self.regs(),
    {
        &self.regs
    }
}

impl Mpu for Cpu {
    const N_REGIONS: usize = N_REGIONS;

    closed spec fn regs(&self) -> RegisterFile {
        self.regs
    }

    closed spec fn memory_layout(&self) -> MemoryLayout {
        self.layout
    }

    closed spec fn memory_attribute(&self) -> u32 {
        self.memory_attribute
    }

    open spec fn wf(&self) -> bool {
        self.memory_layout().wf()
    }

    fn init(&mut self) {
        self.disable();
        let ram = self.layout.kernel_ram.start..self.layout.kernel_ram.end;
        let stack = self.configure_region(
            ram,
            slot_for(MpuRegionUsage::OsStack),
            access_for(MpuRegionUsage::OsStack),
        );
        assert(stack is Ok);
        let flash = self.layout.flash.start..self.layout.flash.end;
        let code = self.configure_region(
            flash,
            slot_for(MpuRegionUsage::Flash),
            access_for(MpuRegionUsage::Flash),
        );
        assert(code is Ok);
        self.regs.shcsr = self.regs.shcsr | SHCSR_MEMFAULTENA;
        self.regs.mem_manage_priority = MEM_MANAGE_PRIORITY;
        self.enable();
    }

    fn enable(&mut self) {
        // No PRIVDEFENA: memory that no region covers faults even for
        // privileged code. No HFNMIENA: the MPU stays out of the way while a
        // fault is being reported.
        self.regs.write(RegisterWrite::Control(CTRL_ENABLE));
    }

    fn disable(&mut self) {
        self.regs.write(RegisterWrite::Control(0));
    }

    fn configure_region(&mut self, range: Range<usize>, region_n: usize, access: MemoryAccess) -> (r: Result<(), ConfigError>) {
        if !(range.start <= range.end && (range.start as u64) < ADDRESS_SPACE_END
            && (range.end as u64) <= ADDRESS_SPACE_END) {
            return Err(ConfigError::InvalidRange);
        }
        let words = encode_region(&range, access);
        self.regs.write(
            RegisterWrite::Region { slot: region_n, attribute: self.memory_attribute, words },
        );
        Ok(())
    }
}

} // verus!
