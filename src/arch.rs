//! The capability that each supported MPU offers, and the one backend that
//! this build links.

use crate::codec::{encodes, valid_range, MemoryAccess, RegionWords};
use crate::policy::{access_of, slot_of, MemoryLayout, MpuRegionUsage, MEM_MANAGE_PRIORITY};
use crate::registers::{with_control, with_region, RegisterFile, CTRL_ENABLE, N_REGIONS, SHCSR_MEMFAULTENA};
use core::ops::Range;
use vstd::prelude::*;

mod cortex_m;

pub use cortex_m::Cpu;

verus! {

/// A region request that is refused before it reaches the hardware.
#[derive(Clone, Copy, Debug, PartialEq, Eq, Structural)]
pub enum ConfigError {
    /// The range is reversed or leaves the 32-bit address space.
    InvalidRange,
}

/// Which ranges `configure_region` accepts, and the error it gives
/// otherwise.
pub open spec fn configure_outcome(range: Range<usize>) -> Result<(), ConfigError> {
    if valid_range(range) {
        Ok(())
    } else {
        Err(ConfigError::InvalidRange)
    }
}

/// The words in `slot` encode `range` with `access`.
pub open spec fn slot_holds(r: RegisterFile, slot: int, range: Range<usize>, access: MemoryAccess) -> bool {
    encodes(RegionWords { rbar: r.rbar@[slot], rlar: r.rlar@[slot] }, range, access)
}

/// `post` is `pre` with `range` and `access` programmed into `slot` under
/// the memory attribute `attribute`, and nothing else changed.
pub open spec fn region_configured(
    pre: RegisterFile,
    post: RegisterFile,
    slot: int,
    range: Range<usize>,
    access: MemoryAccess,
    attribute: u32,
) -> bool {
    &&& slot_holds(post, slot, range, access)
    &&& with_region(
        pre,
        post,
        slot,
        attribute,
        RegionWords { rbar: post.rbar@[slot], rlar: post.rlar@[slot] },
    )
}

/// The state that `init` leaves: the kernel's RAM and flash protected in
/// their slots, the other slots as they were, the MemManage exception on at
/// its priority, and the MPU active with neither background map nor
/// protection in fault handlers.
pub open spec fn initialized(
    pre: RegisterFile,
    post: RegisterFile,
    layout: MemoryLayout,
    attribute: u32,
) -> bool {
    let flash = slot_of(MpuRegionUsage::Flash);
    let stack = slot_of(MpuRegionUsage::OsStack);
    &&& post.ctrl == CTRL_ENABLE
    &&& post.shcsr == pre.shcsr | SHCSR_MEMFAULTENA
    &&& post.mem_manage_priority == MEM_MANAGE_PRIORITY
    &&& post.mair0 == attribute
    &&& post.rnr == flash
    &&& slot_holds(post, flash, layout.flash, access_of(MpuRegionUsage::Flash))
    &&& slot_holds(post, stack, layout.kernel_ram, access_of(MpuRegionUsage::OsStack))
    &&& forall|i: int|
        0 <= i < N_REGIONS && i != flash && i != stack ==> post.rbar@[i] == pre.rbar@[i]
            && post.rlar@[i] == pre.rlar@[i]
}

/// An MPU driver: it owns the MPU registers and changes them only through
/// these operations.
pub trait Mpu: Sized {
    /// Number of region slots the MPU offers.
    const N_REGIONS: usize;

    /// The registers as this driver last wrote them.
    spec fn regs(&self) -> RegisterFile;

    /// The kernel's fixed memory.
    spec fn memory_layout(&self) -> MemoryLayout;

    /// The memory attribute given to every region.
    spec fn memory_attribute(&self) -> u32;

    spec fn wf(&self) -> bool;

    /// Disables the MPU, protects the kernel's RAM and flash, enables the
    /// MemManage exception, then enables the MPU.
    fn init(&mut self)
        requires
            old(self).wf(),
        ensures
            final(self).wf(),
            final(self).memory_layout() == old(self).memory_layout(),
            final(self).memory_attribute() == old(self).memory_attribute(),
            initialized(
                old(self).regs(),
                final(self).regs(),
                old(self).memory_layout(),
                old(self).memory_attribute(),
            ),
    ;

    /// Sets the MPU's active bit alone.
    fn enable(&mut self)
        requires
            old(self).wf(),
        ensures
            final(self).wf(),
            final(self).memory_layout() == old(self).memory_layout(),
            final(self).memory_attribute() == old(self).memory_attribute(),
            final(self).regs() == with_control(old(self).regs(), CTRL_ENABLE),
    ;

    /// Turns the MPU off: every access is then allowed.
    fn disable(&mut self)
        requires
            old(self).wf(),
        ensures
            final(self).wf(),
            final(self).memory_layout() == old(self).memory_layout(),
            final(self).memory_attribute() == old(self).memory_attribute(),
            final(self).regs() == with_control(old(self).regs(), 0),
    ;

    /// Programs one region slot, or refuses the range and changes nothing. A
    /// slot beyond the MPU's is a programming error that callers must rule
    /// out.
    fn configure_region(&mut self, range: Range<usize>, region_n: usize, access: MemoryAccess) -> (r: Result<(), ConfigError>)
        requires
            old(self).wf(),
            region_n < N_REGIONS,
        ensures
            final(self).wf(),
            final(self).memory_layout() == old(self).memory_layout(),
            final(self).memory_attribute() == old(self).memory_attribute(),
            r == configure_outcome(range),
            r is Ok ==> region_configured(
                old(self).regs(),
                final(self).regs(),
                region_n as int,
                range,
                access,
                old(self).memory_attribute(),
            ),
            r is Err ==> final(self).regs() == old(self).regs(),
    ;
}

} // verus!
