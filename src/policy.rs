//! Static assignment of protection categories to region slots, their fixed
//! access, and the build-time memory layout.

use crate::codec::{valid_range, MemoryAccess, ADDRESS_SPACE_END};
use crate::registers::N_REGIONS;
use core::ops::Range;
use vstd::prelude::*;

verus! {

/// Start of the kernel's flash.
pub const FLASH_BEGIN: usize = 0x0800_0000;

/// End of the kernel's flash (512 KiB).
pub const FLASH_END: usize = 0x0808_0000;

/// Start of the kernel's RAM.
pub const RAM_BEGIN: usize = 0x2000_0000;

/// End of the kernel's RAM (256 KiB).
pub const RAM_END: usize = 0x2004_0000;

/// MAIR attribute "outer and inner normal memory, non-cacheable", applied to
/// every region whatever its cacheable bit asks, until cache attributes are
/// known to be safe on every target.
pub const MAIR_NON_CACHEABLE: u32 = 0x44;

/// Priority of the MemManage exception: the most urgent configurable level,
/// so that no other interrupt can hold back a fault report.
pub const MEM_MANAGE_PRIORITY: u8 = 0;

/// The protection categories, each owning one region slot.
#[derive(Clone, Copy, Debug, PartialEq, Eq, Structural)]
pub enum MpuRegionUsage {
    Flash,
    Peripherals,
    OsStack,
    ThreadStack,
}

/// Slots in descending priority: flash, kernel stack, thread stack guard,
/// peripherals.
pub open spec fn slot_of(usage: MpuRegionUsage) -> int {
    match usage {
        MpuRegionUsage::Flash => N_REGIONS - 1,
        MpuRegionUsage::OsStack => N_REGIONS - 2,
        MpuRegionUsage::ThreadStack => N_REGIONS - 3,
        MpuRegionUsage::Peripherals => N_REGIONS - 4,
    }
}

pub open spec fn access_of(usage: MpuRegionUsage) -> MemoryAccess {
    match usage {
        MpuRegionUsage::Flash => MemoryAccess {
            readable: true,
            writeable: false,
            executable: true,
            cacheable: false,
        },
        _ => MemoryAccess { readable: true, writeable: true, executable: false, cacheable: false },
    }
}

/// The slot that a category owns.
pub fn slot_for(usage: MpuRegionUsage) -> (s: usize)
    ensures
        s == slot_of(usage),
        s < N_REGIONS,
{
    match usage {
        MpuRegionUsage::Flash => N_REGIONS - 1,
        MpuRegionUsage::OsStack => N_REGIONS - 2,
        MpuRegionUsage::ThreadStack => N_REGIONS - 3,
        MpuRegionUsage::Peripherals => N_REGIONS - 4,
    }
}

/// The fixed access of a category. Flash is never both writeable and
/// executable.
pub fn access_for(usage: MpuRegionUsage) -> (a: MemoryAccess)
    ensures
        a == access_of(usage),
        !(a.writeable && a.executable),
{
    match usage {
        MpuRegionUsage::Flash => MemoryAccess {
            readable: true,
            writeable: false,
            executable: true,
            cacheable: false,
        },
        _ => MemoryAccess { readable: true, writeable: true, executable: false, cacheable: false },
    }
}

/// No two categories share a slot, and the slots follow the priority order.
pub proof fn lemma_slots_distinct_and_ordered(a: MpuRegionUsage, b: MpuRegionUsage)
    ensures
        a != b ==> slot_of(a) != slot_of(b),
        0 <= slot_of(a) < N_REGIONS,
        slot_of(MpuRegionUsage::Flash) > slot_of(MpuRegionUsage::OsStack),
        slot_of(MpuRegionUsage::OsStack) > slot_of(MpuRegionUsage::ThreadStack),
        slot_of(MpuRegionUsage::ThreadStack) > slot_of(MpuRegionUsage::Peripherals),
{
}

/// The kernel's flash and RAM, fixed at build time.
#[derive(Debug)]
pub struct MemoryLayout {
    pub flash: Range<usize>,
    pub kernel_ram: Range<usize>,
}

impl MemoryLayout {
    pub open spec fn wf(&self) -> bool {
        valid_range(self.flash) && valid_range(self.kernel_ram)
    }

    /// The layout of the default STM32 target: 512 KiB of flash, 256 KiB of RAM.
    pub fn board() -> (l: MemoryLayout)
        ensures
            l.flash == (FLASH_BEGIN..FLASH_END),
            l.kernel_ram == (RAM_BEGIN..RAM_END),
            l.wf(),
    {
        MemoryLayout { flash: FLASH_BEGIN..FLASH_END, kernel_ram: RAM_BEGIN..RAM_END }
    }

    /// A layout from the two ranges, if both lie in the address space.
    pub fn new(flash: Range<usize>, kernel_ram: Range<usize>) -> (l: Option<MemoryLayout>)
        ensures
            l is Some <==> valid_range(flash) && valid_range(kernel_ram),
            l matches Some(m) ==> m.flash == flash && m.kernel_ram == kernel_ram && m.wf(),
    {
        let flash_ok = flash.start <= flash.end && (flash.start as u64) < ADDRESS_SPACE_END
            && (flash.end as u64) <= ADDRESS_SPACE_END;
        let ram_ok = kernel_ram.start <= kernel_ram.end && (kernel_ram.start as u64)
            < ADDRESS_SPACE_END && (kernel_ram.end as u64) <= ADDRESS_SPACE_END;
        if flash_ok && ram_ok {
            Some(MemoryLayout { flash, kernel_ram })
        } else {
            None
        }
    }
}

} // verus!
