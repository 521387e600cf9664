//! Translation between semantic region descriptors and the raw region
//! registers of an Armv8-M MPU.
//!
//! RBAR: `[31:5]` base, `[4:3]` shareability, `[2:1]` access permission,
//! `[0]` execute-never.
//! RLAR: `[31:5]` limit (inclusive last block), `[4]` privileged
//! execute-never, `[3:1]` attribute index, `[0]` enable.

use core::ops::Range;
use vstd::prelude::*;

verus! {

/// Size in bytes of the smallest block the MPU can protect.
pub const GRANULE: u64 = 32;

/// One past the highest byte address of the 32-bit address space.
pub const ADDRESS_SPACE_END: u64 = 0x1_0000_0000;

/// Bits of RBAR and RLAR that hold an address.
pub const ADDRESS_MASK: u32 = 0xFFFF_FFE0;

/// RBAR access permission "read-only, privileged only" (`AP = 0b10`).
pub const AP_READ_ONLY_PRIVILEGED: u32 = 0b100;

/// RBAR access permission "read-write, privileged only" (`AP = 0b00`).
pub const AP_READ_WRITE_PRIVILEGED: u32 = 0;

/// RBAR execute-never bit.
pub const RBAR_XN: u32 = 0b1;

/// RLAR privileged execute-never bit.
pub const RLAR_PXN: u32 = 0b1 << 4;

/// RLAR enable bit.
pub const RLAR_EN: u32 = 0b1;

/// A set of independent capabilities asked of a region.
#[derive(Clone, Copy, Debug, PartialEq, Eq, Structural)]
pub struct MemoryAccess {
    pub readable: bool,
    pub writeable: bool,
    pub executable: bool,
    pub cacheable: bool,
}

/// The two words that program one region.
#[derive(Clone, Copy, Debug, PartialEq, Eq, Structural)]
pub struct RegionWords {
    pub rbar: u32,
    pub rlar: u32,
}

pub open spec fn align_down(a: int) -> int {
    a - a % (GRANULE as int)
}

pub open spec fn align_up(a: int) -> int {
    if a % (GRANULE as int) == 0 {
        a
    } else {
        align_down(a) + GRANULE as int
    }
}

/// A half-open range that lies inside the 32-bit address space and starts
/// at an address of it.
pub open spec fn valid_range(r: Range<usize>) -> bool {
    r.start <= r.end && r.start < ADDRESS_SPACE_END && r.end <= ADDRESS_SPACE_END
}

pub open spec fn rbar_base(rbar: u32) -> u32 {
    rbar & ADDRESS_MASK
}

pub open spec fn rbar_sh(rbar: u32) -> u32 {
    (rbar >> 3u32) & 3
}

pub open spec fn rbar_ap(rbar: u32) -> u32 {
    (rbar >> 1u32) & 3
}

pub open spec fn rbar_xn(rbar: u32) -> bool {
    rbar & 1 == 1
}

pub open spec fn rlar_limit(rlar: u32) -> u32 {
    rlar & ADDRESS_MASK
}

pub open spec fn rlar_pxn(rlar: u32) -> bool {
    (rlar >> 4u32) & 1 == 1
}

pub open spec fn rlar_attr_index(rlar: u32) -> u32 {
    (rlar >> 1u32) & 7
}

pub open spec fn rlar_en(rlar: u32) -> bool {
    rlar & 1 == 1
}

/// First byte that a region with this RBAR covers.
pub open spec fn region_start(rbar: u32) -> int {
    rbar_base(rbar) as int
}

/// One past the last byte that a region with this RLAR covers: the limit
/// field names the last block, inclusively.
pub open spec fn region_end(rlar: u32) -> int {
    rlar_limit(rlar) as int + GRANULE as int
}

/// Access permissions `0b00` and `0b01` allow writes, `0b10` and `0b11` do not.
pub open spec fn region_writable(rbar: u32) -> bool {
    rbar_ap(rbar) < 2
}

/// The kernel runs privileged: both execute-never bits must be clear.
pub open spec fn region_executable(rbar: u32, rlar: u32) -> bool {
    !rbar_xn(rbar) && !rlar_pxn(rlar)
}

/// The words of a region decode to exactly the requested range, rounded
/// outwards to the granule, and to exactly the requested access.
pub open spec fn encodes(w: RegionWords, range: Range<usize>, access: MemoryAccess) -> bool {
    &&& range.start < range.end ==> {
        &&& rlar_en(w.rlar)
        &&& region_start(w.rbar) == align_down(range.start as int)
        &&& region_end(w.rlar) == align_up(range.end as int)
    }
    &&& range.start == range.end ==> !rlar_en(w.rlar) && region_start(w.rbar) == align_down(
        range.start as int,
    ) && rlar_limit(w.rlar) == rbar_base(w.rbar)
    &&& rbar_sh(w.rbar) == 0
    &&& rbar_ap(w.rbar) == (if access.writeable {
        0u32
    } else {
        2u32
    })
    &&& rbar_xn(w.rbar) == !access.executable
    &&& rlar_pxn(w.rlar) == !access.executable
    &&& rlar_attr_index(w.rlar) == 0
}

proof fn lemma_fields(base: u32, limit: u32, ap: u32, xn: u32, en: u32)
    by (bit_vector)
    requires
        base & 31 == 0,
        limit & 31 == 0,
        ap == 0 || ap == 4,
        xn == 0 || xn == 1,
        en == 0 || en == 1,
    ensures
        (base | ap | xn) & ADDRESS_MASK == base,
        ((base | ap | xn) >> 3u32) & 3 == 0,
        ((base | ap | xn) >> 1u32) & 3 == (if ap == 0 { 0u32 } else { 2u32 }),
        ((base | ap | xn) & 1 == 1) == (xn == 1),
        (limit | (xn << 4u32) | en) & ADDRESS_MASK == limit,
        (((limit | (xn << 4u32) | en) >> 4u32) & 1 == 1) == (xn == 1),
        ((limit | (xn << 4u32) | en) >> 1u32) & 7 == 0,
        ((limit | (xn << 4u32) | en) & 1 == 1) == (en == 1),
{
}

proof fn lemma_mask_is_align_down(x: u32)
    by (bit_vector)
    ensures
        x & ADDRESS_MASK == x - x % 32,
        (x & ADDRESS_MASK) & 31 == 0,
{
}

/// Encodes a region descriptor into its RBAR and RLAR words. The start is
/// rounded down and the end rounded up to the granule, so that the protected
/// window always contains the requested one. An empty range gives a disabled
/// region.
pub fn encode_region(range: &Range<usize>, access: MemoryAccess) -> (w: RegionWords)
    requires
        valid_range(*range),
    ensures
        encodes(w, *range, access),
{
    let start = range.start as u64;
    let end = range.end as u64;
    let base32 = start as u32;
    let base = base32 & ADDRESS_MASK;
    proof {
        lemma_mask_is_align_down(base32);
    }
    let ap = if access.writeable {
        AP_READ_WRITE_PRIVILEGED
    } else {
        AP_READ_ONLY_PRIVILEGED
    };
    let xn: u32 = if access.executable {
        0
    } else {
        1
    };
    let (limit, en): (u32, u32) = if start < end {
        let up = if end % GRANULE == 0 {
            end
        } else {
            end - end % GRANULE + GRANULE
        };
        ((up - GRANULE) as u32, RLAR_EN)
    } else {
        (base, 0)
    };
    assert(limit & 31 == 0) by {
        if start < end {
            let l = limit;
            assert(l % 32 == 0);
            assert(l % 32 == 0 ==> l & 31 == 0) by (bit_vector);
        }
    }
    let rbar = base | ap | xn;
    let rlar = limit | (xn << 4u32) | en;
    proof {
        lemma_fields(base, limit, ap, xn, en);
    }
    RegionWords { rbar, rlar }
}

} // verus!
