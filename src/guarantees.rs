//! What the protection layer guarantees, stated over the register model and
//! proved from the contracts of the operations.

use crate::arch::region_configured;
use crate::codec::{
    align_down, align_up, rbar_ap, rbar_xn, region_end, region_executable, region_start,
    region_writable, rlar_en, rlar_pxn, valid_range, MemoryAccess, GRANULE,
};
use crate::policy::{slot_of, MpuRegionUsage};
use crate::registers::{
    access_outcome, covers, governing_slot, lemma_highest_covering_bounds,
    lemma_highest_covering_is, with_control,
    AccessFault, AccessKind, RegisterFile, CTRL_ENABLE, CTRL_PRIVDEFENA, N_REGIONS,
};
use core::ops::Range;
use vstd::prelude::*;

verus! {

/// Whether `access` allows an access of this kind.
pub open spec fn allows(access: MemoryAccess, kind: AccessKind) -> bool {
    match kind {
        AccessKind::Read => true,
        AccessKind::Write => access.writeable,
        AccessKind::Execute => access.executable,
    }
}

proof fn lemma_control_bits()
    ensures
        CTRL_ENABLE & 1u32 != 0,
        CTRL_ENABLE & CTRL_PRIVDEFENA == 0,
        0u32 & 1u32 == 0,
{
    assert(1u32 & 1u32 != 0) by (bit_vector);
    assert(1u32 & 4u32 == 0) by (bit_vector);
    assert(0u32 & 1u32 == 0) by (bit_vector);
}

/// A configured region decodes to the requested range rounded outwards to
/// the granule, so it covers every byte of the request (an empty request
/// leaves the region disabled), and to exactly the requested write and
/// execute rights.
pub proof fn lemma_configured_region_decodes(
    pre: RegisterFile,
    post: RegisterFile,
    slot: int,
    range: Range<usize>,
    access: MemoryAccess,
    attribute: u32,
)
    requires
        0 <= slot < N_REGIONS,
        valid_range(range),
        region_configured(pre, post, slot, range, access, attribute),
    ensures
        range.start < range.end ==> {
            &&& rlar_en(post.rlar@[slot])
            &&& region_start(post.rbar@[slot]) == align_down(range.start as int)
            &&& region_end(post.rlar@[slot]) == align_up(range.end as int)
            &&& region_start(post.rbar@[slot]) % (GRANULE as int) == 0
            &&& region_end(post.rlar@[slot]) % (GRANULE as int) == 0
            &&& region_start(post.rbar@[slot]) <= range.start
            &&& range.end <= region_end(post.rlar@[slot])
        },
        range.start == range.end ==> !rlar_en(post.rlar@[slot]),
        rbar_xn(post.rbar@[slot]) == !access.executable,
        rlar_pxn(post.rlar@[slot]) == !access.executable,
        rbar_ap(post.rbar@[slot]) == (if access.writeable {
            0u32
        } else {
            2u32
        }),
        forall|a: int|
            range.start <= a < range.end ==> covers(post.rbar@[slot], post.rlar@[slot], a),
        region_writable(post.rbar@[slot]) == access.writeable,
        region_executable(post.rbar@[slot], post.rlar@[slot]) == access.executable,
{
}

/// With the MPU enabled and no enabled region covering an address, every
/// access to it faults: there is no background map.
pub proof fn lemma_fail_closed(r: RegisterFile, addr: int, kind: AccessKind)
    requires
        r.ctrl == CTRL_ENABLE,
        forall|s: int| 0 <= s < N_REGIONS ==> !covers(r.rbar@[s], r.rlar@[s], addr),
    ensures
        access_outcome(r, addr, kind) == Err::<(), AccessFault>(AccessFault::Unmapped),
{
    lemma_control_bits();
    lemma_highest_covering_bounds(r.rbar@, r.rlar@, N_REGIONS as int, addr);
}

/// Moving the thread stack guard changes its own slot alone: every other
/// slot, the kernel's flash and stack among them, keeps its words bit for
/// bit, and the MPU stays as enabled as it was.
pub proof fn lemma_switch_touches_guard_only(
    pre: RegisterFile,
    post: RegisterFile,
    stack: Range<usize>,
    access: MemoryAccess,
    attribute: u32,
)
    requires
        region_configured(
            pre,
            post,
            slot_of(MpuRegionUsage::ThreadStack),
            stack,
            access,
            attribute,
        ),
    ensures
        post.ctrl == pre.ctrl,
        forall|i: int|
            0 <= i < N_REGIONS && i != slot_of(MpuRegionUsage::ThreadStack) ==> post.rbar@[i]
                == pre.rbar@[i] && post.rlar@[i] == pre.rlar@[i],
        post.rbar@[slot_of(MpuRegionUsage::Flash)] == pre.rbar@[slot_of(MpuRegionUsage::Flash)],
        post.rlar@[slot_of(MpuRegionUsage::Flash)] == pre.rlar@[slot_of(MpuRegionUsage::Flash)],
        post.rbar@[slot_of(MpuRegionUsage::OsStack)] == pre.rbar@[slot_of(
            MpuRegionUsage::OsStack,
        )],
        post.rlar@[slot_of(MpuRegionUsage::OsStack)] == pre.rlar@[slot_of(
            MpuRegionUsage::OsStack,
        )],
{
}

/// Where two configured regions overlap, the one in the higher slot decides
/// every access to the overlap (unless a region higher still covers it).
pub proof fn lemma_higher_slot_governs(
    r0: RegisterFile,
    r1: RegisterFile,
    r2: RegisterFile,
    low: int,
    low_range: Range<usize>,
    low_access: MemoryAccess,
    high: int,
    high_range: Range<usize>,
    high_access: MemoryAccess,
    attribute: u32,
    addr: int,
    kind: AccessKind,
)
    requires
        0 <= low < high < N_REGIONS,
        valid_range(low_range),
        valid_range(high_range),
        region_configured(r0, r1, low, low_range, low_access, attribute),
        region_configured(r1, r2, high, high_range, high_access, attribute),
        low_range.start <= addr < low_range.end,
        high_range.start <= addr < high_range.end,
        r2.ctrl == CTRL_ENABLE,
        forall|j: int| high < j < N_REGIONS ==> !covers(r2.rbar@[j], r2.rlar@[j], addr),
    ensures
        covers(r2.rbar@[low], r2.rlar@[low], addr),
        governing_slot(r2, addr) == Some(high),
        access_outcome(r2, addr, kind) == (if allows(high_access, kind) {
            Ok(())
        } else {
            Err(AccessFault::Denied { slot: high as usize })
        }),
{
    lemma_control_bits();
    lemma_configured_region_decodes(r0, r1, low, low_range, low_access, attribute);
    lemma_configured_region_decodes(r1, r2, high, high_range, high_access, attribute);
    assert(r2.rbar@[low] == r1.rbar@[low] && r2.rlar@[low] == r1.rlar@[low]);
    lemma_highest_covering_is(r2.rbar@, r2.rlar@, N_REGIONS as int, addr, high);
}

/// The same holds when the lower slot is programmed after the higher one:
/// configuring a lower slot never overrides a higher slot in the overlap, so
/// the order of configuration does not matter.
pub proof fn lemma_lower_slot_never_overrides(
    r0: RegisterFile,
    r1: RegisterFile,
    r2: RegisterFile,
    low: int,
    low_range: Range<usize>,
    low_access: MemoryAccess,
    high: int,
    high_range: Range<usize>,
    high_access: MemoryAccess,
    attribute: u32,
    addr: int,
    kind: AccessKind,
)
    requires
        0 <= low < high < N_REGIONS,
        valid_range(low_range),
        valid_range(high_range),
        region_configured(r0, r1, high, high_range, high_access, attribute),
        region_configured(r1, r2, low, low_range, low_access, attribute),
        low_range.start <= addr < low_range.end,
        high_range.start <= addr < high_range.end,
        r2.ctrl == CTRL_ENABLE,
        forall|j: int| high < j < N_REGIONS ==> !covers(r2.rbar@[j], r2.rlar@[j], addr),
    ensures
        covers(r2.rbar@[low], r2.rlar@[low], addr),
        governing_slot(r2, addr) == Some(high),
        access_outcome(r2, addr, kind) == access_outcome(r1, addr, kind),
        access_outcome(r2, addr, kind) == (if allows(high_access, kind) {
            Ok(())
        } else {
            Err(AccessFault::Denied { slot: high as usize })
        }),
{
    lemma_control_bits();
    lemma_configured_region_decodes(r0, r1, high, high_range, high_access, attribute);
    lemma_configured_region_decodes(r1, r2, low, low_range, low_access, attribute);
    assert(r2.rbar@[high] == r1.rbar@[high] && r2.rlar@[high] == r1.rlar@[high]);
    assert forall|j: int| high < j < N_REGIONS implies !covers(r1.rbar@[j], r1.rlar@[j], addr) by {
        assert(r2.rbar@[j] == r1.rbar@[j] && r2.rlar@[j] == r1.rlar@[j]);
    }
    lemma_highest_covering_is(r1.rbar@, r1.rlar@, N_REGIONS as int, addr, high);
    lemma_highest_covering_is(r2.rbar@, r2.rlar@, N_REGIONS as int, addr, high);
}

/// While the MPU is off every access succeeds, whatever the regions say;
/// enabling it again brings back exactly the outcomes of before.
pub proof fn lemma_disable_enable(r0: RegisterFile, addr: int, kind: AccessKind)
    requires
        r0.ctrl == CTRL_ENABLE,
    ensures
        access_outcome(with_control(r0, 0), addr, kind) == Ok::<(), AccessFault>(()),
        access_outcome(with_control(with_control(r0, 0), CTRL_ENABLE), addr, kind)
            == access_outcome(r0, addr, kind),
{
    lemma_control_bits();
    assert(with_control(with_control(r0, 0), CTRL_ENABLE) == r0);
}

} // verus!
