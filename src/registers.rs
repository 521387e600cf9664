//! The MPU and system-control registers that the backend owns, held as a
//! register file, together with the rule by which the hardware decides an
//! access from them.

use crate::codec::{
    region_end, region_executable, region_start, region_writable, rlar_en, RegionWords,
    ADDRESS_MASK,
};
use vstd::prelude::*;

verus! {

/// Number of programmable regions.
pub const N_REGIONS: usize = 8;

/// MPU_CTRL: the MPU is active.
pub const CTRL_ENABLE: u32 = 0b1;

/// MPU_CTRL: the MPU stays active in HardFault and NMI handlers.
pub const CTRL_HFNMIENA: u32 = 0b10;

/// MPU_CTRL: privileged code may use the default memory map where no region
/// matches.
pub const CTRL_PRIVDEFENA: u32 = 0b100;

/// SHCSR: the MemManage exception is enabled.
pub const SHCSR_MEMFAULTENA: u32 = 0x1_0000;

/// The registers of the MPU, and the fields of the system control block that
/// the backend sets, as the hardware holds them.
#[derive(Clone, Copy, Debug)]
pub struct RegisterFile {
    /// MPU_CTRL.
    pub ctrl: u32,
    /// MPU_RNR: the region that the last region write selected.
    pub rnr: u32,
    /// MPU_MAIR0: memory attributes, of which the regions use index 0.
    pub mair0: u32,
    /// MPU_RBAR of each region.
    pub rbar: [u32; 8],
    /// MPU_RLAR of each region.
    pub rlar: [u32; 8],
    /// SCB_SHCSR.
    pub shcsr: u32,
    /// Priority of the MemManage exception (lower is more urgent).
    pub mem_manage_priority: u8,
}

/// One serialized update of the MPU.
#[derive(Clone, Copy, Debug)]
pub enum RegisterWrite {
    /// Write MPU_CTRL.
    Control(u32),
    /// Write MAIR0, select the slot, then write its RBAR and its RLAR.
    Region { slot: usize, attribute: u32, words: RegionWords },
}

/// A kind of memory access.
#[derive(Clone, Copy, Debug, PartialEq, Eq, Structural)]
pub enum AccessKind {
    Read,
    Write,
    Execute,
}

/// Why the MPU raised a MemManage fault.
#[derive(Clone, Copy, Debug, PartialEq, Eq, Structural)]
pub enum AccessFault {
    /// No enabled region covers the address and no background map applies.
    Unmapped,
    /// The region in this slot governs the address and forbids the access.
    Denied { slot: usize },
}

pub open spec fn write_ok(w: RegisterWrite) -> bool {
    match w {
        RegisterWrite::Control(_) => true,
        RegisterWrite::Region { slot, .. } => slot < N_REGIONS,
    }
}

/// The register file with MPU_CTRL replaced.
pub open spec fn with_control(pre: RegisterFile, v: u32) -> RegisterFile {
    RegisterFile { ctrl: v, ..pre }
}

/// `post` is `pre` with one region written: MAIR0, RNR, and the slot's RBAR
/// and RLAR change, nothing else.
pub open spec fn with_region(
    pre: RegisterFile,
    post: RegisterFile,
    slot: int,
    attribute: u32,
    words: RegionWords,
) -> bool {
    &&& post.ctrl == pre.ctrl
    &&& post.shcsr == pre.shcsr
    &&& post.mem_manage_priority == pre.mem_manage_priority
    &&& post.mair0 == attribute
    &&& post.rnr == slot
    &&& post.rbar@ == pre.rbar@.update(slot, words.rbar)
    &&& post.rlar@ == pre.rlar@.update(slot, words.rlar)
}

pub open spec fn applied(pre: RegisterFile, post: RegisterFile, w: RegisterWrite) -> bool {
    match w {
        RegisterWrite::Control(v) => post == with_control(pre, v),
        RegisterWrite::Region { slot, attribute, words } => with_region(
            pre,
            post,
            slot as int,
            attribute,
            words,
        ),
    }
}

pub open spec fn mpu_enabled(r: RegisterFile) -> bool {
    r.ctrl & CTRL_ENABLE != 0
}

pub open spec fn background_enabled(r: RegisterFile) -> bool {
    r.ctrl & CTRL_PRIVDEFENA != 0
}

pub open spec fn covers(rbar: u32, rlar: u32, addr: int) -> bool {
    rlar_en(rlar) && region_start(rbar) <= addr < region_end(rlar)
}

pub open spec fn permits(rbar: u32, rlar: u32, kind: AccessKind) -> bool {
    match kind {
        AccessKind::Read => true,
        AccessKind::Write => region_writable(rbar),
        AccessKind::Execute => region_executable(rbar, rlar),
    }
}

/// The highest of the first `n` slots whose enabled region covers `addr`.
pub open spec fn highest_covering(rbar: Seq<u32>, rlar: Seq<u32>, n: int, addr: int) -> Option<
    int,
>
    decreases n,
{
    if n <= 0 {
        None
    } else if covers(rbar[n - 1], rlar[n - 1], addr) {
        Some(n - 1)
    } else {
        highest_covering(rbar, rlar, n - 1, addr)
    }
}

/// Where enabled regions overlap, the one in the higher slot governs.
pub open spec fn governing_slot(r: RegisterFile, addr: int) -> Option<int> {
    highest_covering(r.rbar@, r.rlar@, N_REGIONS as int, addr)
}

/// What the hardware does with a privileged access to `addr`.
pub open spec fn access_outcome(r: RegisterFile, addr: int, kind: AccessKind) -> Result<
    (),
    AccessFault,
> {
    if !mpu_enabled(r) {
        Ok(())
    } else {
        match governing_slot(r, addr) {
            None => if background_enabled(r) {
                Ok(())
            } else {
                Err(AccessFault::Unmapped)
            },
            Some(s) => if permits(r.rbar@[s], r.rlar@[s], kind) {
                Ok(())
            } else {
                Err(AccessFault::Denied { slot: s as usize })
            },
        }
    }
}

pub proof fn lemma_highest_covering_bounds(rbar: Seq<u32>, rlar: Seq<u32>, n: int, addr: int)
    ensures
        highest_covering(rbar, rlar, n, addr) matches Some(s) ==> 0 <= s < n && covers(
            rbar[s],
            rlar[s],
            addr,
        ),
        highest_covering(rbar, rlar, n, addr) matches Some(s) ==> forall|j: int|
            s < j < n ==> !covers(rbar[j], rlar[j], addr),
        highest_covering(rbar, rlar, n, addr) is None ==> forall|j: int|
            0 <= j < n ==> !covers(rbar[j], rlar[j], addr),
    decreases n,
{
    if n > 0 {
        lemma_highest_covering_bounds(rbar, rlar, n - 1, addr);
    }
}

/// A slot that covers `addr`, with none above it that does, is the highest
/// covering one.
pub proof fn lemma_highest_covering_is(rbar: Seq<u32>, rlar: Seq<u32>, n: int, addr: int, s: int)
    requires
        0 <= s < n,
        covers(rbar[s], rlar[s], addr),
        forall|j: int| s < j < n ==> !covers(rbar[j], rlar[j], addr),
    ensures
        highest_covering(rbar, rlar, n, addr) == Some(s),
    decreases n,
{
    if n - 1 > s {
        lemma_highest_covering_is(rbar, rlar, n - 1, addr, s);
    }
}

/// Relies on critical_section::with: it runs the closure exactly once, with
/// interrupts masked (nesting allowed), and hands back the closure's result.
#[verifier::external_body]
fn write_serialized(regs: &mut RegisterFile, w: RegisterWrite)
    requires
        write_ok(w),
    ensures
        applied(*old(regs), *final(regs), w),
{
    critical_section::with(|_| regs.apply(w))
}

impl RegisterFile {
    /// Every register zero: every region disabled, the MPU off.
    pub open spec fn is_reset(self) -> bool {
        &&& self.ctrl == 0
        &&& self.rnr == 0
        &&& self.mair0 == 0
        &&& forall|i: int| 0 <= i < N_REGIONS ==> self.rbar@[i] == 0 && self.rlar@[i] == 0
        &&& self.shcsr == 0
        &&& self.mem_manage_priority == 0
    }

    /// The registers as they come out of reset.
    pub fn reset() -> (r: RegisterFile)
        ensures
            r.is_reset(),
    {
        RegisterFile {
            ctrl: 0,
            rnr: 0,
            mair0: 0,
            rbar: [0u32; 8],
            rlar: [0u32; 8],
            shcsr: 0,
            mem_manage_priority: 0,
        }
    }

    /// Performs one register update.
    pub fn apply(&mut self, w: RegisterWrite)
        requires
            write_ok(w),
        ensures
            applied(*old(self), *final(self), w),
    {
        match w {
            RegisterWrite::Control(v) => {
                self.ctrl = v;
            },
            RegisterWrite::Region { slot, attribute, words } => {
                self.mair0 = attribute;
                self.rnr = slot as u32;
                self.rbar[slot] = words.rbar;
                self.rlar[slot] = words.rlar;
            },
        }
    }

    /// Performs one register update inside a critical section, so that no
    /// interrupt observes a region half written.
    pub fn write(&mut self, w: RegisterWrite)
        requires
            write_ok(w),
        ensures
            applied(*old(self), *final(self), w),
    {
        write_serialized(self, w);
    }

    /// Decides a privileged access as the hardware would: allowed while the
    /// MPU is off; otherwise governed by the highest enabled region that
    /// covers the address, or refused where none does and the background map
    /// is off.
    pub fn check_access(&self, addr: u32, kind: AccessKind) -> (r: Result<(), AccessFault>)
        ensures
            r == access_outcome(*self, addr as int, kind),
    {
        if self.ctrl & CTRL_ENABLE == 0 {
            return Ok(());
        }
        let mut i: usize = N_REGIONS;
        while i > 0
            invariant
                i <= N_REGIONS,
                mpu_enabled(*self),
                highest_covering(self.rbar@, self.rlar@, i as int, addr as int) == governing_slot(
                    *self,
                    addr as int,
                ),
            decreases i,
        {
            let s = i - 1;
            let rbar = self.rbar[s];
            let rlar = self.rlar[s];
            let start = (rbar & ADDRESS_MASK) as u64;
            let end = (rlar & ADDRESS_MASK) as u64 + 32;
            if rlar & 1 == 1 && start <= addr as u64 && (addr as u64) < end {
                let allowed = match kind {
                    AccessKind::Read => true,
                    AccessKind::Write => (rbar >> 1u32) & 3 < 2,
                    AccessKind::Execute => rbar & 1 != 1 && (rlar >> 4u32) & 1 != 1,
                };
                if allowed {
                    return Ok(());
                } else {
                    return Err(AccessFault::Denied { slot: s });
                }
            }
            i = s;
        }
        if self.ctrl & CTRL_PRIVDEFENA != 0 {
            Ok(())
        } else {
            Err(AccessFault::Unmapped)
        }
    }
}

} // verus!
