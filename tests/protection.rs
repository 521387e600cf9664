use ariel_os_mpu::arch::{ConfigError, Cpu, Mpu};
use ariel_os_mpu::codec::{encode_region, MemoryAccess, RegionWords};
use ariel_os_mpu::policy::{
    access_for, slot_for, MemoryLayout, MpuRegionUsage, MAIR_NON_CACHEABLE, MEM_MANAGE_PRIORITY,
};
use ariel_os_mpu::registers::{
    AccessFault, AccessKind, RegisterFile, RegisterWrite, CTRL_ENABLE, CTRL_HFNMIENA,
    CTRL_PRIVDEFENA, SHCSR_MEMFAULTENA,
};
use ariel_os_mpu::{context_switch, init_mpu};

const RW: MemoryAccess =
    MemoryAccess { readable: true, writeable: true, executable: false, cacheable: false };
const RX: MemoryAccess =
    MemoryAccess { readable: true, writeable: false, executable: true, cacheable: false };
const RO: MemoryAccess =
    MemoryAccess { readable: true, writeable: false, executable: false, cacheable: false };

fn booted() -> Cpu {
    let mut cpu = Cpu::new(MemoryLayout::board());
    init_mpu(&mut cpu);
    cpu
}

#[test]
fn encode_aligned_range_round_trips() {
    let w = encode_region(&(0x2000_1000..0x2000_1400), RW);
    assert_eq!(w, RegionWords { rbar: 0x2000_1001, rlar: 0x2000_13F1 });
    let w = encode_region(&(0x0800_0000..0x0808_0000), RX);
    assert_eq!(w, RegionWords { rbar: 0x0800_0004, rlar: 0x0807_FFE1 });
}

#[test]
fn encode_rounds_start_down_and_end_up() {
    // [0x1005, 0x1021) must be protected by [0x1000, 0x1040).
    let w = encode_region(&(0x1005..0x1021), RO);
    assert_eq!(w.rbar & 0xFFFF_FFE0, 0x1000);
    assert_eq!((w.rlar & 0xFFFF_FFE0) + 32, 0x1040);
    assert_eq!(w.rbar & 0b110, 0b100);
    assert_eq!(w.rbar & 1, 1);
    assert_eq!(w.rlar & 0x10, 0x10);
    assert_eq!(w.rlar & 1, 1);
}

#[test]
fn encode_end_of_address_space() {
    let w = encode_region(&(0xFFFF_FFC0..0x1_0000_0000), RW);
    assert_eq!(w.rbar & 0xFFFF_FFE0, 0xFFFF_FFC0);
    assert_eq!(w.rlar & 0xFFFF_FFE0, 0xFFFF_FFE0);
    let w = encode_region(&(0xFFFF_FFC0..0xFFFF_FFF1), RW);
    assert_eq!(w.rlar & 0xFFFF_FFE0, 0xFFFF_FFE0);
}

#[test]
fn encode_empty_range_is_disabled() {
    let w = encode_region(&(0x3000..0x3000), RW);
    assert_eq!(w.rlar & 1, 0);
}

#[test]
fn encode_ignores_cacheable_and_sets_attribute_zero() {
    let cached = MemoryAccess { cacheable: true, ..RW };
    assert_eq!(encode_region(&(0x100..0x200), cached), encode_region(&(0x100..0x200), RW));
    assert_eq!((encode_region(&(0x100..0x200), RW).rlar >> 1) & 7, 0);
}

#[test]
fn init_scenario_board_layout() {
    let cpu = booted();
    let r = cpu.registers();
    assert_eq!(r.ctrl & CTRL_ENABLE, CTRL_ENABLE);
    assert_eq!(r.ctrl & CTRL_PRIVDEFENA, 0);
    assert_eq!(r.ctrl & CTRL_HFNMIENA, 0);
    // Flash: read-only, executable.
    assert_eq!(r.rbar[7], 0x0800_0004);
    assert_eq!(r.rlar[7], 0x0807_FFE1);
    // Kernel RAM: read-write, never executable.
    assert_eq!(r.rbar[6], 0x2000_0001);
    assert_eq!(r.rlar[6], 0x2003_FFF1);
    assert_eq!(r.shcsr & SHCSR_MEMFAULTENA, SHCSR_MEMFAULTENA);
    assert_eq!(r.mem_manage_priority, MEM_MANAGE_PRIORITY);
    assert_eq!(r.mair0, MAIR_NON_CACHEABLE);
    for slot in 0..6 {
        assert_eq!(r.rlar[slot] & 1, 0);
    }
}

#[test]
fn init_flash_is_executable_not_writeable() {
    let cpu = booted();
    let r = cpu.registers();
    assert_eq!(r.check_access(0x0800_0100, AccessKind::Execute), Ok(()));
    assert_eq!(r.check_access(0x0800_0100, AccessKind::Read), Ok(()));
    assert_eq!(r.check_access(0x0800_0100, AccessKind::Write), Err(AccessFault::Denied { slot: 7 }));
    assert_eq!(r.check_access(0x2000_0100, AccessKind::Write), Ok(()));
    assert_eq!(r.check_access(0x2000_0100, AccessKind::Execute), Err(AccessFault::Denied { slot: 6 }));
}

#[test]
fn context_switch_scenario_two_threads() {
    let mut cpu = booted();
    assert_eq!(context_switch(&mut cpu, 0x2000_1000..0x2000_1400), Ok(()));
    assert_eq!(cpu.registers().rbar[5], 0x2000_1001);
    assert_eq!(cpu.registers().rlar[5], 0x2000_13F1);
    assert_eq!(context_switch(&mut cpu, 0x2000_2000..0x2000_2200), Ok(()));
    let r = cpu.registers();
    assert_eq!(r.rbar[5], 0x2000_2001);
    assert_eq!(r.rlar[5], 0x2000_21F1);
    assert_eq!(r.rnr, 5);
    for slot in 0..5 {
        assert_eq!(r.rlar[slot] & 1, 0);
    }
}

#[test]
fn context_switch_keeps_other_slots() {
    let mut cpu = booted();
    let before = *cpu.registers();
    context_switch(&mut cpu, 0x2000_1000..0x2000_1400).unwrap();
    context_switch(&mut cpu, 0x2000_2000..0x2000_2200).unwrap();
    let after = *cpu.registers();
    for slot in 0..8 {
        if slot != 5 {
            assert_eq!(after.rbar[slot], before.rbar[slot]);
            assert_eq!(after.rlar[slot], before.rlar[slot]);
        }
    }
    assert_eq!(after.ctrl, before.ctrl);
}

#[test]
fn context_switch_rejects_reversed_range() {
    let mut cpu = booted();
    let before = *cpu.registers();
    assert_eq!(context_switch(&mut cpu, 0x2000_2000..0x2000_1000), Err(ConfigError::InvalidRange));
    assert_eq!(cpu.registers().rbar, before.rbar);
    assert_eq!(cpu.registers().rlar, before.rlar);
}

#[test]
fn configure_region_rejects_range_outside_address_space() {
    let mut cpu = booted();
    let before = *cpu.registers();
    assert_eq!(cpu.configure_region(0x1000..0x1_0000_0001, 3, RW), Err(ConfigError::InvalidRange));
    assert_eq!(cpu.configure_region(0x1_0000_0000..0x1_0000_0000, 3, RW), Err(ConfigError::InvalidRange));
    assert_eq!(cpu.registers().rbar, before.rbar);
    assert_eq!(cpu.registers().rlar, before.rlar);
}

#[test]
fn unmapped_access_faults() {
    let cpu = booted();
    let r = cpu.registers();
    for kind in [AccessKind::Read, AccessKind::Write, AccessKind::Execute] {
        assert_eq!(r.check_access(0x4000_0000, kind), Err(AccessFault::Unmapped));
        assert_eq!(r.check_access(0x2004_0000, kind), Err(AccessFault::Unmapped));
    }
}

#[test]
fn higher_slot_wins_overlap() {
    let mut cpu = booted();
    cpu.configure_region(0x1000_0000..0x1000_2000, 2, RW).unwrap();
    cpu.configure_region(0x1000_1000..0x1000_3000, 3, RO).unwrap();
    let r = cpu.registers();
    assert_eq!(r.check_access(0x1000_1800, AccessKind::Write), Err(AccessFault::Denied { slot: 3 }));
    assert_eq!(r.check_access(0x1000_1800, AccessKind::Read), Ok(()));
    assert_eq!(r.check_access(0x1000_0800, AccessKind::Write), Ok(()));
    // Programming the lower slot last changes nothing in the overlap.
    let mut cpu = booted();
    cpu.configure_region(0x1000_1000..0x1000_3000, 3, RO).unwrap();
    cpu.configure_region(0x1000_0000..0x1000_2000, 2, RW).unwrap();
    assert_eq!(
        cpu.registers().check_access(0x1000_1800, AccessKind::Write),
        Err(AccessFault::Denied { slot: 3 })
    );
    // And the other way round: the writeable region in the higher slot.
    let mut cpu = booted();
    cpu.configure_region(0x1000_1000..0x1000_3000, 2, RO).unwrap();
    cpu.configure_region(0x1000_0000..0x1000_2000, 3, RW).unwrap();
    assert_eq!(cpu.registers().check_access(0x1000_1800, AccessKind::Write), Ok(()));
}

#[test]
fn disable_allows_everything_enable_restores() {
    let mut cpu = booted();
    cpu.disable();
    assert_eq!(cpu.registers().ctrl, 0);
    for kind in [AccessKind::Read, AccessKind::Write, AccessKind::Execute] {
        assert_eq!(cpu.registers().check_access(0x4000_0000, kind), Ok(()));
        assert_eq!(cpu.registers().check_access(0x0800_0000, kind), Ok(()));
    }
    cpu.enable();
    assert_eq!(cpu.registers().ctrl, CTRL_ENABLE);
    assert_eq!(cpu.registers().check_access(0x4000_0000, AccessKind::Read), Err(AccessFault::Unmapped));
    assert_eq!(
        cpu.registers().check_access(0x0800_0000, AccessKind::Write),
        Err(AccessFault::Denied { slot: 7 })
    );
}

#[test]
fn reset_registers_allow_everything() {
    let r = RegisterFile::reset();
    assert_eq!(r.check_access(0x1234_5678, AccessKind::Execute), Ok(()));
}

#[test]
fn serialized_region_write_lands() {
    let mut r = RegisterFile::reset();
    let words = RegionWords { rbar: 0x1001, rlar: 0x1FF1 };
    r.write(RegisterWrite::Region { slot: 3, attribute: 0x44, words });
    assert_eq!(r.rbar[3], 0x1001);
    assert_eq!(r.rlar[3], 0x1FF1);
    assert_eq!(r.rnr, 3);
    assert_eq!(r.mair0, 0x44);
    r.write(RegisterWrite::Control(CTRL_ENABLE));
    assert_eq!(r.ctrl, CTRL_ENABLE);
}

#[test]
fn custom_memory_attribute_is_used() {
    let mut cpu = Cpu::with_memory_attribute(MemoryLayout::board(), 0xFF);
    init_mpu(&mut cpu);
    assert_eq!(cpu.registers().mair0, 0xFF);
}

#[test]
fn custom_layout() {
    let layout = MemoryLayout::new(0x0..0x1_0000, 0x2000_0000..0x2000_8000).unwrap();
    let mut cpu = Cpu::new(layout);
    init_mpu(&mut cpu);
    assert_eq!(cpu.registers().rbar[7], 0x0000_0004);
    assert_eq!(cpu.registers().rlar[7], 0x0000_FFE1);
    assert!(MemoryLayout::new(0x10..0x0, 0x0..0x10).is_none());
    assert!(MemoryLayout::new(0x0..0x10, 0x0..0x1_0000_0001).is_none());
}

#[test]
fn policy_slots_and_access() {
    assert_eq!(slot_for(MpuRegionUsage::Flash), 7);
    assert_eq!(slot_for(MpuRegionUsage::OsStack), 6);
    assert_eq!(slot_for(MpuRegionUsage::ThreadStack), 5);
    assert_eq!(slot_for(MpuRegionUsage::Peripherals), 4);
    let flash = access_for(MpuRegionUsage::Flash);
    assert!(flash.executable && !flash.writeable);
    assert_eq!(access_for(MpuRegionUsage::ThreadStack), RW);
}
