use sigstep_a64::{CoreReg, ExecError, Gpr, MemoryInterface, MemoryOrdering, Nzcv, RegisterBank, VReg, VirtualRegs, NoopMem, AccessKind};

#[test]
fn test_write_core_w_zero_extension() {
    let mut regs = VirtualRegs::new();
    let gpr0 = Gpr::new(0).unwrap();
    let reg0 = CoreReg::Reg(gpr0);

    regs.write_x(gpr0, 0xFFFF_FFFF_FFFF_FFFF);
    assert_eq!(regs.read_x(gpr0), 0xFFFF_FFFF_FFFF_FFFF);

    regs.write_core_w(reg0, 0x1234_5678);
    assert_eq!(regs.read_x(gpr0), 0x0000_0000_1234_5678);
    assert_eq!(regs.read_core_w(reg0), 0x1234_5678);
    assert_eq!(regs.read_core_x(reg0), 0x0000_0000_1234_5678);
}

#[test]
fn test_zero_and_stack_pointer() {
    let mut regs = VirtualRegs::new();

    assert_eq!(regs.read_core_x(CoreReg::Zr), 0);
    assert_eq!(regs.read_core_w(CoreReg::Zr), 0);
    regs.write_core_x(CoreReg::Zr, 0xDEAD_BEEF);
    assert_eq!(regs.read_core_x(CoreReg::Zr), 0);
    regs.write_core_w(CoreReg::Zr, 0x1234_5678);
    assert_eq!(regs.read_core_x(CoreReg::Zr), 0);

    regs.write_core_x(CoreReg::Sp, 0x1000_0000_0000_0000);
    assert_eq!(regs.read_core_x(CoreReg::Sp), 0x1000_0000_0000_0000);
    assert_eq!(regs.read_sp(), 0x1000_0000_0000_0000);

    regs.write_core_w(CoreReg::Sp, 0x8000_0000);
    assert_eq!(regs.read_core_x(CoreReg::Sp), 0x0000_0000_8000_0000);
}

#[test]
fn test_advance_pc() {
    let mut regs = VirtualRegs::new();
    regs.set_pc(0x1000);
    regs.advance_pc(4);
    assert_eq!(regs.get_pc(), 0x1004);
    regs.advance_pc(-8);
    assert_eq!(regs.get_pc(), 0x0FFC);

    // Boundary cases for high bits / signed overflow protection
    regs.set_pc(0x8000_0000_0000_0000);
    regs.advance_pc(-4);
    assert_eq!(regs.get_pc(), 0x7FFF_FFFF_FFFF_FFFC);

    regs.set_pc(0xFFFF_FFFF_FFFF_FFFC);
    regs.advance_pc(4);
    assert_eq!(regs.get_pc(), 0x0000_0000_0000_0000);
}

#[test]
fn advance_pc_extremes() {
    let mut regs = VirtualRegs::new();
    regs.set_pc(0);
    regs.advance_pc(i64::MIN);
    assert_eq!(regs.get_pc(), 0x8000_0000_0000_0000);
    regs.advance_pc(i64::MAX);
    assert_eq!(regs.get_pc(), 0xFFFF_FFFF_FFFF_FFFF);
    regs.advance_pc(1);
    assert_eq!(regs.get_pc(), 0);
}

#[test]
fn flags_and_registers_are_independent() {
    let mut regs = VirtualRegs::new();
    let f = Nzcv { n: true, z: true, c: false, v: true };
    regs.set_flags(f);
    assert_eq!(regs.get_flags(), f);
    let x3 = Gpr::new(3).unwrap();
    let x4 = Gpr::new(4).unwrap();
    regs.write_x(x3, 33);
    regs.write_x(x4, 44);
    assert_eq!(regs.read_x(x3), 33);
    assert_eq!(regs.read_x(x4), 44);
    assert_eq!(regs.get_flags(), f);
    assert_eq!(regs.read_sp(), 0);
    assert_eq!(regs.get_pc(), 0);
    assert_eq!(regs.read_core_w(CoreReg::Reg(x3)), 33);
}

#[test]
fn default_simd_reports_unsupported() {
    let mut regs = VirtualRegs::new();
    let v0 = VReg::new(0).unwrap();
    assert_eq!(regs.read_v(v0), Err(ExecError::SimdNotSupported));
    assert_eq!(regs.write_v(v0, 7), Err(ExecError::SimdNotSupported));
    assert_eq!(regs, VirtualRegs::new());
}

#[test]
fn noop_mem_faults_everywhere() {
    let mut mem = NoopMem;
    let read = |a| ExecError::MemoryFault { address: a, kind: AccessKind::Read };
    let write = |a| ExecError::MemoryFault { address: a, kind: AccessKind::Write };
    assert_eq!(mem.read_u8(1), Err(read(1)));
    assert_eq!(mem.read_u16(2), Err(read(2)));
    assert_eq!(mem.read_u32(3), Err(read(3)));
    assert_eq!(mem.read_u64(4), Err(read(4)));
    assert_eq!(mem.read_u128(5), Err(read(5)));
    assert_eq!(mem.write_u8(6, 0), Err(write(6)));
    assert_eq!(mem.write_u16(7, 0), Err(write(7)));
    assert_eq!(mem.write_u32(8, 0), Err(write(8)));
    assert_eq!(mem.write_u64(9, 0), Err(write(9)));
    assert_eq!(mem.write_u128(10, 0), Err(write(10)));
}

#[test]
fn default_atomics_and_monitor() {
    let mut mem = NoopMem;
    assert_eq!(mem.atomic_cas_u32(0, 1, 2, MemoryOrdering::SeqCst), Err(ExecError::AtomicNotSupported));
    assert_eq!(mem.atomic_cas_u64(0, 1, 2, MemoryOrdering::Acquire), Err(ExecError::AtomicNotSupported));
    assert_eq!(mem.atomic_swap_u64(0, 1, MemoryOrdering::Release), Err(ExecError::AtomicNotSupported));
    assert_eq!(mem.atomic_fetch_add_u64(0, 1, MemoryOrdering::Relaxed), Err(ExecError::AtomicNotSupported));
    assert_eq!(mem.mark_exclusive(0, 8), Ok(()));
    assert_eq!(mem.try_store_exclusive_u32(0, 1), Err(ExecError::ExclusiveMonitorNotSupported));
    assert_eq!(mem.try_store_exclusive_u64(0, 1), Err(ExecError::ExclusiveMonitorNotSupported));
    mem.clear_exclusive();
    assert_eq!(mem, NoopMem);
}
