//! Interfaces for register access, memory operations, and async-signal safety.
use vstd::prelude::*;
use crate::base::error::{ExecError, MemoryOrdering};
use crate::base::reg::{CoreReg, Gpr, Nzcv, VReg};

verus! {

/// `pc` moved by `offset` bytes, wrapping modulo 2^64.
pub open spec fn pc_plus(pc: u64, offset: int) -> u64 {
    ((pc as int + offset) % 0x1_0000_0000_0000_0000) as u64
}

/// The architectural state a register bank holds: X0–X30, SP, PC and NZCV.
pub struct ArchState {
    /// General-purpose registers X0–X30, by number.
    pub x: Seq<u64>,
    /// Stack pointer.
    pub sp: u64,
    /// Program counter.
    pub pc: u64,
    /// Condition flags.
    pub flags: Nzcv,
}

impl ArchState {
    /// Holds exactly the 31 general-purpose registers.
    pub open spec fn wf(self) -> bool {
        self.x.len() == 31
    }

    /// Value of a general-purpose register.
    pub open spec fn gpr(self, reg: Gpr) -> u64 {
        self.x[reg.spec_index() as int]
    }

    /// The state with `reg` set to `val`.
    pub open spec fn with_gpr(self, reg: Gpr, val: u64) -> ArchState {
        ArchState { x: self.x.update(reg.spec_index() as int, val), ..self }
    }

    /// The state with SP set to `val`.
    pub open spec fn with_sp(self, val: u64) -> ArchState {
        ArchState { sp: val, ..self }
    }

    /// The state with PC set to `val`.
    pub open spec fn with_pc(self, val: u64) -> ArchState {
        ArchState { pc: val, ..self }
    }

    /// The state with the flags set to `flags`.
    pub open spec fn with_flags(self, flags: Nzcv) -> ArchState {
        ArchState { flags, ..self }
    }

    /// 64-bit value of a decoded operand: the register, 0 for XZR, or SP.
    pub open spec fn core_x(self, reg: CoreReg) -> u64 {
        match reg {
            CoreReg::Reg(r) => self.gpr(r),
            CoreReg::Zr => 0,
            CoreReg::Sp => self.sp,
        }
    }

    /// The state after writing `val` to a decoded operand (discarded for XZR).
    pub open spec fn with_core_x(self, reg: CoreReg, val: u64) -> ArchState {
        match reg {
            CoreReg::Reg(r) => self.with_gpr(r, val),
            CoreReg::Zr => self,
            CoreReg::Sp => self.with_sp(val),
        }
    }
}

/// Reading a general-purpose register gives back what was last written to it,
/// and writing one register leaves every other register, SP, PC and the flags alone.
pub proof fn lemma_gpr_read_after_write(s: ArchState, reg: Gpr, other: Gpr, val: u64)
    requires
        s.wf(),
        reg.spec_index() <= 30,
        other.spec_index() <= 30,
    ensures
        s.with_gpr(reg, val).wf(),
        s.with_gpr(reg, val).gpr(reg) == val,
        other != reg ==> s.with_gpr(reg, val).gpr(other) == s.gpr(other),
        s.with_gpr(reg, val).sp == s.sp,
        s.with_gpr(reg, val).pc == s.pc,
        s.with_gpr(reg, val).flags == s.flags,
{
    Gpr::lemma_index(reg, 0);
    Gpr::lemma_index(other, 0);
    if other != reg {
        assert(other.spec_index() != reg.spec_index());
    }
}

/// The zero register reads as 0 and ignores writes; any other operand reads back
/// the value written, and a 32-bit write reads back zero-extended, its low 32 bits
/// being the value written.
pub proof fn lemma_core_write_then_read(s: ArchState, reg: CoreReg, val: u64, wval: u32)
    requires
        s.wf(),
        reg matches CoreReg::Reg(g) ==> g.spec_index() <= 30,
    ensures
        s.core_x(CoreReg::Zr) == 0,
        s.with_core_x(CoreReg::Zr, val) == s,
        reg != CoreReg::Zr ==> s.with_core_x(reg, val).core_x(reg) == val,
        reg != CoreReg::Zr ==> s.with_core_x(reg, wval as u64).core_x(reg) == wval as u64,
        reg != CoreReg::Zr ==> s.with_core_x(reg, wval as u64).core_x(reg) as u32 == wval,
        s.with_core_x(reg, val).pc == s.pc,
{
    assert((wval as u64) as u32 == wval) by (bit_vector);
}

/// Moving PC by `a` and then by `b` is moving it by `a + b`; in particular moving
/// back by the same amount restores it.
pub proof fn lemma_pc_plus_adds(pc: u64, a: int, b: int)
    ensures
        pc_plus(pc_plus(pc, a), b) == pc_plus(pc, a + b),
        pc_plus(pc_plus(pc, a), -a) == pc,
{
    let m = 0x1_0000_0000_0000_0000int;
    vstd::arithmetic::div_mod::lemma_add_mod_noop(pc as int + a, b, m);
    vstd::arithmetic::div_mod::lemma_mod_twice(pc as int + a, m);
    vstd::arithmetic::div_mod::lemma_add_mod_noop(pc as int + a, -a, m);
    vstd::arithmetic::div_mod::lemma_small_mod(pc as nat, m as nat);
}

/// Abstract view of AArch64 architectural registers.
///
/// Every implementation describes its contents by `arch_state`; each access is
/// stated over that description.
pub trait RegisterBank: Sized {
    /// The architectural state this bank holds.
    spec fn arch_state(&self) -> ArchState;

    /// Every bank holds exactly the 31 general-purpose registers X0–X30.
    proof fn lemma_arch_state_wf(&self)
        ensures
            self.arch_state().wf(),
    ;

    /// Read a 64-bit general-purpose physical register (X0–X30).
    fn read_x(&self, reg: Gpr) -> (r: u64)
        ensures
            r == self.arch_state().gpr(reg),
    ;

    /// Write a 64-bit general-purpose physical register (X0–X30).
    fn write_x(&mut self, reg: Gpr, val: u64)
        ensures
            final(self).arch_state() == old(self).arch_state().with_gpr(reg, val),
    ;

    /// Read the current Stack Pointer (SP).
    fn read_sp(&self) -> (r: u64)
        ensures
            r == self.arch_state().sp,
    ;

    /// Write the current Stack Pointer (SP).
    fn write_sp(&mut self, val: u64)
        ensures
            final(self).arch_state() == old(self).arch_state().with_sp(val),
    ;

    /// Read 64-bit value from decoded `CoreReg` operand.
    fn read_core_x(&self, reg: CoreReg) -> (r: u64)
        ensures
            r == self.arch_state().core_x(reg),
    {
        match reg {
            CoreReg::Reg(r) => self.read_x(r),
            CoreReg::Zr => 0,
            CoreReg::Sp => self.read_sp(),
        }
    }

    /// Read 32-bit value from decoded `CoreReg` operand: its low 32 bits.
    fn read_core_w(&self, reg: CoreReg) -> (r: u32)
        ensures
            r == self.arch_state().core_x(reg) as u32,
    {
        self.read_core_x(reg) as u32
    }

    /// Write 64-bit value to decoded `CoreReg` operand; a write to the zero register is
    /// discarded and leaves the bank as it was.
    fn write_core_x(&mut self, reg: CoreReg, val: u64)
        ensures
            final(self).arch_state() == old(self).arch_state().with_core_x(reg, val),
            reg is Zr ==> *final(self) == *old(self),
    {
        match reg {
            CoreReg::Reg(r) => self.write_x(r, val),
            CoreReg::Zr => {},
            CoreReg::Sp => self.write_sp(val),
        }
    }

    /// Write 32-bit value to decoded `CoreReg` operand, zero-extending to 64 bits; a write
    /// to the zero register is discarded and leaves the bank as it was.
    fn write_core_w(&mut self, reg: CoreReg, val: u32)
        ensures
            final(self).arch_state() == old(self).arch_state().with_core_x(reg, val as u64),
            reg is Zr ==> *final(self) == *old(self),
    {
        self.write_core_x(reg, val as u64);
    }

    /// Read the current Program Counter (PC).
    fn get_pc(&self) -> (r: u64)
        ensures
            r == self.arch_state().pc,
    ;

    /// Write the current Program Counter (PC).
    fn set_pc(&mut self, val: u64)
        ensures
            final(self).arch_state() == old(self).arch_state().with_pc(val),
    ;

    /// Advance the Program Counter by `offset` bytes, wrapping modulo 2^64.
    fn advance_pc(&mut self, offset: i64)
        ensures
            final(self).arch_state() == old(self).arch_state().with_pc(
                pc_plus(old(self).arch_state().pc, offset as int),
            ),
    {
        let pc = self.get_pc();
        self.set_pc(pc.wrapping_add_signed(offset));
    }

    /// Read the NZCV condition flags.
    fn get_flags(&self) -> (r: Nzcv)
        ensures
            r == self.arch_state().flags,
    ;

    /// Update the NZCV condition flags.
    fn set_flags(&mut self, flags: Nzcv)
        ensures
            final(self).arch_state() == old(self).arch_state().with_flags(flags),
    ;

    /// Read a 128-bit SIMD / Floating-Point register (V0–V31).
    ///
    /// Backends without SIMD support keep the provided body, which reports `SimdNotSupported`.
    fn read_v(&self, reg: VReg) -> (r: Result<u128, ExecError>)
        default_ensures
            r == Err::<u128, ExecError>(ExecError::SimdNotSupported),
    {
        let _ = reg;
        Err(ExecError::SimdNotSupported)
    }

    /// Write a 128-bit SIMD / Floating-Point register (V0–V31); the general-purpose
    /// registers, SP, PC and flags are left as they are.
    ///
    /// Backends without SIMD support keep the provided body, which reports `SimdNotSupported`.
    fn write_v(&mut self, reg: VReg, val: u128) -> (r: Result<(), ExecError>)
        ensures
            final(self).arch_state() == old(self).arch_state(),
        default_ensures
            r == Err::<(), ExecError>(ExecError::SimdNotSupported),
            *final(self) == *old(self),
    {
        let _ = (reg, val);
        Err(ExecError::SimdNotSupported)
    }
}

/// Abstraction for address space inspection and modification (little-endian).
///
/// What a backend's primitive accesses return is the backend's own affair: a
/// backend states it on its impl. The provided bodies of the atomic and
/// exclusive-monitor operations describe a backend without those facilities.
pub trait MemoryInterface: Sized {
    /// Read an unsigned 8-bit byte from `addr`.
    fn read_u8(&mut self, addr: u64) -> Result<u8, ExecError>;

    /// Read an unsigned 16-bit word from `addr`.
    fn read_u16(&mut self, addr: u64) -> Result<u16, ExecError>;

    /// Read an unsigned 32-bit word from `addr`.
    fn read_u32(&mut self, addr: u64) -> Result<u32, ExecError>;

    /// Read an unsigned 64-bit doubleword from `addr`.
    fn read_u64(&mut self, addr: u64) -> Result<u64, ExecError>;

    /// Read an unsigned 128-bit quadword from `addr`.
    fn read_u128(&mut self, addr: u64) -> Result<u128, ExecError>;

    /// Write an unsigned 8-bit byte to `addr`.
    fn write_u8(&mut self, addr: u64, val: u8) -> Result<(), ExecError>;

    /// Write an unsigned 16-bit word to `addr`.
    fn write_u16(&mut self, addr: u64, val: u16) -> Result<(), ExecError>;

    /// Write an unsigned 32-bit word to `addr`.
    fn write_u32(&mut self, addr: u64, val: u32) -> Result<(), ExecError>;

    /// Write an unsigned 64-bit doubleword to `addr`.
    fn write_u64(&mut self, addr: u64, val: u64) -> Result<(), ExecError>;

    /// Write an unsigned 128-bit quadword to `addr`.
    fn write_u128(&mut self, addr: u64, val: u128) -> Result<(), ExecError>;

    /// Atomic Compare-and-Swap (32-bit).
    fn atomic_cas_u32(
        &mut self,
        addr: u64,
        expected: u32,
        new_val: u32,
        order: MemoryOrdering,
    ) -> (r: Result<u32, ExecError>)
        default_ensures
            r == Err::<u32, ExecError>(ExecError::AtomicNotSupported),
            *final(self) == *old(self),
    {
        let _ = (addr, expected, new_val, order);
        Err(ExecError::AtomicNotSupported)
    }

    /// Atomic Compare-and-Swap (64-bit).
    fn atomic_cas_u64(
        &mut self,
        addr: u64,
        expected: u64,
        new_val: u64,
        order: MemoryOrdering,
    ) -> (r: Result<u64, ExecError>)
        default_ensures
            r == Err::<u64, ExecError>(ExecError::AtomicNotSupported),
            *final(self) == *old(self),
    {
        let _ = (addr, expected, new_val, order);
        Err(ExecError::AtomicNotSupported)
    }

    /// Atomic Swap / Exchange (64-bit).
    fn atomic_swap_u64(&mut self, addr: u64, val: u64, order: MemoryOrdering) -> (r: Result<
        u64,
        ExecError,
    >)
        default_ensures
            r == Err::<u64, ExecError>(ExecError::AtomicNotSupported),
            *final(self) == *old(self),
    {
        let _ = (addr, val, order);
        Err(ExecError::AtomicNotSupported)
    }

    /// Atomic Fetch-and-Add (64-bit).
    fn atomic_fetch_add_u64(&mut self, addr: u64, val: u64, order: MemoryOrdering) -> (r: Result<
        u64,
        ExecError,
    >)
        default_ensures
            r == Err::<u64, ExecError>(ExecError::AtomicNotSupported),
            *final(self) == *old(self),
    {
        let _ = (addr, val, order);
        Err(ExecError::AtomicNotSupported)
    }

    /// Tag an address in the local exclusive monitor (e.g., on LDXR).
    fn mark_exclusive(&mut self, addr: u64, size: usize) -> (r: Result<(), ExecError>)
        default_ensures
            r == Ok::<(), ExecError>(()),
            *final(self) == *old(self),
    {
        let _ = (addr, size);
        Ok(())
    }

    /// Attempt to store conditionally to an address (32-bit, e.g., on STXR).
    fn try_store_exclusive_u32(&mut self, addr: u64, val: u32) -> (r: Result<bool, ExecError>)
        default_ensures
            r == Err::<bool, ExecError>(ExecError::ExclusiveMonitorNotSupported),
            *final(self) == *old(self),
    {
        let _ = (addr, val);
        Err(ExecError::ExclusiveMonitorNotSupported)
    }

    /// Attempt to store conditionally to an address (64-bit, e.g., on STXR).
    fn try_store_exclusive_u64(&mut self, addr: u64, val: u64) -> (r: Result<bool, ExecError>)
        default_ensures
            r == Err::<bool, ExecError>(ExecError::ExclusiveMonitorNotSupported),
            *final(self) == *old(self),
    {
        let _ = (addr, val);
        Err(ExecError::ExclusiveMonitorNotSupported)
    }

    /// Explicitly clear the local exclusive monitor (e.g., on CLREX).
    fn clear_exclusive(&mut self)
        default_ensures
            *final(self) == *old(self),
    {
    }
}

/// Marker for types whose every operation is reentrant, non-blocking and
/// non-allocating, and so may run inside an asynchronous POSIX signal handler.
///
/// An implementor guarantees: no heap allocation; no non-reentrant locks, sleeps
/// or parking; bounded stack usage (< 1 KB); no unrecoverable secondary faults
/// while probing memory; and termination of every operation in bounded time.
pub trait AsyncSignalSafe {}

} // verus!
