//! Register bank held in plain fields.
use vstd::prelude::*;
use crate::base::reg::{Gpr, Nzcv};
use crate::base::traits::{ArchState, AsyncSignalSafe, RegisterBank};

verus! {

/// Virtual register bank storing 31 general-purpose registers, SP, PC, and condition flags.
#[derive(Clone, Debug, PartialEq, Eq)]
pub struct VirtualRegs {
    /// General-purpose physical registers X0–X30.
    pub gpr: [u64; 31],
    /// Stack Pointer (SP).
    pub sp: u64,
    /// Program Counter (PC).
    pub pc: u64,
    /// PSTATE condition flags (NZCV).
    pub flags: Nzcv,
}

/// The state of a freshly created bank: every register, SP and PC zero, all flags clear.
pub open spec fn reset_state() -> ArchState {
    ArchState {
        x: Seq::new(31, |i: int| 0u64),
        sp: 0,
        pc: 0,
        flags: Nzcv { n: false, z: false, c: false, v: false },
    }
}

/// A freshly created bank holds 0 in each of the 31 general-purpose registers, in SP
/// and in PC, and has every flag clear.
pub proof fn lemma_reset_state_is_zero()
    ensures
        reset_state().wf(),
        forall|i: int| 0 <= i < 31 ==> #[trigger] reset_state().x[i] == 0,
        reset_state().sp == 0,
        reset_state().pc == 0,
        !reset_state().flags.n && !reset_state().flags.z && !reset_state().flags.c
            && !reset_state().flags.v,
{
}

impl VirtualRegs {
    /// Creates a new `VirtualRegs` instance with zeroed registers, SP, PC, and default flags.
    pub fn new() -> (r: Self)
        ensures
            r.arch_state() == reset_state(),
            forall|i: int| 0 <= i < 31 ==> #[trigger] r.gpr@[i] == 0,
            r.sp == 0,
            r.pc == 0,
            !r.flags.n && !r.flags.z && !r.flags.c && !r.flags.v,
    {
        let r = VirtualRegs { gpr: [0u64; 31], sp: 0, pc: 0, flags: Nzcv::default() };
        assert(r.gpr@ =~= reset_state().x);
        r
    }
}

impl Default for VirtualRegs {
    /// Same as `VirtualRegs::new`.
    fn default() -> (r: Self)
        ensures
            r.arch_state() == reset_state(),
    {
        VirtualRegs::new()
    }
}

impl RegisterBank for VirtualRegs {
    open spec fn arch_state(&self) -> ArchState {
        ArchState { x: self.gpr@, sp: self.sp, pc: self.pc, flags: self.flags }
    }

    proof fn lemma_arch_state_wf(&self) {
    }

    fn read_x(&self, reg: Gpr) -> (r: u64) {
        self.gpr[reg.index() as usize]
    }

    fn write_x(&mut self, reg: Gpr, val: u64) {
        self.gpr[reg.index() as usize] = val;
    }

    fn read_sp(&self) -> (r: u64) {
        self.sp
    }

    fn write_sp(&mut self, val: u64) {
        self.sp = val;
    }

    fn get_pc(&self) -> (r: u64) {
        self.pc
    }

    fn set_pc(&mut self, val: u64) {
        self.pc = val;
    }

    fn get_flags(&self) -> (r: Nzcv) {
        self.flags
    }

    fn set_flags(&mut self, flags: Nzcv) {
        self.flags = flags;
    }
}

impl AsyncSignalSafe for VirtualRegs {}

} // verus!
