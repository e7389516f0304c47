//! Transactional instruction interpreter: a step commits its state changes if and
//! only if it completes with `Ok(())`.
use vstd::prelude::*;
use crate::base::error::ExecError;
use crate::base::reg::Gpr;
use crate::base::traits::{pc_plus, ArchState, AsyncSignalSafe, MemoryInterface, RegisterBank};
use crate::decode::{decoding, Decoder, Instruction};

verus! {

/// The address a branch transfers control to from state `s`.
pub open spec fn branch_target(s: ArchState, inst: Instruction) -> u64 {
    match inst {
        Instruction::B { offset } => pc_plus(s.pc, offset as int),
        Instruction::Bl { offset } => pc_plus(s.pc, offset as int),
        Instruction::Br { rn } => s.gpr(rn),
        Instruction::Blr { rn } => s.gpr(rn),
        Instruction::Ret { rn } => s.gpr(rn),
    }
}

/// Whether the branch writes the return address to X30.
pub open spec fn links(inst: Instruction) -> bool {
    inst is Bl || inst is Blr
}

/// The link register, X30.
pub open spec fn link_reg() -> Gpr {
    Gpr::with_index(30)
}

/// Result and resulting state of executing `inst` from `s`: a target that is not
/// 4-byte aligned fails with `UnalignedPc(target)` and leaves `s` as it was;
/// otherwise the linking branches write PC + 4 to X30, and PC becomes the target.
pub open spec fn step_outcome(s: ArchState, inst: Instruction) -> (Result<(), ExecError>, ArchState) {
    let target = branch_target(s, inst);
    if target % 4 != 0 {
        (Err(ExecError::UnalignedPc(target)), s)
    } else if links(inst) {
        (Ok(()), s.with_gpr(link_reg(), pc_plus(s.pc, 4)).with_pc(target))
    } else {
        (Ok(()), s.with_pc(target))
    }
}

/// Result and resulting state of decoding and executing the word `raw` from `s`:
/// a decoding failure is reported as `Decode(..)` with `s` left as it was.
pub open spec fn raw_step_outcome(s: ArchState, raw: u32) -> (Result<(), ExecError>, ArchState) {
    match decoding(raw) {
        Ok(inst) => step_outcome(s, inst),
        Err(e) => (Err(ExecError::Decode(e)), s),
    }
}

/// A step that fails leaves the architectural state exactly as it was; one that
/// succeeds leaves PC 4-byte aligned at the branch target, keeps SP and the flags,
/// and changes no general-purpose register other than X30, which only the linking
/// branches write (with the address of the next instruction).
pub proof fn lemma_step_is_transactional(s: ArchState, inst: Instruction)
    requires
        s.wf(),
    ensures
        step_outcome(s, inst).0 is Err ==> step_outcome(s, inst).1 == s,
        step_outcome(s, inst).0 is Err <==> branch_target(s, inst) % 4 != 0,
        step_outcome(s, inst).0 is Ok ==> {
            let t = step_outcome(s, inst).1;
            &&& t.pc == branch_target(s, inst)
            &&& t.pc % 4 == 0
            &&& t.sp == s.sp
            &&& t.flags == s.flags
            &&& t.wf()
            &&& forall|i: int| 0 <= i < 30 ==> t.x[i] == s.x[i]
            &&& t.x[30] == if links(inst) { pc_plus(s.pc, 4) } else { s.x[30] }
        },
{
    crate::base::reg::Gpr::lemma_index(link_reg(), 30);
}

/// A word that does not decode leaves the state as it was and reports the
/// decoding failure; one that decodes runs exactly as its instruction does.
pub proof fn lemma_raw_step_is_decode_then_step(s: ArchState, raw: u32)
    ensures
        decoding(raw) is Err ==> raw_step_outcome(s, raw) == (
            Err::<(), ExecError>(ExecError::Decode(decoding(raw)->Err_0)),
            s,
        ),
        decoding(raw) is Ok ==> raw_step_outcome(s, raw) == step_outcome(s, decoding(raw)->Ok_0),
{
}

/// A register branch (BR, BLR, RET) on `rn` jumps to the full 64-bit value that `rn`
/// held: it succeeds exactly when that value is a multiple of 4, then PC is that value;
/// otherwise it fails with `UnalignedPc` carrying that value.
pub proof fn lemma_register_branch_target(s: ArchState, rn: Gpr, inst: Instruction)
    requires
        inst == (Instruction::Br { rn }) || inst == (Instruction::Blr { rn }) || inst == (
        Instruction::Ret { rn }),
    ensures
        (step_outcome(s, inst).0 is Ok) <==> (s.x[rn.spec_index() as int] as int) % 4 == 0,
        (s.x[rn.spec_index() as int] as int) % 4 == 0 ==> step_outcome(s, inst).1.pc == s.x[
            rn.spec_index() as int],
        (s.x[rn.spec_index() as int] as int) % 4 != 0 ==> step_outcome(s, inst).0 == Err::<
            (),
            ExecError,
        >(ExecError::UnalignedPc(s.x[rn.spec_index() as int])),
{
}

/// An immediate branch (B, BL) at `s.pc` with byte offset `offset` jumps to
/// `s.pc + offset` taken modulo 2^64; it succeeds exactly when that address is a
/// multiple of 4, and BL then holds `s.pc + 4` (modulo 2^64) in X30.
pub proof fn lemma_immediate_branch_target(s: ArchState, link: bool, offset: i64)
    requires
        s.wf(),
    ensures
        ({
            let inst = if link {
                Instruction::Bl { offset }
            } else {
                Instruction::B { offset }
            };
            let t = (s.pc as int + offset as int) % 0x1_0000_0000_0000_0000;
            &&& (step_outcome(s, inst).0 is Ok) <==> t % 4 == 0
            &&& t % 4 == 0 ==> step_outcome(s, inst).1.pc as int == t
            &&& t % 4 == 0 && link ==> step_outcome(s, inst).1.x[30] as int == (s.pc as int + 4)
                % 0x1_0000_0000_0000_0000
        }),
{
    crate::base::reg::Gpr::lemma_index(link_reg(), 30);
}

/// Transactional instruction interpreter parameterized over register and memory semantics.
pub struct Interpreter<R: RegisterBank, M: MemoryInterface> {
    /// Register bank state.
    pub regs: R,
    /// Memory interface state.
    pub mem: M,
}

proof fn lemma_aligned(target: u64)
    ensures
        (target & 0x3 != 0) == (target % 4 != 0),
{
    assert((target & 0x3 != 0) == (target % 4 != 0)) by (bit_vector);
}

impl<R: RegisterBank, M: MemoryInterface> Interpreter<R, M> {
    /// Constructs a new `Interpreter` with given register bank and memory interface.
    pub fn new(regs: R, mem: M) -> (r: Self)
        ensures
            r.regs == regs,
            r.mem == mem,
    {
        Self { regs, mem }
    }

    /// Executes a single decoded `Instruction`.
    ///
    /// If target validation fails (e.g. `ExecError::UnalignedPc`), no architectural
    /// state (PC or general-purpose registers including X30) is modified; on `Ok(())`
    /// the link register writeback and target PC are committed.
    pub fn step(&mut self, inst: &Instruction) -> (r: Result<(), ExecError>)
        ensures
            (r, final(self).regs.arch_state()) == step_outcome(old(self).regs.arch_state(), *inst),
            r is Err ==> final(self).regs == old(self).regs,
            final(self).mem == old(self).mem,
    {
        match *inst {
            Instruction::B { offset } => {
                let pc = self.regs.get_pc();
                let target = pc.wrapping_add_signed(offset);
                proof {
                    lemma_aligned(target);
                }
                if target & 0x3 != 0 {
                    return Err(ExecError::UnalignedPc(target));
                }
                self.regs.set_pc(target);
                Ok(())
            },
            Instruction::Bl { offset } => {
                let pc = self.regs.get_pc();
                let target = pc.wrapping_add_signed(offset);
                proof {
                    lemma_aligned(target);
                }
                if target & 0x3 != 0 {
                    return Err(ExecError::UnalignedPc(target));
                }
                let lr = match Gpr::new(30) {
                    Some(g) => g,
                    None => return Err(ExecError::InternalInvariantViolated),
                };
                self.regs.write_x(lr, pc.wrapping_add(4));
                self.regs.set_pc(target);
                Ok(())
            },
            Instruction::Br { rn } => {
                let target = self.regs.read_x(rn);
                proof {
                    lemma_aligned(target);
                }
                if target & 0x3 != 0 {
                    return Err(ExecError::UnalignedPc(target));
                }
                self.regs.set_pc(target);
                Ok(())
            },
            Instruction::Blr { rn } => {
                let target = self.regs.read_x(rn);
                proof {
                    lemma_aligned(target);
                }
                if target & 0x3 != 0 {
                    return Err(ExecError::UnalignedPc(target));
                }
                let pc = self.regs.get_pc();
                let lr = match Gpr::new(30) {
                    Some(g) => g,
                    None => return Err(ExecError::InternalInvariantViolated),
                };
                self.regs.write_x(lr, pc.wrapping_add(4));
                self.regs.set_pc(target);
                Ok(())
            },
            Instruction::Ret { rn } => {
                let target = self.regs.read_x(rn);
                proof {
                    lemma_aligned(target);
                }
                if target & 0x3 != 0 {
                    return Err(ExecError::UnalignedPc(target));
                }
                self.regs.set_pc(target);
                Ok(())
            },
        }
    }

    /// Decodes a raw 32-bit AArch64 opcode word and executes the decoded instruction.
    pub fn step_raw(&mut self, raw: u32) -> (r: Result<(), ExecError>)
        ensures
            (r, final(self).regs.arch_state()) == raw_step_outcome(old(self).regs.arch_state(), raw),
            r is Err ==> final(self).regs == old(self).regs,
            final(self).mem == old(self).mem,
    {
        match Decoder::decode(raw) {
            Ok(inst) => self.step(&inst),
            Err(e) => Err(ExecError::from(e)),
        }
    }
}

impl<R, M> AsyncSignalSafe for Interpreter<R, M> where
    R: RegisterBank + AsyncSignalSafe,
    M: MemoryInterface + AsyncSignalSafe,
 {

}

} // verus!
