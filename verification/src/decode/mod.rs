//! AArch64 instruction representation and decoding engine.
pub mod branch;

use vstd::prelude::*;
use crate::base::error::DecodeError;
use crate::base::reg::Gpr;
use crate::base::traits::AsyncSignalSafe;
use crate::decode::branch::{
    branch_decoding, decode_branch, imm26_offset, is_b, is_bl, is_blr, is_br, is_ret, rn_field,
};

verus! {

/// Decoded AArch64 instruction representation.
#[derive(Copy, Clone, Debug, PartialEq, Eq, Structural, Hash)]
pub enum Instruction {
    /// `B` — Branch (Immediate)
    B {
        /// Signed 64-bit byte offset (`imm26 << 2`).
        offset: i64,
    },
    /// `BL` — Branch with Link (Immediate)
    Bl {
        /// Signed 64-bit byte offset (`imm26 << 2`).
        offset: i64,
    },
    /// `BR` — Branch to Register
    Br {
        /// General-purpose register holding target address.
        rn: Gpr,
    },
    /// `BLR` — Branch with Link to Register
    Blr {
        /// General-purpose register holding target address.
        rn: Gpr,
    },
    /// `RET` — Return from Subroutine
    Ret {
        /// General-purpose register holding return address (defaults to X30).
        rn: Gpr,
    },
}

impl AsyncSignalSafe for Instruction {}

/// Main instruction decoder for AArch64 opcodes.
#[derive(Copy, Clone, Debug, PartialEq, Eq, Structural, Hash)]
pub struct Decoder;

impl AsyncSignalSafe for Decoder {}

impl Default for Decoder {
    /// The decoder (it holds no state).
    fn default() -> (r: Self)
        ensures
            r == Decoder,
    {
        Decoder
    }
}

/// What decoding `raw` gives: the instruction of a matching encoding class, the
/// class's own error, or `Undefined(raw)` where no class matches.
pub open spec fn decoding(raw: u32) -> Result<Instruction, DecodeError> {
    match branch_decoding(raw) {
        Ok(Some(inst)) => Ok(inst),
        Ok(None) => Err(DecodeError::Undefined(raw)),
        Err(e) => Err(e),
    }
}

/// The word of an immediate branch with byte offset `offset`; `link` selects `BL` over `B`.
pub open spec fn imm_branch_word(link: bool, offset: int) -> u32 {
    let imm26 = (offset / 4) % 0x400_0000;
    ((if link { 0x9400_0000int } else { 0x1400_0000int }) + imm26) as u32
}

/// The word of a register branch on register field `n`: `BR`, `BLR` or `RET` as
/// `opc` is 0, 1 or 2.
pub open spec fn reg_branch_word(opc: u32, n: u32) -> u32 {
    (0xD61F_0000 + 0x20_0000 * opc + 32 * n) as u32
}

/// Every immediate branch decodes to a word-aligned offset within ±128 MB.
pub proof fn lemma_imm_offset_range(raw: u32)
    ensures
        imm26_offset(raw) % 4 == 0,
        -0x800_0000 <= imm26_offset(raw) < 0x800_0000,
        decoding(raw) matches Ok(Instruction::B { offset }) ==> offset as int == imm26_offset(raw),
        decoding(raw) matches Ok(Instruction::Bl { offset }) ==> offset as int == imm26_offset(raw),
{
}

/// Decoding the word of an immediate branch gives back that branch, for every
/// word-aligned offset within ±128 MB.
pub proof fn lemma_decode_imm_branch_word(link: bool, offset: int)
    requires
        offset % 4 == 0,
        -0x800_0000 <= offset < 0x800_0000,
    ensures
        decoding(imm_branch_word(link, offset)) == (if link {
            Ok::<Instruction, DecodeError>(Instruction::Bl { offset: offset as i64 })
        } else {
            Ok::<Instruction, DecodeError>(Instruction::B { offset: offset as i64 })
        }),
{
    let imm26 = (offset / 4) % 0x400_0000;
    let raw = imm_branch_word(link, offset);
    let imm: u32 = imm26 as u32;
    assert(imm < 0x400_0000);
    if link {
        assert(raw & 0xFC00_0000 == 0x9400_0000 && raw % 0x400_0000 == imm) by (bit_vector)
            requires
                imm < 0x400_0000,
                raw == 0x9400_0000 + imm,
        ;
    } else {
        assert(raw & 0xFC00_0000 == 0x1400_0000 && raw % 0x400_0000 == imm) by (bit_vector)
            requires
                imm < 0x400_0000,
                raw == 0x1400_0000 + imm,
        ;
    }
    assert(imm26_offset(raw) == offset);
}

/// Decoding the word of a register branch gives back that branch on register `n`,
/// or `Reserved` where `n` is 31.
pub proof fn lemma_decode_reg_branch_word(opc: u32, n: u32)
    requires
        opc <= 2,
        n <= 31,
    ensures
        decoding(reg_branch_word(opc, n)) == (if n == 31 {
            Err::<Instruction, DecodeError>(DecodeError::Reserved(reg_branch_word(opc, n)))
        } else if opc == 0 {
            Ok::<Instruction, DecodeError>(Instruction::Br { rn: Gpr::with_index(n as u8) })
        } else if opc == 1 {
            Ok::<Instruction, DecodeError>(Instruction::Blr { rn: Gpr::with_index(n as u8) })
        } else {
            Ok::<Instruction, DecodeError>(Instruction::Ret { rn: Gpr::with_index(n as u8) })
        }),
{
    let w = reg_branch_word(opc, n);
    assert({
        &&& w & 0xFC00_0000 != 0x1400_0000
        &&& w & 0xFC00_0000 != 0x9400_0000
        &&& (w & 0xFFFF_FC1F == 0xD61F_0000) == (opc == 0)
        &&& (w & 0xFFFF_FC1F == 0xD63F_0000) == (opc == 1)
        &&& (w & 0xFFFF_FC1F == 0xD65F_0000) == (opc == 2)
        &&& (w / 32) % 32 == n
    }) by (bit_vector)
        requires
            opc <= 2,
            n <= 31,
            w == 0xD61F_0000 + 0x20_0000 * opc + 32 * n,
    ;
}

/// Decoding fails only with the word itself: `Reserved` exactly for a register
/// branch naming register 31, `Undefined` exactly for a word that matches no
/// branch encoding; every other word decodes.
pub proof fn lemma_decode_errors(raw: u32)
    ensures
        (decoding(raw) == Err::<Instruction, DecodeError>(DecodeError::Reserved(raw))) <==> (
        !is_b(raw) && !is_bl(raw) && (is_br(raw) || is_blr(raw) || is_ret(raw)) && rn_field(raw)
            == 31),
        (decoding(raw) == Err::<Instruction, DecodeError>(DecodeError::Undefined(raw))) <==> (
        !is_b(raw) && !is_bl(raw) && !is_br(raw) && !is_blr(raw) && !is_ret(raw)),
        decoding(raw) is Err ==> (decoding(raw) == Err::<Instruction, DecodeError>(
            DecodeError::Reserved(raw),
        ) || decoding(raw) == Err::<Instruction, DecodeError>(DecodeError::Undefined(raw))),
{
}

/// Each instruction kind is decoded from exactly its own encoding: `B` exactly from
/// the words with bits 31:26 `000101`, `BL` exactly from `100101`, and `BR`, `BLR`,
/// `RET` exactly from their fixed bits with an `Rn` field (bits 9:5) other than 31.
pub proof fn lemma_decode_classes(raw: u32)
    ensures
        (decoding(raw) matches Ok(Instruction::B { .. })) <==> raw & 0xFC00_0000 == 0x1400_0000,
        (decoding(raw) matches Ok(Instruction::Bl { .. })) <==> raw & 0xFC00_0000 == 0x9400_0000,
        (decoding(raw) matches Ok(Instruction::Br { .. })) <==> (raw & 0xFFFF_FC1F == 0xD61F_0000
            && (raw >> 5u32) & 0x1F != 31),
        (decoding(raw) matches Ok(Instruction::Blr { .. })) <==> (raw & 0xFFFF_FC1F
            == 0xD63F_0000 && (raw >> 5u32) & 0x1F != 31),
        (decoding(raw) matches Ok(Instruction::Ret { .. })) <==> (raw & 0xFFFF_FC1F
            == 0xD65F_0000 && (raw >> 5u32) & 0x1F != 31),
{
    crate::decode::branch::lemma_masks_disjoint(raw);
    crate::decode::branch::lemma_rn_field(raw);
}

impl Decoder {
    /// Decodes a raw 32-bit instruction word into a strongly-typed `Instruction`.
    ///
    /// Returns `Err(DecodeError::Undefined)` if opcode does not match any known instruction.
    /// Returns `Err(DecodeError::Reserved)` if register fields or encodings are reserved by ISA.
    pub fn decode(raw: u32) -> (r: Result<Instruction, DecodeError>)
        ensures
            r == decoding(raw),
    {
        match decode_branch(raw) {
            Ok(Some(inst)) => Ok(inst),
            Ok(None) => Err(DecodeError::Undefined(raw)),
            Err(e) => Err(e),
        }
    }
}

} // verus!
