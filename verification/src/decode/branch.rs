//! Decoders for the unconditional branches (B, BL, BR, BLR, RET).
use vstd::prelude::*;
use vstd::arithmetic::power2::pow2;
use crate::base::bits::{extract_bits, field_value, lemma_i64_of_high, sign_extend};
use crate::base::error::DecodeError;
use crate::base::reg::Gpr;
use crate::decode::Instruction;

verus! {

/// Byte offset of an immediate branch: the signed 26-bit field in bits 25:0, times four.
pub open spec fn imm26_offset(raw: u32) -> int {
    let imm26 = raw % 0x400_0000;
    if imm26 < 0x200_0000 {
        4 * imm26
    } else {
        4 * (imm26 - 0x400_0000)
    }
}

/// The `Rn` field, bits 9:5.
pub open spec fn rn_field(raw: u32) -> u32 {
    (raw / 32) % 32
}

/// `B`: bits 31:26 are `000101`.
pub open spec fn is_b(raw: u32) -> bool {
    raw & 0xFC00_0000 == 0x1400_0000
}

/// `BL`: bits 31:26 are `100101`.
pub open spec fn is_bl(raw: u32) -> bool {
    raw & 0xFC00_0000 == 0x9400_0000
}

/// `BR`: `1101011 0000 11111 000000 Rn 00000`.
pub open spec fn is_br(raw: u32) -> bool {
    raw & 0xFFFF_FC1F == 0xD61F_0000
}

/// `BLR`: `1101011 0001 11111 000000 Rn 00000`.
pub open spec fn is_blr(raw: u32) -> bool {
    raw & 0xFFFF_FC1F == 0xD63F_0000
}

/// `RET`: `1101011 0010 11111 000000 Rn 00000`.
pub open spec fn is_ret(raw: u32) -> bool {
    raw & 0xFFFF_FC1F == 0xD65F_0000
}

/// The unconditional-branch reading of `raw`: `Ok(Some(..))` for a branch encoding,
/// `Err(Reserved(raw))` for a register branch naming register 31, and `Ok(None)`
/// for a word outside these encodings.
pub open spec fn branch_decoding(raw: u32) -> Result<Option<Instruction>, DecodeError> {
    if is_b(raw) {
        Ok(Some(Instruction::B { offset: imm26_offset(raw) as i64 }))
    } else if is_bl(raw) {
        Ok(Some(Instruction::Bl { offset: imm26_offset(raw) as i64 }))
    } else if is_br(raw) || is_blr(raw) || is_ret(raw) {
        if rn_field(raw) == 31 {
            Err(DecodeError::Reserved(raw))
        } else {
            let rn = Gpr::with_index(rn_field(raw) as u8);
            if is_br(raw) {
                Ok(Some(Instruction::Br { rn }))
            } else if is_blr(raw) {
                Ok(Some(Instruction::Blr { rn }))
            } else {
                Ok(Some(Instruction::Ret { rn }))
            }
        }
    } else {
        Ok(None)
    }
}

/// The byte offset held in bits 25:0 of an immediate branch.
fn imm26_byte_offset(raw: u32) -> (r: i64)
    ensures
        r as int == imm26_offset(raw),
{
    let imm26_raw = extract_bits(raw, 0, 26) as u64;
    proof {
        vstd::arithmetic::power2::lemma2_to64();
        assert(field_value(raw, 0, 26) == raw % 0x400_0000);
    }
    let extended = sign_extend(imm26_raw, 26);
    proof {
        vstd::arithmetic::div_mod::lemma_small_mod(imm26_raw as nat, pow2(26));
        if imm26_raw >= 0x200_0000 {
            lemma_i64_of_high(extended);
        }
    }
    let sign_extended = extended as i64;
    sign_extended * 4
}

pub proof fn lemma_rn_field(raw: u32)
    ensures
        (raw >> 5u32) & 0x1F == rn_field(raw),
{
    assert((raw >> 5u32) & 0x1F == (raw / 32) % 32) by (bit_vector);
}

/// The three register-branch encodings share bits 31:25 `1101011` and cannot be
/// mistaken for an immediate branch.
pub proof fn lemma_masks_disjoint(raw: u32)
    ensures
        (raw & 0xFFFF_FC1F == 0xD61F_0000 || raw & 0xFFFF_FC1F == 0xD63F_0000 || raw & 0xFFFF_FC1F
            == 0xD65F_0000) ==> (raw & 0xFC00_0000 != 0x1400_0000 && raw & 0xFC00_0000
            != 0x9400_0000),
{
    assert((raw & 0xFFFF_FC1F == 0xD61F_0000 || raw & 0xFFFF_FC1F == 0xD63F_0000 || raw
        & 0xFFFF_FC1F == 0xD65F_0000) ==> (raw & 0xFC00_0000 != 0x1400_0000 && raw & 0xFC00_0000
        != 0x9400_0000)) by (bit_vector);
}

/// The branch decoder fails exactly on a BR, BLR or RET word whose `Rn` field
/// (bits 9:5) is 31, and then with `Reserved` of that word; it reports "not a
/// branch" (`Ok(None)`) exactly for the words that match none of the five branch
/// encodings, and recognizes every other word as a branch.
pub proof fn lemma_branch_decoding_outcomes(raw: u32)
    ensures
        (branch_decoding(raw) is Err) <==> ((raw & 0xFFFF_FC1F == 0xD61F_0000 || raw & 0xFFFF_FC1F
            == 0xD63F_0000 || raw & 0xFFFF_FC1F == 0xD65F_0000) && (raw >> 5u32) & 0x1F == 31),
        branch_decoding(raw) is Err ==> branch_decoding(raw) == Err::<
            Option<Instruction>,
            DecodeError,
        >(DecodeError::Reserved(raw)),
        (branch_decoding(raw) == Ok::<Option<Instruction>, DecodeError>(None)) <==> (raw
            & 0xFC00_0000 != 0x1400_0000 && raw & 0xFC00_0000 != 0x9400_0000 && raw & 0xFFFF_FC1F
            != 0xD61F_0000 && raw & 0xFFFF_FC1F != 0xD63F_0000 && raw & 0xFFFF_FC1F
            != 0xD65F_0000),
{
    lemma_rn_field(raw);
    lemma_masks_disjoint(raw);
}

/// Decodes the unconditional branch instructions.
///
/// Returns `Ok(Some(Instruction))` if `raw` matches an unconditional branch encoding.
/// Returns `Ok(None)` if `raw` does not match any unconditional branch opcode.
/// Returns `Err(DecodeError::Reserved)` if register operand is reserved (e.g. Rn == 31).
pub fn decode_branch(raw: u32) -> (r: Result<Option<Instruction>, DecodeError>)
    ensures
        r == branch_decoding(raw),
{
    if (raw & 0xFC00_0000) == 0x1400_0000 {
        let offset = imm26_byte_offset(raw);
        return Ok(Some(Instruction::B { offset }));
    }
    if (raw & 0xFC00_0000) == 0x9400_0000 {
        let offset = imm26_byte_offset(raw);
        return Ok(Some(Instruction::Bl { offset }));
    }
    proof {
        lemma_rn_field(raw);
    }
    if (raw & 0xFFFF_FC1F) == 0xD61F_0000 {
        let rn_raw = (raw >> 5) & 0x1F;
        if rn_raw == 31 {
            return Err(DecodeError::Reserved(raw));
        }
        let rn = match Gpr::new(rn_raw as u8) {
            Some(g) => g,
            None => return Err(DecodeError::Undefined(raw)),
        };
        return Ok(Some(Instruction::Br { rn }));
    }
    if (raw & 0xFFFF_FC1F) == 0xD63F_0000 {
        let rn_raw = (raw >> 5) & 0x1F;
        if rn_raw == 31 {
            return Err(DecodeError::Reserved(raw));
        }
        let rn = match Gpr::new(rn_raw as u8) {
            Some(g) => g,
            None => return Err(DecodeError::Undefined(raw)),
        };
        return Ok(Some(Instruction::Blr { rn }));
    }
    if (raw & 0xFFFF_FC1F) == 0xD65F_0000 {
        let rn_raw = (raw >> 5) & 0x1F;
        if rn_raw == 31 {
            return Err(DecodeError::Reserved(raw));
        }
        let rn = match Gpr::new(rn_raw as u8) {
            Some(g) => g,
            None => return Err(DecodeError::Undefined(raw)),
        };
        return Ok(Some(Instruction::Ret { rn }));
    }
    Ok(None)
}

} // verus!
