use sigstep_a64::decode::branch::decode_branch;
use sigstep_a64::{DecodeError, Decoder, Gpr, Instruction};

#[test]
fn test_decode_b_immediates() {
    // B +8 (imm26 = 2)
    let raw_fwd = 0x1400_0002;
    assert_eq!(Decoder::decode(raw_fwd), Ok(Instruction::B { offset: 8 }));

    // B -8 (imm26 = -2 = 0x03FF_FFFE)
    let raw_back = 0x17FF_FFFE;
    assert_eq!(Decoder::decode(raw_back), Ok(Instruction::B { offset: -8 }));

    // B max positive immediate (+128 MB - 4 B = +134,217,724 B, imm26 = 0x01FF_FFFF)
    let raw_max_pos = 0x15FF_FFFF;
    assert_eq!(
        Decoder::decode(raw_max_pos),
        Ok(Instruction::B {
            offset: 134_217_724
        })
    );

    // B max negative immediate (-128 MB = -134,217,728 B, imm26 = 0x0200_0000)
    let raw_max_neg = 0x1600_0000;
    assert_eq!(
        Decoder::decode(raw_max_neg),
        Ok(Instruction::B {
            offset: -134_217_728
        })
    );
}

#[test]
fn test_decode_bl_immediates() {
    // BL +16 (imm26 = 4)
    let raw_fwd = 0x9400_0004;
    assert_eq!(Decoder::decode(raw_fwd), Ok(Instruction::Bl { offset: 16 }));

    // BL -16 (imm26 = -4 = 0x03FF_FFFC)
    let raw_back = 0x97FF_FFFC;
    assert_eq!(
        Decoder::decode(raw_back),
        Ok(Instruction::Bl { offset: -16 })
    );
}

#[test]
fn test_decode_register_branches() {
    let x0 = Gpr::new(0).unwrap();
    let x15 = Gpr::new(15).unwrap();
    let x30 = Gpr::new(30).unwrap();

    // BR X0
    assert_eq!(Decoder::decode(0xD61F_0000), Ok(Instruction::Br { rn: x0 }));
    // BR X15
    assert_eq!(
        Decoder::decode(0xD61F_0000 | (15 << 5)),
        Ok(Instruction::Br { rn: x15 })
    );

    // BLR X30
    assert_eq!(
        Decoder::decode(0xD63F_0000 | (30 << 5)),
        Ok(Instruction::Blr { rn: x30 })
    );

    // RET X30 (standard ret: 0xD65F03C0)
    assert_eq!(
        Decoder::decode(0xD65F_03C0),
        Ok(Instruction::Ret { rn: x30 })
    );
    // RET X15
    assert_eq!(
        Decoder::decode(0xD65F_0000 | (15 << 5)),
        Ok(Instruction::Ret { rn: x15 })
    );
}

#[test]
fn test_decode_reserved_rn31() {
    // BR with Rn = 31
    let raw_br_rn31 = 0xD61F_0000 | (31 << 5);
    assert_eq!(
        Decoder::decode(raw_br_rn31),
        Err(DecodeError::Reserved(raw_br_rn31))
    );

    // BLR with Rn = 31
    let raw_blr_rn31 = 0xD63F_0000 | (31 << 5);
    assert_eq!(
        Decoder::decode(raw_blr_rn31),
        Err(DecodeError::Reserved(raw_blr_rn31))
    );

    // RET with Rn = 31
    let raw_ret_rn31 = 0xD65F_0000 | (31 << 5);
    assert_eq!(
        Decoder::decode(raw_ret_rn31),
        Err(DecodeError::Reserved(raw_ret_rn31))
    );
}

#[test]
fn test_decode_unmatched_opcode() {
    let raw_unmatched = 0x0000_0000;
    assert_eq!(
        Decoder::decode(raw_unmatched),
        Err(DecodeError::Undefined(raw_unmatched))
    );
}

#[test]
fn decode_branch_reports_none_outside_branches() {
    assert_eq!(decode_branch(0xD503_201F), Ok(None));
    assert_eq!(decode_branch(0x1400_0001), Ok(Some(Instruction::B { offset: 4 })));
    assert_eq!(decode_branch(0xD61F_03E0), Err(DecodeError::Reserved(0xD61F_03E0)));
    // register branch with nonzero low bits is not a branch
    assert_eq!(decode_branch(0xD61F_0001), Ok(None));
    assert_eq!(Decoder::decode(0xD61F_0001), Err(DecodeError::Undefined(0xD61F_0001)));
}

#[test]
fn immediate_branch_words_decode_back() {
    for offset in [0i64, 4, -4, 0x7FF_FFFC, -0x800_0000, 1024, -4096] {
        let imm26 = ((offset / 4) as u32) & 0x03FF_FFFF;
        assert_eq!(Decoder::decode(0x1400_0000 | imm26), Ok(Instruction::B { offset }));
        assert_eq!(Decoder::decode(0x9400_0000 | imm26), Ok(Instruction::Bl { offset }));
    }
}

#[test]
fn decoder_default_is_decoder() {
    assert_eq!(Decoder::default(), Decoder);
}
