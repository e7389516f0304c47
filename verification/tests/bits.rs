use sigstep_a64::{extract_bits, sign_extend};

#[test]
fn test_extract_bits() {
    let val: u32 = 0b1101_1010_0101_0011_1110_0000_1111_0000;

    assert_eq!(extract_bits(val, 4, 4), 0b1111);
    assert_eq!(extract_bits(val, 0, 1), 0);
    assert_eq!(extract_bits(val, 28, 5), 0b1101);
    assert_eq!(extract_bits(val, 0, 32), val);

    assert_eq!(extract_bits(val, 0, 0), 0);
    assert_eq!(extract_bits(val, 32, 1), 0);
    assert_eq!(extract_bits(val, 40, 5), 0);
}

#[test]
fn test_sign_extend() {
    assert_eq!(sign_extend(0b011, 3), 3);
    assert_eq!(sign_extend(0b111, 3), 0xFFFF_FFFF_FFFF_FFFF);
    assert_eq!(sign_extend(0x7FF, 12), 2047);
    assert_eq!(sign_extend(0x800, 12), 0xFFFF_FFFF_FFFF_F800);

    let val_64 = 0x8000_0000_0000_0000;
    assert_eq!(sign_extend(val_64, 64), val_64);

    assert_eq!(sign_extend(0b111, 0), 0b111);
}

#[test]
fn extract_bits_wide_field_at_offset_keeps_all_high_bits() {
    assert_eq!(extract_bits(0xF000_0001, 4, 40), 0x0F00_0000);
    assert_eq!(extract_bits(0xFFFF_FFFF, 31, 1), 1);
    assert_eq!(extract_bits(0xFFFF_FFFF, 31, 32), 1);
    assert_eq!(extract_bits(0x1234_5678, 8, 8), 0x56);
}

#[test]
fn sign_extend_edge_widths() {
    assert_eq!(sign_extend(0x1, 1), 0xFFFF_FFFF_FFFF_FFFF);
    assert_eq!(sign_extend(0x2, 1), 0);
    assert_eq!(sign_extend(0x4000_0000_0000_0000, 63), 0xC000_0000_0000_0000);
    assert_eq!(sign_extend(0x3FFF_FFFF_FFFF_FFFF, 63), 0x3FFF_FFFF_FFFF_FFFF);
    assert_eq!(sign_extend(0xABCD, 200), 0xABCD);
    // bits above the field are ignored
    assert_eq!(sign_extend(0xFF0_0005, 4), 5);
    assert_eq!(sign_extend(0xFF0_000D, 4), 0xFFFF_FFFF_FFFF_FFFD);
}

#[test]
fn sign_extend_twice_is_once() {
    for w in 1..64u32 {
        for v in [0u64, 1, 0x7F, 0x80, 0xFFFF, 0x1234_5678_9ABC_DEF0, u64::MAX] {
            let once = sign_extend(v, w);
            assert_eq!(sign_extend(once, w), once);
            let signed = once as i64;
            let half: i128 = 1i128 << (w - 1);
            assert!((signed as i128) >= -half && (signed as i128) < half);
        }
    }
}
