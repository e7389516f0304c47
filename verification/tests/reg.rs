use sigstep_a64::{CoreReg, Gpr, Nzcv, VReg};
use std::collections::{BTreeSet, HashSet};

#[test]
fn test_gpr_bounds() {
    for i in 0..=30 {
        let gpr = Gpr::new(i).expect("valid Gpr index");
        assert_eq!(gpr.index(), i);
        let gpr_unchecked = Gpr::new_unchecked(i);
        assert_eq!(gpr_unchecked.index(), i);
    }
    for i in 31..=255 {
        assert_eq!(Gpr::new(i), None);
    }
}

#[test]
fn test_vreg_bounds() {
    for i in 0..=31 {
        let vreg = VReg::new(i).expect("valid VReg index");
        assert_eq!(vreg.index(), i);
        let vreg_unchecked = VReg::new_unchecked(i);
        assert_eq!(vreg_unchecked.index(), i);
    }
    for i in 32..=255 {
        assert_eq!(VReg::new(i), None);
    }
}

#[test]
fn test_corereg_from_raw() {
    for i in 0..30 {
        assert_eq!(
            CoreReg::from_raw_zr(i),
            CoreReg::Reg(Gpr::new(i as u8).unwrap())
        );
        assert_eq!(
            CoreReg::from_raw_sp(i),
            CoreReg::Reg(Gpr::new(i as u8).unwrap())
        );
    }
    assert_eq!(
        CoreReg::from_raw_zr(30),
        CoreReg::Reg(Gpr::new(30).unwrap())
    );
    assert_eq!(
        CoreReg::from_raw_sp(30),
        CoreReg::Reg(Gpr::new(30).unwrap())
    );

    assert_eq!(CoreReg::from_raw_zr(31), CoreReg::Zr);
    assert_eq!(CoreReg::from_raw_sp(31), CoreReg::Sp);

    assert_eq!(
        CoreReg::from_raw_zr(0x20),
        CoreReg::Reg(Gpr::new(0).unwrap())
    );
    assert_eq!(CoreReg::from_raw_zr(0x3F), CoreReg::Zr);
    assert_eq!(CoreReg::from_raw_sp(0x3F), CoreReg::Sp);
}

#[test]
fn test_nzcv_roundtrip() {
    for n in [false, true] {
        for z in [false, true] {
            for c in [false, true] {
                for v in [false, true] {
                    let flags = Nzcv { n, z, c, v };
                    let raw = flags.to_raw();
                    let roundtrip = Nzcv::from_raw(raw);
                    assert_eq!(flags, roundtrip);
                }
            }
        }
    }
}

#[test]
fn test_corereg_ord_and_hash() {
    let reg0 = CoreReg::Reg(Gpr::new(0).unwrap());
    let reg1 = CoreReg::Reg(Gpr::new(1).unwrap());
    let zr = CoreReg::Zr;
    let sp = CoreReg::Sp;

    assert!(reg0 < reg1);
    assert!(reg1 < zr);
    assert!(zr < sp);

    let mut set = HashSet::new();
    set.insert(reg0);
    set.insert(zr);
    set.insert(sp);
    assert!(set.contains(&reg0));

    let mut btree = BTreeSet::new();
    btree.insert(sp);
    btree.insert(zr);
    btree.insert(reg1);
    btree.insert(reg0);

    let vec: Vec<_> = btree.into_iter().collect();
    assert_eq!(vec, vec![reg0, reg1, zr, sp]);
}

#[test]
fn test_nzcv_hash() {
    let mut set = HashSet::new();
    let flags = Nzcv {
        n: true,
        z: false,
        c: true,
        v: false,
    };
    set.insert(flags);
    assert!(set.contains(&flags));
}

#[test]
fn nzcv_words_are_exact() {
    assert_eq!(Nzcv { n: true, z: false, c: false, v: false }.to_raw(), 0x8000_0000);
    assert_eq!(Nzcv { n: false, z: true, c: false, v: false }.to_raw(), 0x4000_0000);
    assert_eq!(Nzcv { n: false, z: false, c: true, v: false }.to_raw(), 0x2000_0000);
    assert_eq!(Nzcv { n: false, z: false, c: false, v: true }.to_raw(), 0x1000_0000);
    assert_eq!(Nzcv::default().to_raw(), 0);
    assert_eq!(
        Nzcv::from_raw(0xA000_0000),
        Nzcv { n: true, z: false, c: true, v: false }
    );
}

#[test]
fn nzcv_word_of_flags_keeps_only_top_nibble() {
    for raw in [0u32, 0xFFFF_FFFF, 0x0FFF_FFFF, 0x5000_1234, 0xF000_0000, 0x9ABC_DEF0] {
        assert_eq!(Nzcv::from_raw(raw).to_raw(), raw & 0xF000_0000);
    }
}

#[test]
fn corereg_uses_only_low_five_bits() {
    assert_eq!(CoreReg::from_raw_sp(0xFFFF_FFE5), CoreReg::Reg(Gpr::new(5).unwrap()));
    assert_eq!(CoreReg::from_raw_zr(0xFFFF_FFFF), CoreReg::Zr);
}
