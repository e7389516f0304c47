//! Physical register indices, decoded core operands and condition flags.
use vstd::prelude::*;

verus! {

/// Bounded general-purpose register index strictly in 0..=30 (X0–X30 / W0–W30).
#[derive(Copy, Clone, Debug, PartialEq, Eq, Structural, PartialOrd, Ord, Hash)]
pub struct Gpr(u8);

impl Gpr {
    #[verifier::type_invariant]
    spec fn in_range(self) -> bool {
        self.0 <= 30
    }

    /// The register number this index names.
    pub closed spec fn spec_index(self) -> u8 {
        self.0
    }

    /// The register with number `idx` (meaningful for `idx <= 30`).
    pub closed spec fn with_index(idx: u8) -> Gpr {
        Gpr(idx)
    }

    /// An index is determined by its number, and `with_index` names the number given.
    pub broadcast proof fn lemma_index(g: Gpr, idx: u8)
        ensures
            #[trigger] Gpr::with_index(idx).spec_index() == idx,
            g == Gpr::with_index(#[trigger] g.spec_index()),
    {
    }

    /// Creates a new `Gpr` if `idx` is in the valid range `0..=30`.
    pub fn new(idx: u8) -> (r: Option<Self>)
        ensures
            r == (if idx <= 30 { Some(Gpr::with_index(idx)) } else { None }),
            r matches Some(g) ==> g.spec_index() == idx,
    {
        if idx <= 30 {
            Some(Self(idx))
        } else {
            None
        }
    }

    /// Creates a new `Gpr` without a range check; the caller guarantees `idx <= 30`.
    pub fn new_unchecked(idx: u8) -> (r: Self)
        requires
            idx <= 30,
        ensures
            r == Gpr::with_index(idx),
            r.spec_index() == idx,
    {
        Self(idx)
    }

    /// Returns the raw zero-based physical index (0..=30).
    #[verifier::when_used_as_spec(spec_index)]
    pub fn index(self) -> (r: u8)
        ensures
            r == self.spec_index(),
            r <= 30,
    {
        proof {
            use_type_invariant(&self);
        }
        self.0
    }
}

/// Decoded core integer register operand: field value 31 resolves to the zero
/// register or to the stack pointer, depending on the instruction.
#[derive(Copy, Clone, Debug, PartialEq, Eq, Structural, PartialOrd, Ord, Hash)]
pub enum CoreReg {
    /// Architectural general-purpose register X0..X30 (or W0..W30).
    Reg(Gpr),
    /// Zero Register (XZR / WZR): reads return 0, writes are discarded.
    Zr,
    /// Special Register: Stack Pointer (SP / WSP).
    Sp,
}

/// The operand named by the low five bits of `raw`, where 31 names `special`.
pub open spec fn core_reg_of(raw: u32, special: CoreReg) -> CoreReg {
    let idx = raw % 32;
    if idx == 31 {
        special
    } else {
        CoreReg::Reg(Gpr::with_index(idx as u8))
    }
}

proof fn lemma_low_five(raw: u32)
    ensures
        raw & 0x1F == raw % 32,
        (raw & 0x1F) as u8 as u32 == raw & 0x1F,
{
    assert(raw & 0x1F == raw % 32) by (bit_vector);
    assert(raw & 0x1F <= 31) by (bit_vector);
}

impl CoreReg {
    /// Resolves a 5-bit register field where index 31 represents XZR / WZR.
    pub fn from_raw_zr(raw_5bit: u32) -> (r: Self)
        ensures
            r == core_reg_of(raw_5bit, CoreReg::Zr),
    {
        proof {
            lemma_low_five(raw_5bit);
        }
        let idx = (raw_5bit & 0x1F) as u8;
        if idx == 31 {
            CoreReg::Zr
        } else {
            CoreReg::Reg(Gpr::new_unchecked(idx))
        }
    }

    /// Resolves a 5-bit register field where index 31 represents SP / WSP.
    pub fn from_raw_sp(raw_5bit: u32) -> (r: Self)
        ensures
            r == core_reg_of(raw_5bit, CoreReg::Sp),
    {
        proof {
            lemma_low_five(raw_5bit);
        }
        let idx = (raw_5bit & 0x1F) as u8;
        if idx == 31 {
            CoreReg::Sp
        } else {
            CoreReg::Reg(Gpr::new_unchecked(idx))
        }
    }
}

/// Bounded vector register index strictly in 0..=31 (V0–V31).
#[derive(Copy, Clone, Debug, PartialEq, Eq, Structural, PartialOrd, Ord, Hash)]
pub struct VReg(u8);

impl VReg {
    #[verifier::type_invariant]
    spec fn in_range(self) -> bool {
        self.0 <= 31
    }

    /// The vector register number this index names.
    pub closed spec fn spec_index(self) -> u8 {
        self.0
    }

    /// The vector register with number `idx` (meaningful for `idx <= 31`).
    pub closed spec fn with_index(idx: u8) -> VReg {
        VReg(idx)
    }

    /// A vector index is determined by its number, and `with_index` names the number given.
    pub broadcast proof fn lemma_index(v: VReg, idx: u8)
        ensures
            #[trigger] VReg::with_index(idx).spec_index() == idx,
            v == VReg::with_index(#[trigger] v.spec_index()),
    {
    }

    /// Creates a new `VReg` if `idx` is in the valid range `0..=31`.
    pub fn new(idx: u8) -> (r: Option<Self>)
        ensures
            r == (if idx <= 31 { Some(VReg::with_index(idx)) } else { None }),
            r matches Some(v) ==> v.spec_index() == idx,
    {
        if idx <= 31 {
            Some(Self(idx))
        } else {
            None
        }
    }

    /// Creates a new `VReg` without a range check; the caller guarantees `idx <= 31`.
    pub fn new_unchecked(idx: u8) -> (r: Self)
        requires
            idx <= 31,
        ensures
            r == VReg::with_index(idx),
            r.spec_index() == idx,
    {
        Self(idx)
    }

    /// Returns the raw zero-based physical index (0..=31).
    #[verifier::when_used_as_spec(spec_index)]
    pub fn index(self) -> (r: u8)
        ensures
            r == self.spec_index(),
            r <= 31,
    {
        proof {
            use_type_invariant(&self);
        }
        self.0
    }
}

/// Condition flags from PSTATE (NZCV bits 31:28).
#[derive(Copy, Clone, Debug, PartialEq, Eq, Structural, Hash)]
pub struct Nzcv {
    /// Negative condition flag (Bit 31)
    pub n: bool,
    /// Zero condition flag (Bit 30)
    pub z: bool,
    /// Carry condition flag (Bit 29)
    pub c: bool,
    /// Overflow condition flag (Bit 28)
    pub v: bool,
}

/// Whether bit `i` of `raw` is set.
pub open spec fn bit_set(raw: u32, i: u32) -> bool {
    (raw >> i) & 1 == 1
}

/// The flags held in bits 31:28 of a PSTATE/NZCV word.
pub open spec fn nzcv_of_word(raw: u32) -> Nzcv {
    Nzcv { n: bit_set(raw, 31), z: bit_set(raw, 30), c: bit_set(raw, 29), v: bit_set(raw, 28) }
}

/// The PSTATE/NZCV word holding `f` in bits 31:28 and zero elsewhere.
pub open spec fn nzcv_word(f: Nzcv) -> u32 {
    ((if f.n { 0x8000_0000int } else { 0int }) + (if f.z { 0x4000_0000int } else { 0int })
        + (if f.c { 0x2000_0000int } else { 0int }) + (if f.v { 0x1000_0000int } else {
        0int
    })) as u32
}

impl Default for Nzcv {
    /// All four flags clear.
    fn default() -> (r: Self)
        ensures
            r == (Nzcv { n: false, z: false, c: false, v: false }),
    {
        Nzcv { n: false, z: false, c: false, v: false }
    }
}

impl Nzcv {
    /// Constructs `Nzcv` flags from raw 32-bit PSTATE/NZCV word.
    pub fn from_raw(raw: u32) -> (r: Self)
        ensures
            r == nzcv_of_word(raw),
    {
        assert((raw & (1u32 << 31u32) != 0) == bit_set(raw, 31)) by (bit_vector);
        assert((raw & (1u32 << 30u32) != 0) == bit_set(raw, 30)) by (bit_vector);
        assert((raw & (1u32 << 29u32) != 0) == bit_set(raw, 29)) by (bit_vector);
        assert((raw & (1u32 << 28u32) != 0) == bit_set(raw, 28)) by (bit_vector);
        Self {
            n: (raw & (1u32 << 31u32)) != 0,
            z: (raw & (1u32 << 30u32)) != 0,
            c: (raw & (1u32 << 29u32)) != 0,
            v: (raw & (1u32 << 28u32)) != 0,
        }
    }

    /// Serializes `Nzcv` flags into raw 32-bit PSTATE/NZCV word.
    pub fn to_raw(self) -> (r: u32)
        ensures
            r == nzcv_word(self),
    {
        let n: u32 = if self.n { 1 } else { 0 };
        let z: u32 = if self.z { 1 } else { 0 };
        let c: u32 = if self.c { 1 } else { 0 };
        let v: u32 = if self.v { 1 } else { 0 };
        let r = (n << 31u32) | (z << 30u32) | (c << 29u32) | (v << 28u32);
        assert(r == (n * 0x8000_0000 + z * 0x4000_0000 + c * 0x2000_0000 + v * 0x1000_0000)) by (bit_vector)
            requires
                n <= 1,
                z <= 1,
                c <= 1,
                v <= 1,
                r == (n << 31u32) | (z << 30u32) | (c << 29u32) | (v << 28u32),
        ;
        r
    }
}

/// Reading the flags back from the word that `to_raw` builds gives the same flags.
pub proof fn lemma_nzcv_roundtrip(f: Nzcv)
    ensures
        nzcv_of_word(nzcv_word(f)) == f,
{
    let w = nzcv_word(f);
    let n: u32 = if f.n { 1 } else { 0 };
    let z: u32 = if f.z { 1 } else { 0 };
    let c: u32 = if f.c { 1 } else { 0 };
    let v: u32 = if f.v { 1 } else { 0 };
    assert(w == n * 0x8000_0000 + z * 0x4000_0000 + c * 0x2000_0000 + v * 0x1000_0000);
    assert(bit_set(w, 31) == (n == 1) && bit_set(w, 30) == (z == 1) && bit_set(w, 29) == (c == 1)
        && bit_set(w, 28) == (v == 1)) by (bit_vector)
        requires
            n <= 1,
            z <= 1,
            c <= 1,
            v <= 1,
            w == n * 0x8000_0000 + z * 0x4000_0000 + c * 0x2000_0000 + v * 0x1000_0000,
    ;
}

/// Building a word from the flags read out of `raw` keeps bits 31:28 of `raw` and clears the rest.
pub proof fn lemma_nzcv_word_of_flags(raw: u32)
    ensures
        nzcv_word(nzcv_of_word(raw)) == raw & 0xF000_0000,
{
    let f = nzcv_of_word(raw);
    let n: u32 = if f.n { 1 } else { 0 };
    let z: u32 = if f.z { 1 } else { 0 };
    let c: u32 = if f.c { 1 } else { 0 };
    let v: u32 = if f.v { 1 } else { 0 };
    assert(n * 0x8000_0000 + z * 0x4000_0000 + c * 0x2000_0000 + v * 0x1000_0000 == raw
        & 0xF000_0000) by (bit_vector)
        requires
            n == (if (raw >> 31u32) & 1 == 1 { 1u32 } else { 0u32 }),
            z == (if (raw >> 30u32) & 1 == 1 { 1u32 } else { 0u32 }),
            c == (if (raw >> 29u32) & 1 == 1 { 1u32 } else { 0u32 }),
            v == (if (raw >> 28u32) & 1 == 1 { 1u32 } else { 0u32 }),
    ;
}

} // verus!
