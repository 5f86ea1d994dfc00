use vstd::prelude::*;
use vstd::arithmetic::power2::{pow2, lemma2_to64, lemma_pow2_strictly_increases, lemma_pow2_unfold};
use vstd::bits::{lemma_u32_shl_is_mul, lemma_u32_shr_is_div};
use crate::rv::args::{
    RTypeArgs, ITypeArgs, SBTypeArgs, UJTypeArgs, ShiftArgs, AmoArgs, AmoLrArgs, FenceSet,
    FenceArgs, RoundingMode, R4TypeArgs, RFTypeArgs, R2TypeArgs, R2FTypeArgs, fence_set_spec,
    rounding_mode_spec,
};

verus! {

/// Two's-complement value of the `w`-bit pattern `p`.
pub open spec fn sext(p: int, w: nat) -> int {
    if p < pow2((w - 1) as nat) {
        p
    } else {
        p - pow2(w)
    }
}

/// The `w`-bit pattern `0111…1` is the largest positive value, `1000…0` the most negative one.
pub proof fn lemma_sext_extremes(w: nat)
    requires
        w >= 1,
    ensures
        sext(pow2((w - 1) as nat) - 1, w) == pow2((w - 1) as nat) - 1,
        sext(pow2((w - 1) as nat) as int, w) == -pow2((w - 1) as nat),
{
    lemma_pow2_unfold(w);
}

pub open spec fn rd_of(insn: u32) -> u8 {
    ((insn >> 7u32) & 0x1f) as u8
}

pub open spec fn rs1_of(insn: u32) -> u8 {
    ((insn >> 15u32) & 0x1f) as u8
}

pub open spec fn rs2_of(insn: u32) -> u8 {
    ((insn >> 20u32) & 0x1f) as u8
}

pub open spec fn funct3_of(insn: u32) -> u8 {
    ((insn >> 12u32) & 7) as u8
}

pub open spec fn funct7_of(insn: u32) -> u8 {
    (insn >> 25u32) as u8
}

pub open spec fn funct2_of(insn: u32) -> u8 {
    ((insn >> 25u32) & 3) as u8
}

pub open spec fn rs3_of(insn: u32) -> u8 {
    (insn >> 27u32) as u8
}

/// I-type immediate: `insn[31:20]`, sign-extended.
pub open spec fn imm_i(insn: u32) -> int {
    sext((insn >> 20u32) as int, 12)
}

/// S-type immediate: `insn[31:25] ++ insn[11:7]`, sign-extended.
pub open spec fn imm_s(insn: u32) -> int {
    sext((((insn >> 25u32) << 5u32) | ((insn >> 7u32) & 0x1f)) as int, 12)
}

/// B-type immediate: `insn[31] ++ insn[7] ++ insn[30:25] ++ insn[11:8] ++ 0`, sign-extended.
pub open spec fn imm_b(insn: u32) -> int {
    sext(
        (((insn >> 31u32) << 12u32) | (((insn >> 7u32) & 1) << 11u32) | (((insn >> 25u32) & 0x3f)
            << 5u32) | (((insn >> 8u32) & 0xf) << 1u32)) as int,
        13,
    )
}

/// U-type immediate: `insn[31:12] ++ 0{12}`, as a signed 32-bit value.
pub open spec fn imm_u(insn: u32) -> int {
    sext((insn >> 12u32) as int, 20) * 4096
}

/// J-type immediate: `insn[31] ++ insn[19:12] ++ insn[20] ++ insn[30:21] ++ 0`, sign-extended.
pub open spec fn imm_j(insn: u32) -> int {
    sext(
        (((insn >> 31u32) << 20u32) | (((insn >> 12u32) & 0xff) << 12u32) | (((insn >> 20u32) & 1)
            << 11u32) | (((insn >> 21u32) & 0x3ff) << 1u32)) as int,
        21,
    )
}

// funct7, rs2, rs1, funct3, rd
pub struct RTypeSlots(pub u8, pub u8, pub u8, pub u8, pub u8);

impl RTypeSlots {
    pub fn funct7(&self) -> (r: u8)
        ensures
            r == self.0,
    {
        self.0
    }

    pub fn funct3(&self) -> (r: u8)
        ensures
            r == self.3,
    {
        self.3
    }

    pub fn rs2(&self) -> (r: u8)
        ensures
            r == self.1,
    {
        self.1
    }

    pub fn amo_funct(&self) -> (r: u8)
        ensures
            r == self.0 >> 2u8,
    {
        self.funct7() >> 2
    }

    pub fn amo_aq(&self) -> (r: bool)
        ensures
            r == (self.0 & 2 != 0),
    {
        self.funct7() & 0b10 != 0
    }

    pub fn amo_rl(&self) -> (r: bool)
        ensures
            r == (self.0 & 1 != 0),
    {
        self.funct7() & 0b01 != 0
    }

    pub fn r_args(&self) -> (r: RTypeArgs)
        ensures
            r == (RTypeArgs { rd: self.4, rs1: self.2, rs2: self.1 }),
    {
        RTypeArgs { rd: self.4, rs1: self.2, rs2: self.1 }
    }

    pub fn amo_args(&self) -> (r: AmoArgs)
        ensures
            r == (AmoArgs {
                aq: self.0 & 2 != 0,
                rl: self.0 & 1 != 0,
                rd: self.4,
                rs1: self.2,
                rs2: self.1,
            }),
    {
        AmoArgs { aq: self.amo_aq(), rl: self.amo_rl(), rd: self.4, rs1: self.2, rs2: self.1 }
    }

    pub fn amo_lr_args(&self) -> (r: AmoLrArgs)
        ensures
            r == (AmoLrArgs { aq: self.0 & 2 != 0, rl: self.0 & 1 != 0, rd: self.4, rs1: self.2 }),
    {
        AmoLrArgs { aq: self.amo_aq(), rl: self.amo_rl(), rd: self.4, rs1: self.2 }
    }

    pub fn rf_args(&self) -> (r: RFTypeArgs)
        ensures
            r == (RFTypeArgs {
                rm: rounding_mode_spec(self.3),
                rd: self.4,
                rs1: self.2,
                rs2: self.1,
            }),
    {
        RFTypeArgs { rm: RoundingMode::from_bits(self.funct3()), rd: self.4, rs1: self.2, rs2: self.1 }
    }

    pub fn r2_args(&self) -> (r: R2TypeArgs)
        ensures
            r == (R2TypeArgs { rd: self.4, rs1: self.2 }),
    {
        R2TypeArgs { rd: self.4, rs1: self.2 }
    }

    pub fn r2f_args(&self) -> (r: R2FTypeArgs)
        ensures
            r == (R2FTypeArgs { rm: rounding_mode_spec(self.3), rd: self.4, rs1: self.2 }),
    {
        R2FTypeArgs { rm: RoundingMode::from_bits(self.funct3()), rd: self.4, rs1: self.2 }
    }
}

// I-type: imm, rs1, funct3, rd, raw immediate field
// S-type & B-type: imm, rs2, rs1, funct3, raw immediate field
pub struct ISBTypeSlots(pub i32, pub u8, pub u8, pub u8, pub u32);

impl ISBTypeSlots {
    pub fn i_funct3(&self) -> (r: u8)
        ensures
            r == self.2,
    {
        self.2
    }

    pub fn sb_funct3(&self) -> (r: u8)
        ensures
            r == self.3,
    {
        self.3
    }

    /// `imm[11:5]`: the `funct7` of a 32-bit shift by an immediate.
    pub fn rv32_shift_funct(&self) -> (r: u8)
        ensures
            r == (self.4 >> 5u32) as u8,
    {
        (self.4 >> 5u32) as u8
    }

    /// `imm[11:6]`: the `funct6` of a 64-bit shift by an immediate.
    pub fn rv64_shift_funct(&self) -> (r: u8)
        ensures
            r == (self.4 >> 6u32) as u8,
    {
        (self.4 >> 6u32) as u8
    }

    pub fn fence_fm(&self) -> (r: u8)
        ensures
            r == (self.4 >> 8u32) as u8,
    {
        (self.4 >> 8u32) as u8
    }

    pub fn fence_pred(&self) -> (r: FenceSet)
        ensures
            r == fence_set_spec(((self.4 >> 4u32) & 0xf) as u8),
    {
        FenceSet::from_bits(((self.4 >> 4u32) & 0b1111) as u8)
    }

    pub fn fence_succ(&self) -> (r: FenceSet)
        ensures
            r == fence_set_spec((self.4 & 0xf) as u8),
    {
        FenceSet::from_bits((self.4 & 0b1111) as u8)
    }

    pub fn i_args(&self) -> (r: ITypeArgs)
        ensures
            r == (ITypeArgs { rd: self.3, rs1: self.1, imm: self.0 }),
    {
        ITypeArgs { rd: self.3, rs1: self.1, imm: self.0 }
    }

    pub fn sb_args(&self) -> (r: SBTypeArgs)
        ensures
            r == (SBTypeArgs { rs1: self.2, rs2: self.1, imm: self.0 }),
    {
        SBTypeArgs { rs1: self.2, rs2: self.1, imm: self.0 }
    }

    /// Shift operands with the six-bit amount of a 64-bit shift.
    pub fn shift_args(&self) -> (r: ShiftArgs)
        ensures
            r == (ShiftArgs { rd: self.3, rs1: self.1, shamt: (self.4 & 0x3f) as u8 }),
    {
        ShiftArgs { rd: self.3, rs1: self.1, shamt: (self.4 & 0x3f) as u8 }
    }

    /// Shift operands with the five-bit amount of a 32-bit shift.
    pub fn shiftw_args(&self) -> (r: ShiftArgs)
        ensures
            r == (ShiftArgs { rd: self.3, rs1: self.1, shamt: (self.4 & 0x1f) as u8 }),
    {
        ShiftArgs { rd: self.3, rs1: self.1, shamt: (self.4 & 0x1f) as u8 }
    }

    pub fn fence_args(&self) -> (r: FenceArgs)
        ensures
            r == (FenceArgs {
                fm: (self.4 >> 8u32) as u8,
                pred: fence_set_spec(((self.4 >> 4u32) & 0xf) as u8),
                succ: fence_set_spec((self.4 & 0xf) as u8),
            }),
    {
        FenceArgs { fm: self.fence_fm(), pred: self.fence_pred(), succ: self.fence_succ() }
    }
}

// U-type & J-type: imm, rd
pub struct UJTypeSlots(pub i32, pub u8);

impl UJTypeSlots {
    pub fn uj_args(&self) -> (r: UJTypeArgs)
        ensures
            r == (UJTypeArgs { rd: self.1, imm: self.0 }),
    {
        UJTypeArgs { rd: self.1, imm: self.0 }
    }
}

// rs3, funct2, rs2, rs1, funct3, rd
pub struct R4TypeSlots(pub u8, pub u8, pub u8, pub u8, pub u8, pub u8);

impl R4TypeSlots {
    pub fn funct2(&self) -> (r: u8)
        ensures
            r == self.1,
    {
        self.1
    }

    pub fn r4_args(&self) -> (r: R4TypeArgs)
        ensures
            r == (R4TypeArgs {
                rm: rounding_mode_spec(self.4),
                rd: self.5,
                rs1: self.3,
                rs2: self.2,
                rs3: self.0,
            }),
    {
        R4TypeArgs {
            rm: RoundingMode::from_bits(self.4),
            rd: self.5,
            rs1: self.3,
            rs2: self.2,
            rs3: self.0,
        }
    }
}

/// Sign-extends the `width`-bit pattern `uimm`.
pub fn simm_from_uimm(uimm: u32, width: u8) -> (r: i32)
    requires
        1 <= width <= 31,
        uimm < pow2(width as nat),
    ensures
        r == sext(uimm as int, width as nat),
{
    proof {
        lemma2_to64();
        lemma_pow2_strictly_increases(width as nat, 32);
        lemma_u32_shl_is_mul(1, width as u32);
        lemma_pow2_unfold(width as nat);
    }
    let a: u32 = 1u32 << (width as u32);
    proof {
        lemma_u32_shr_is_div(a, 1);
    }
    let b: u32 = a >> 1u32;
    if uimm < b {
        uimm as i32
    } else {
        -((a - uimm) as i32)
    }
}

pub fn disas_r(insn: u32) -> (r: RTypeSlots)
    ensures
        r == RTypeSlots(funct7_of(insn), rs2_of(insn), rs1_of(insn), funct3_of(insn), rd_of(insn)),
{
    let funct7 = (insn >> 25u32) as u8;
    let rs2 = ((insn >> 20u32) & 0b11111) as u8;
    let rs1 = ((insn >> 15u32) & 0b11111) as u8;
    let funct3 = ((insn >> 12u32) & 0b111) as u8;
    let rd = ((insn >> 7u32) & 0b11111) as u8;
    RTypeSlots(funct7, rs2, rs1, funct3, rd)
}

pub fn disas_i(insn: u32) -> (r: ISBTypeSlots)
    ensures
        r.0 == imm_i(insn),
        r.1 == rs1_of(insn),
        r.2 == funct3_of(insn),
        r.3 == rd_of(insn),
        r.4 == insn >> 20u32,
{
    proof {
        lemma2_to64();
        assert(insn >> 20u32 < 4096) by (bit_vector);
    }
    let imm = simm_from_uimm(insn >> 20u32, 12);
    let rs1 = ((insn >> 15u32) & 0b11111) as u8;
    let funct3 = ((insn >> 12u32) & 0b111) as u8;
    let rd = ((insn >> 7u32) & 0b11111) as u8;
    ISBTypeSlots(imm, rs1, funct3, rd, insn >> 20u32)
}

pub fn disas_s(insn: u32) -> (r: ISBTypeSlots)
    ensures
        r.0 == imm_s(insn),
        r.1 == rs2_of(insn),
        r.2 == rs1_of(insn),
        r.3 == funct3_of(insn),
{
    let raw = ((insn >> 25u32) << 5u32) | ((insn >> 7u32) & 0b11111);
    proof {
        lemma2_to64();
        assert(((insn >> 25u32) << 5u32) | ((insn >> 7u32) & 0b11111) < 4096) by (bit_vector);
    }
    let imm = simm_from_uimm(raw, 12);
    let rs2 = ((insn >> 20u32) & 0b11111) as u8;
    let rs1 = ((insn >> 15u32) & 0b11111) as u8;
    let funct3 = ((insn >> 12u32) & 0b111) as u8;
    ISBTypeSlots(imm, rs2, rs1, funct3, raw)
}

pub fn disas_b(insn: u32) -> (r: ISBTypeSlots)
    ensures
        r.0 == imm_b(insn),
        r.1 == rs2_of(insn),
        r.2 == rs1_of(insn),
        r.3 == funct3_of(insn),
{
    let a = insn >> 31u32;
    let b = (insn >> 7u32) & 1;
    let c = (insn >> 25u32) & 0b111111;
    let d = (insn >> 8u32) & 0b1111;
    let raw = (a << 12u32) | (b << 11u32) | (c << 5u32) | (d << 1u32);
    proof {
        lemma2_to64();
        assert((((insn >> 31u32) << 12u32) | (((insn >> 7u32) & 1) << 11u32) | (((insn >> 25u32)
            & 0x3f) << 5u32) | (((insn >> 8u32) & 0xf) << 1u32)) < 8192) by (bit_vector);
    }
    let imm = simm_from_uimm(raw, 13);
    let rs2 = ((insn >> 20u32) & 0b11111) as u8;
    let rs1 = ((insn >> 15u32) & 0b11111) as u8;
    let funct3 = ((insn >> 12u32) & 0b111) as u8;
    ISBTypeSlots(imm, rs2, rs1, funct3, raw)
}

pub fn disas_u(insn: u32) -> (r: UJTypeSlots)
    ensures
        r.0 == imm_u(insn),
        r.1 == rd_of(insn),
{
    proof {
        lemma2_to64();
        assert(insn >> 12u32 < 0x100000) by (bit_vector);
    }
    let imm = simm_from_uimm(insn >> 12u32, 20) * 4096;
    let rd = ((insn >> 7u32) & 0b11111) as u8;
    UJTypeSlots(imm, rd)
}

pub fn disas_j(insn: u32) -> (r: UJTypeSlots)
    ensures
        r.0 == imm_j(insn),
        r.1 == rd_of(insn),
{
    let a = insn >> 31u32;
    let b = (insn >> 12u32) & 0b11111111;
    let c = (insn >> 20u32) & 1;
    let d = (insn >> 21u32) & 0b1111111111;
    let imm = (a << 20u32) | (b << 12u32) | (c << 11u32) | (d << 1u32);
    proof {
        lemma2_to64();
        assert((((insn >> 31u32) << 20u32) | (((insn >> 12u32) & 0xff) << 12u32) | (((insn
            >> 20u32) & 1) << 11u32) | (((insn >> 21u32) & 0x3ff) << 1u32)) < 0x200000)
            by (bit_vector);
    }
    let imm = simm_from_uimm(imm, 21);
    let rd = ((insn >> 7u32) & 0b11111) as u8;
    UJTypeSlots(imm, rd)
}

pub fn disas_r4(insn: u32) -> (r: R4TypeSlots)
    ensures
        r == R4TypeSlots(
            rs3_of(insn),
            funct2_of(insn),
            rs2_of(insn),
            rs1_of(insn),
            funct3_of(insn),
            rd_of(insn),
        ),
{
    let rs3 = (insn >> 27u32) as u8;
    let funct2 = ((insn >> 25u32) & 0b11) as u8;
    let rs2 = ((insn >> 20u32) & 0b11111) as u8;
    let rs1 = ((insn >> 15u32) & 0b11111) as u8;
    let funct3 = ((insn >> 12u32) & 0b111) as u8;
    let rd = ((insn >> 7u32) & 0b11111) as u8;
    R4TypeSlots(rs3, funct2, rs2, rs1, funct3, rd)
}

} // verus!
