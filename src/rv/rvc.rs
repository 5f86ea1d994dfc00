use vstd::prelude::*;
use vstd::arithmetic::power2::lemma2_to64;
use crate::rv::args::{ITypeArgs, RTypeArgs, SBTypeArgs, ShiftArgs, UJTypeArgs};
use crate::rv::disas_helper::{sext, simm_from_uimm};
use crate::rv::insn::RvInsn;

verus! {

/// A decoded compressed (16-bit) instruction.
#[derive(Debug, Clone, Copy, PartialEq, Eq)]
pub enum RvCInsn {
    Invalid(u16),
    Addi4spn { rd: u8, imm: i32 },
    Fld { rd: u8, rs1: u8, imm: i32 },
    Lw { rd: u8, rs1: u8, imm: i32 },
    Flw { rd: u8, rs1: u8, imm: i32 },
    Ld { rd: u8, rs1: u8, imm: i32 },
    Fsd { rs1: u8, rs2: u8, imm: i32 },
    Sw { rs1: u8, rs2: u8, imm: i32 },
    Fsw { rs1: u8, rs2: u8, imm: i32 },
    Sd { rs1: u8, rs2: u8, imm: i32 },
    Addi { rd: u8, imm: i32 },
    Jal { imm: i32 },
    Addiw { rd: u8, imm: i32 },
    Li { rd: u8, imm: i32 },
    Lui { rd: u8, imm: i32 },
    Addi16sp { imm: i32 },
    Srli { rd: u8, imm: u8 },
    Srai { rd: u8, imm: u8 },
    Andi { rd: u8, imm: i32 },
    Sub { rd: u8, rs2: u8 },
    Xor { rd: u8, rs2: u8 },
    Or { rd: u8, rs2: u8 },
    And { rd: u8, rs2: u8 },
    Subw { rd: u8, rs2: u8 },
    Addw { rd: u8, rs2: u8 },
    J { imm: i32 },
    Beqz { rs1: u8, imm: i32 },
    Bnez { rs1: u8, imm: i32 },
    Slli { rd: u8, imm: u8 },
    Fldsp { rd: u8, imm: i32 },
    Lwsp { rd: u8, imm: i32 },
    Flwsp { rd: u8, imm: i32 },
    Ldsp { rd: u8, imm: i32 },
    Jr { rs1: u8 },
    Jalr { rs1: u8 },
    Mv { rd: u8, rs2: u8 },
    Ebreak,
    Add { rd: u8, rs2: u8 },
    Fsdsp { rs2: u8, imm: i32 },
    Swsp { rs2: u8, imm: i32 },
    Fswsp { rs2: u8, imm: i32 },
    Sdsp { rs2: u8, imm: i32 },
}

/// A three-bit compressed register field names one of `x8`..`x15`.
pub open spec fn creg_spec(x: u16) -> u8 {
    ((x & 7) + 8) as u8
}

fn creg(x: u16) -> (r: u8)
    ensures
        r == creg_spec(x),
{
    proof {
        assert(x & 7 <= 7) by (bit_vector);
    }
    ((x & 0b111) + 8) as u8
}

/// `nzuimm[5:4|9:6|2|3]` of `c.addi4spn`, from `insn[12:5]`.
pub open spec fn uimm_ciw(insn: u16) -> u16 {
    (((insn >> 11u16) & 3) << 4u16) | (((insn >> 7u16) & 0xf) << 6u16) | (((insn >> 6u16) & 1)
        << 2u16) | (((insn >> 5u16) & 1) << 3u16)
}

/// `uimm[5:3|7:6]` of a double-word compressed load/store.
pub open spec fn uimm_cl_d(insn: u16) -> u16 {
    (((insn >> 10u16) & 7) << 3u16) | (((insn >> 5u16) & 3) << 6u16)
}

/// `uimm[5:3|2|6]` of a word compressed load/store.
pub open spec fn uimm_cl_w(insn: u16) -> u16 {
    (((insn >> 10u16) & 7) << 3u16) | (((insn >> 6u16) & 1) << 2u16) | (((insn >> 5u16) & 1)
        << 6u16)
}

/// `imm[5|4:0]` from `insn[12|6:2]`, unsigned.
pub open spec fn uimm_ci(insn: u16) -> u16 {
    (((insn >> 12u16) & 1) << 5u16) | ((insn >> 2u16) & 0x1f)
}

/// `imm[5|4:0]`, sign-extended.
pub open spec fn imm_ci(insn: u16) -> int {
    sext(uimm_ci(insn) as int, 6)
}

/// `nzimm[9|4|6|8:7|5]` of `c.addi16sp`, sign-extended.
pub open spec fn imm_addi16sp(insn: u16) -> int {
    sext(
        ((((insn >> 12u16) & 1) << 9u16) | (((insn >> 6u16) & 1) << 4u16) | (((insn >> 5u16) & 1)
            << 6u16) | (((insn >> 3u16) & 3) << 7u16) | (((insn >> 2u16) & 1) << 5u16)) as int,
        10,
    )
}

/// `imm[11|4|9:8|10|6|7|3:1|5]` of `c.j` / `c.jal`, sign-extended.
pub open spec fn imm_cj(insn: u16) -> int {
    sext(
        ((((insn >> 12u16) & 1) << 11u16) | (((insn >> 11u16) & 1) << 4u16) | (((insn >> 9u16)
            & 3) << 8u16) | (((insn >> 8u16) & 1) << 10u16) | (((insn >> 7u16) & 1) << 6u16) | (((
        insn >> 6u16) & 1) << 7u16) | (((insn >> 3u16) & 7) << 1u16) | (((insn >> 2u16) & 1)
            << 5u16)) as int,
        12,
    )
}

/// `imm[8|4:3]` from `insn[12:10]` and `imm[7:6|2:1|5]` from `insn[6:2]`, sign-extended.
pub open spec fn imm_cb(insn: u16) -> int {
    sext(
        ((((insn >> 12u16) & 1) << 8u16) | (((insn >> 10u16) & 3) << 3u16) | (((insn >> 5u16) & 3)
            << 6u16) | (((insn >> 3u16) & 3) << 1u16) | (((insn >> 2u16) & 1) << 5u16)) as int,
        9,
    )
}

/// `uimm[5|4:2|7:6]` of `c.lwsp` / `c.flwsp`.
pub open spec fn uimm_ci_w(insn: u16) -> u16 {
    (((insn >> 12u16) & 1) << 5u16) | (((insn >> 4u16) & 7) << 2u16) | (((insn >> 2u16) & 3)
        << 6u16)
}

/// `uimm[5|4:3|8:6]` of `c.ldsp` / `c.fldsp`.
pub open spec fn uimm_ci_d(insn: u16) -> u16 {
    (((insn >> 12u16) & 1) << 5u16) | (((insn >> 5u16) & 3) << 3u16) | (((insn >> 2u16) & 7)
        << 6u16)
}

/// `uimm[5:2|7:6]` of `c.swsp` / `c.fswsp`.
pub open spec fn uimm_css_w(insn: u16) -> u16 {
    (((insn >> 9u16) & 0xf) << 2u16) | (((insn >> 7u16) & 3) << 6u16)
}

/// `uimm[5:3|8:6]` of `c.sdsp` / `c.fsdsp`.
pub open spec fn uimm_css_d(insn: u16) -> u16 {
    (((insn >> 10u16) & 7) << 3u16) | (((insn >> 7u16) & 7) << 6u16)
}

/// Full five-bit register field `insn[11:7]`.
pub open spec fn c_rd_full(insn: u16) -> u8 {
    ((insn >> 7u16) & 0x1f) as u8
}

/// Full five-bit register field `insn[6:2]`.
pub open spec fn c_rs2_full(insn: u16) -> u8 {
    ((insn >> 2u16) & 0x1f) as u8
}

/// Quadrant 0 (`insn[1:0] == 00`).
pub open spec fn decode_c0(xlen: usize, insn: u16) -> RvCInsn {
    let rs1 = creg_spec(insn >> 7u16);
    let rd = creg_spec(insn >> 2u16);
    let f3 = insn >> 13u16;
    if f3 == 0 {
        if uimm_ciw(insn) != 0 {
            RvCInsn::Addi4spn { rd, imm: uimm_ciw(insn) as i32 }
        } else {
            RvCInsn::Invalid(insn)
        }
    } else if f3 == 1 {
        RvCInsn::Fld { rd, rs1, imm: uimm_cl_d(insn) as i32 }
    } else if f3 == 2 {
        RvCInsn::Lw { rd, rs1, imm: uimm_cl_w(insn) as i32 }
    } else if f3 == 3 {
        if xlen == 32 {
            RvCInsn::Flw { rd, rs1, imm: uimm_cl_w(insn) as i32 }
        } else {
            RvCInsn::Ld { rd, rs1, imm: uimm_cl_d(insn) as i32 }
        }
    } else if f3 == 5 {
        RvCInsn::Fsd { rs1, rs2: rd, imm: uimm_cl_d(insn) as i32 }
    } else if f3 == 6 {
        RvCInsn::Sw { rs1, rs2: rd, imm: uimm_cl_w(insn) as i32 }
    } else if f3 == 7 {
        if xlen == 32 {
            RvCInsn::Fsw { rs1, rs2: rd, imm: uimm_cl_w(insn) as i32 }
        } else {
            RvCInsn::Sd { rs1, rs2: rd, imm: uimm_cl_d(insn) as i32 }
        }
    } else {
        RvCInsn::Invalid(insn)
    }
}

/// Quadrant 1, `funct3 == 100`: shifts, `andi` and register-register arithmetic.
pub open spec fn decode_c1_100(xlen: usize, insn: u16) -> RvCInsn {
    let b12 = (insn >> 12u16) & 1;
    let b11_10 = (insn >> 10u16) & 3;
    let b6_5 = (insn >> 5u16) & 3;
    let rd = creg_spec(insn >> 7u16);
    let rs2 = creg_spec(insn >> 2u16);
    if b11_10 == 0 {
        if xlen == 32 && b12 == 1 {
            RvCInsn::Invalid(insn)
        } else {
            RvCInsn::Srli { rd, imm: uimm_ci(insn) as u8 }
        }
    } else if b11_10 == 1 {
        if xlen == 32 && b12 == 1 {
            RvCInsn::Invalid(insn)
        } else {
            RvCInsn::Srai { rd, imm: uimm_ci(insn) as u8 }
        }
    } else if b11_10 == 2 {
        RvCInsn::Andi { rd, imm: imm_ci(insn) as i32 }
    } else if b12 == 0 {
        if b6_5 == 0 {
            RvCInsn::Sub { rd, rs2 }
        } else if b6_5 == 1 {
            RvCInsn::Xor { rd, rs2 }
        } else if b6_5 == 2 {
            RvCInsn::Or { rd, rs2 }
        } else {
            RvCInsn::And { rd, rs2 }
        }
    } else if xlen == 64 && b6_5 == 0 {
        RvCInsn::Subw { rd, rs2 }
    } else if xlen == 64 && b6_5 == 1 {
        RvCInsn::Addw { rd, rs2 }
    } else {
        RvCInsn::Invalid(insn)
    }
}

/// Quadrant 1 (`insn[1:0] == 01`).
pub open spec fn decode_c1(xlen: usize, insn: u16) -> RvCInsn {
    let f3 = insn >> 13u16;
    let rd = creg_spec(insn >> 7u16);
    if f3 == 0 {
        RvCInsn::Addi { rd: c_rd_full(insn), imm: imm_ci(insn) as i32 }
    } else if f3 == 1 {
        if xlen == 32 {
            RvCInsn::Jal { imm: imm_cj(insn) as i32 }
        } else {
            RvCInsn::Addiw { rd: c_rd_full(insn), imm: imm_ci(insn) as i32 }
        }
    } else if f3 == 2 {
        RvCInsn::Li { rd: c_rd_full(insn), imm: imm_ci(insn) as i32 }
    } else if f3 == 3 {
        if c_rd_full(insn) == 2 {
            RvCInsn::Addi16sp { imm: imm_addi16sp(insn) as i32 }
        } else {
            RvCInsn::Lui { rd: c_rd_full(insn), imm: (imm_ci(insn) * 4096) as i32 }
        }
    } else if f3 == 4 {
        decode_c1_100(xlen, insn)
    } else if f3 == 5 {
        RvCInsn::J { imm: imm_cj(insn) as i32 }
    } else if f3 == 6 {
        RvCInsn::Beqz { rs1: rd, imm: imm_cb(insn) as i32 }
    } else {
        RvCInsn::Bnez { rs1: rd, imm: imm_cb(insn) as i32 }
    }
}

/// Quadrant 2 (`insn[1:0] == 10`).
pub open spec fn decode_c2(xlen: usize, insn: u16) -> RvCInsn {
    let f3 = insn >> 13u16;
    let b12 = (insn >> 12u16) & 1;
    let rd = c_rd_full(insn);
    let rs2 = c_rs2_full(insn);
    if f3 == 0 {
        RvCInsn::Slli { rd, imm: uimm_ci(insn) as u8 }
    } else if f3 == 1 {
        RvCInsn::Fldsp { rd, imm: uimm_ci_d(insn) as i32 }
    } else if f3 == 2 {
        if rd != 0 {
            RvCInsn::Lwsp { rd, imm: uimm_ci_w(insn) as i32 }
        } else {
            RvCInsn::Invalid(insn)
        }
    } else if f3 == 3 {
        if xlen == 32 {
            RvCInsn::Flwsp { rd, imm: uimm_ci_w(insn) as i32 }
        } else if rd != 0 {
            RvCInsn::Ldsp { rd, imm: uimm_ci_d(insn) as i32 }
        } else {
            RvCInsn::Invalid(insn)
        }
    } else if f3 == 4 {
        if b12 == 0 {
            if rs2 == 0 {
                if rd != 0 {
                    RvCInsn::Jr { rs1: rd }
                } else {
                    RvCInsn::Invalid(insn)
                }
            } else {
                RvCInsn::Mv { rd, rs2 }
            }
        } else if rs2 == 0 {
            if rd == 0 {
                RvCInsn::Ebreak
            } else {
                RvCInsn::Jalr { rs1: rd }
            }
        } else {
            RvCInsn::Add { rd, rs2 }
        }
    } else if f3 == 5 {
        RvCInsn::Fsdsp { rs2, imm: uimm_css_d(insn) as i32 }
    } else if f3 == 6 {
        RvCInsn::Swsp { rs2, imm: uimm_css_w(insn) as i32 }
    } else if xlen == 32 {
        RvCInsn::Fswsp { rs2, imm: uimm_css_w(insn) as i32 }
    } else {
        RvCInsn::Sdsp { rs2, imm: uimm_css_d(insn) as i32 }
    }
}

/// The compressed instruction that the 16-bit word `insn` encodes (`insn[1:0] != 11`).
pub open spec fn decode16(xlen: usize, insn: u16) -> RvCInsn {
    if insn & 3 == 0 {
        decode_c0(xlen, insn)
    } else if insn & 3 == 1 {
        decode_c1(xlen, insn)
    } else {
        decode_c2(xlen, insn)
    }
}

/// The full-width instruction that a compressed instruction stands for.
pub open spec fn expand(c: RvCInsn) -> RvInsn {
    match c {
        RvCInsn::Invalid(x) => RvInsn::Invalid(x as u32),
        RvCInsn::Addi4spn { rd, imm } => RvInsn::Addi(ITypeArgs { rd, rs1: 2, imm }),
        RvCInsn::Fld { rd, rs1, imm } => RvInsn::Fld(ITypeArgs { rd, rs1, imm }),
        RvCInsn::Lw { rd, rs1, imm } => RvInsn::Lw(ITypeArgs { rd, rs1, imm }),
        RvCInsn::Flw { rd, rs1, imm } => RvInsn::Flw(ITypeArgs { rd, rs1, imm }),
        RvCInsn::Ld { rd, rs1, imm } => RvInsn::Ld(ITypeArgs { rd, rs1, imm }),
        RvCInsn::Fsd { rs1, rs2, imm } => RvInsn::Fsd(SBTypeArgs { rs1, rs2, imm }),
        RvCInsn::Sw { rs1, rs2, imm } => RvInsn::Sw(SBTypeArgs { rs1, rs2, imm }),
        RvCInsn::Fsw { rs1, rs2, imm } => RvInsn::Fsw(SBTypeArgs { rs1, rs2, imm }),
        RvCInsn::Sd { rs1, rs2, imm } => RvInsn::Sd(SBTypeArgs { rs1, rs2, imm }),
        RvCInsn::Addi { rd, imm } => RvInsn::Addi(ITypeArgs { rd, rs1: rd, imm }),
        RvCInsn::Jal { imm } => RvInsn::Jal(UJTypeArgs { rd: 1, imm }),
        RvCInsn::Addiw { rd, imm } => RvInsn::Addiw(ITypeArgs { rd, rs1: rd, imm }),
        RvCInsn::Li { rd, imm } => RvInsn::Addi(ITypeArgs { rd, rs1: 0, imm }),
        RvCInsn::Lui { rd, imm } => RvInsn::Lui(UJTypeArgs { rd, imm }),
        RvCInsn::Addi16sp { imm } => RvInsn::Addi(ITypeArgs { rd: 2, rs1: 2, imm }),
        RvCInsn::Srli { rd, imm } => RvInsn::Srli(ShiftArgs { rd, rs1: rd, shamt: imm }),
        RvCInsn::Srai { rd, imm } => RvInsn::Srai(ShiftArgs { rd, rs1: rd, shamt: imm }),
        RvCInsn::Andi { rd, imm } => RvInsn::Andi(ITypeArgs { rd, rs1: rd, imm }),
        RvCInsn::Sub { rd, rs2 } => RvInsn::Sub(RTypeArgs { rd, rs1: rd, rs2 }),
        RvCInsn::Xor { rd, rs2 } => RvInsn::Xor(RTypeArgs { rd, rs1: rd, rs2 }),
        RvCInsn::Or { rd, rs2 } => RvInsn::Or(RTypeArgs { rd, rs1: rd, rs2 }),
        RvCInsn::And { rd, rs2 } => RvInsn::And(RTypeArgs { rd, rs1: rd, rs2 }),
        RvCInsn::Subw { rd, rs2 } => RvInsn::Subw(RTypeArgs { rd, rs1: rd, rs2 }),
        RvCInsn::Addw { rd, rs2 } => RvInsn::Addw(RTypeArgs { rd, rs1: rd, rs2 }),
        RvCInsn::J { imm } => RvInsn::Jal(UJTypeArgs { rd: 0, imm }),
        RvCInsn::Beqz { rs1, imm } => RvInsn::Beq(SBTypeArgs { rs1, rs2: 0, imm }),
        RvCInsn::Bnez { rs1, imm } => RvInsn::Bne(SBTypeArgs { rs1, rs2: 0, imm }),
        RvCInsn::Slli { rd, imm } => RvInsn::Slli(ShiftArgs { rd, rs1: rd, shamt: imm }),
        RvCInsn::Fldsp { rd, imm } => RvInsn::Fld(ITypeArgs { rd, rs1: 2, imm }),
        RvCInsn::Lwsp { rd, imm } => RvInsn::Lw(ITypeArgs { rd, rs1: 2, imm }),
        RvCInsn::Flwsp { rd, imm } => RvInsn::Flw(ITypeArgs { rd, rs1: 2, imm }),
        RvCInsn::Ldsp { rd, imm } => RvInsn::Ld(ITypeArgs { rd, rs1: 2, imm }),
        RvCInsn::Jr { rs1 } => RvInsn::Jalr(ITypeArgs { rd: 0, rs1, imm: 0 }),
        RvCInsn::Jalr { rs1 } => RvInsn::Jalr(ITypeArgs { rd: 1, rs1, imm: 0 }),
        RvCInsn::Mv { rd, rs2 } => RvInsn::Add(RTypeArgs { rd, rs1: 0, rs2 }),
        RvCInsn::Ebreak => RvInsn::Ebreak,
        RvCInsn::Add { rd, rs2 } => RvInsn::Add(RTypeArgs { rd, rs1: rd, rs2 }),
        RvCInsn::Fsdsp { rs2, imm } => RvInsn::Fsd(SBTypeArgs { rs1: 2, rs2, imm }),
        RvCInsn::Swsp { rs2, imm } => RvInsn::Sw(SBTypeArgs { rs1: 2, rs2, imm }),
        RvCInsn::Fswsp { rs2, imm } => RvInsn::Fsw(SBTypeArgs { rs1: 2, rs2, imm }),
        RvCInsn::Sdsp { rs2, imm } => RvInsn::Sd(SBTypeArgs { rs1: 2, rs2, imm }),
    }
}
impl RvCInsn {
    /// Expands to the equivalent full-width instruction.
    pub fn to_insn(self) -> (r: RvInsn)
        ensures
            r == expand(self),
    {
        match self {
            RvCInsn::Invalid(x) => RvInsn::Invalid(x as u32),
            RvCInsn::Addi4spn { rd, imm } => RvInsn::Addi(ITypeArgs { rd, rs1: 2, imm }),
            RvCInsn::Fld { rd, rs1, imm } => RvInsn::Fld(ITypeArgs { rd, rs1, imm }),
            RvCInsn::Lw { rd, rs1, imm } => RvInsn::Lw(ITypeArgs { rd, rs1, imm }),
            RvCInsn::Flw { rd, rs1, imm } => RvInsn::Flw(ITypeArgs { rd, rs1, imm }),
            RvCInsn::Ld { rd, rs1, imm } => RvInsn::Ld(ITypeArgs { rd, rs1, imm }),
            RvCInsn::Fsd { rs1, rs2, imm } => RvInsn::Fsd(SBTypeArgs { rs1, rs2, imm }),
            RvCInsn::Sw { rs1, rs2, imm } => RvInsn::Sw(SBTypeArgs { rs1, rs2, imm }),
            RvCInsn::Fsw { rs1, rs2, imm } => RvInsn::Fsw(SBTypeArgs { rs1, rs2, imm }),
            RvCInsn::Sd { rs1, rs2, imm } => RvInsn::Sd(SBTypeArgs { rs1, rs2, imm }),
            RvCInsn::Addi { rd, imm } => RvInsn::Addi(ITypeArgs { rd, rs1: rd, imm }),
            RvCInsn::Jal { imm } => RvInsn::Jal(UJTypeArgs { rd: 1, imm }),
            RvCInsn::Addiw { rd, imm } => RvInsn::Addiw(ITypeArgs { rd, rs1: rd, imm }),
            RvCInsn::Li { rd, imm } => RvInsn::Addi(ITypeArgs { rd, rs1: 0, imm }),
            RvCInsn::Lui { rd, imm } => RvInsn::Lui(UJTypeArgs { rd, imm }),
            RvCInsn::Addi16sp { imm } => RvInsn::Addi(ITypeArgs { rd: 2, rs1: 2, imm }),
            RvCInsn::Srli { rd, imm } => RvInsn::Srli(ShiftArgs { rd, rs1: rd, shamt: imm }),
            RvCInsn::Srai { rd, imm } => RvInsn::Srai(ShiftArgs { rd, rs1: rd, shamt: imm }),
            RvCInsn::Andi { rd, imm } => RvInsn::Andi(ITypeArgs { rd, rs1: rd, imm }),
            RvCInsn::Sub { rd, rs2 } => RvInsn::Sub(RTypeArgs { rd, rs1: rd, rs2 }),
            RvCInsn::Xor { rd, rs2 } => RvInsn::Xor(RTypeArgs { rd, rs1: rd, rs2 }),
            RvCInsn::Or { rd, rs2 } => RvInsn::Or(RTypeArgs { rd, rs1: rd, rs2 }),
            RvCInsn::And { rd, rs2 } => RvInsn::And(RTypeArgs { rd, rs1: rd, rs2 }),
            RvCInsn::Subw { rd, rs2 } => RvInsn::Subw(RTypeArgs { rd, rs1: rd, rs2 }),
            RvCInsn::Addw { rd, rs2 } => RvInsn::Addw(RTypeArgs { rd, rs1: rd, rs2 }),
            RvCInsn::J { imm } => RvInsn::Jal(UJTypeArgs { rd: 0, imm }),
            RvCInsn::Beqz { rs1, imm } => RvInsn::Beq(SBTypeArgs { rs1, rs2: 0, imm }),
            RvCInsn::Bnez { rs1, imm } => RvInsn::Bne(SBTypeArgs { rs1, rs2: 0, imm }),
            RvCInsn::Slli { rd, imm } => RvInsn::Slli(ShiftArgs { rd, rs1: rd, shamt: imm }),
            RvCInsn::Fldsp { rd, imm } => RvInsn::Fld(ITypeArgs { rd, rs1: 2, imm }),
            RvCInsn::Lwsp { rd, imm } => RvInsn::Lw(ITypeArgs { rd, rs1: 2, imm }),
            RvCInsn::Flwsp { rd, imm } => RvInsn::Flw(ITypeArgs { rd, rs1: 2, imm }),
            RvCInsn::Ldsp { rd, imm } => RvInsn::Ld(ITypeArgs { rd, rs1: 2, imm }),
            RvCInsn::Jr { rs1 } => RvInsn::Jalr(ITypeArgs { rd: 0, rs1, imm: 0 }),
            RvCInsn::Jalr { rs1 } => RvInsn::Jalr(ITypeArgs { rd: 1, rs1, imm: 0 }),
            RvCInsn::Mv { rd, rs2 } => RvInsn::Add(RTypeArgs { rd, rs1: 0, rs2 }),
            RvCInsn::Ebreak => RvInsn::Ebreak,
            RvCInsn::Add { rd, rs2 } => RvInsn::Add(RTypeArgs { rd, rs1: rd, rs2 }),
            RvCInsn::Fsdsp { rs2, imm } => RvInsn::Fsd(SBTypeArgs { rs1: 2, rs2, imm }),
            RvCInsn::Swsp { rs2, imm } => RvInsn::Sw(SBTypeArgs { rs1: 2, rs2, imm }),
            RvCInsn::Fswsp { rs2, imm } => RvInsn::Fsw(SBTypeArgs { rs1: 2, rs2, imm }),
            RvCInsn::Sdsp { rs2, imm } => RvInsn::Sd(SBTypeArgs { rs1: 2, rs2, imm }),
        }
    }
}

/// Decoder of compressed instructions for a given register width.
pub struct RvCDecoder {
    pub xlen: usize,
}

impl RvCDecoder {
    pub fn new(xlen: usize) -> (r: RvCDecoder)
        requires
            xlen == 32 || xlen == 64,
        ensures
            r.xlen == xlen,
    {
        RvCDecoder { xlen }
    }

    /// Decodes a 16-bit word whose two low bits are not `11`.
    pub fn disas(&self, insn: u16) -> (r: RvCInsn)
        requires
            insn & 3 != 3,
        ensures
            r == decode16(self.xlen, insn),
    {
        match insn & 0b11 {
            0b00 => self.disas_00(insn),
            0b01 => self.disas_01(insn),
            _ => self.disas_10(insn),
        }
    }

    fn disas_00(&self, insn: u16) -> (r: RvCInsn)
        ensures
            r == decode_c0(self.xlen, insn),
    {
        let rs1 = creg(insn >> 7u16);
        let rd = creg(insn >> 2u16);
        let nzuimm = (((insn >> 11u16) & 3) << 4u16) | (((insn >> 7u16) & 0xf) << 6u16) | (((insn
            >> 6u16) & 1) << 2u16) | (((insn >> 5u16) & 1) << 3u16);
        let uimm_d = (((insn >> 10u16) & 7) << 3u16) | (((insn >> 5u16) & 3) << 6u16);
        let uimm_w = (((insn >> 10u16) & 7) << 3u16) | (((insn >> 6u16) & 1) << 2u16) | (((insn
            >> 5u16) & 1) << 6u16);
        match insn >> 13u16 {
            0b000 => {
                if nzuimm != 0 {
                    RvCInsn::Addi4spn { rd, imm: nzuimm as i32 }
                } else {
                    RvCInsn::Invalid(insn)
                }
            },
            0b001 => RvCInsn::Fld { rd, rs1, imm: uimm_d as i32 },
            0b010 => RvCInsn::Lw { rd, rs1, imm: uimm_w as i32 },
            0b011 => {
                if self.xlen == 32 {
                    RvCInsn::Flw { rd, rs1, imm: uimm_w as i32 }
                } else {
                    RvCInsn::Ld { rd, rs1, imm: uimm_d as i32 }
                }
            },
            0b101 => RvCInsn::Fsd { rs1, rs2: rd, imm: uimm_d as i32 },
            0b110 => RvCInsn::Sw { rs1, rs2: rd, imm: uimm_w as i32 },
            0b111 => {
                if self.xlen == 32 {
                    RvCInsn::Fsw { rs1, rs2: rd, imm: uimm_w as i32 }
                } else {
                    RvCInsn::Sd { rs1, rs2: rd, imm: uimm_d as i32 }
                }
            },
            _ => RvCInsn::Invalid(insn),
        }
    }

    fn disas_01(&self, insn: u16) -> (r: RvCInsn)
        ensures
            r == decode_c1(self.xlen, insn),
    {
        let full_rd = ((insn >> 7u16) & 0x1f) as u8;
        let rd = creg(insn >> 7u16);
        let uimm = (((insn >> 12u16) & 1) << 5u16) | ((insn >> 2u16) & 0x1f);
        let u16sp = (((insn >> 12u16) & 1) << 9u16) | (((insn >> 6u16) & 1) << 4u16) | (((insn
            >> 5u16) & 1) << 6u16) | (((insn >> 3u16) & 3) << 7u16) | (((insn >> 2u16) & 1)
            << 5u16);
        let uj = (((insn >> 12u16) & 1) << 11u16) | (((insn >> 11u16) & 1) << 4u16) | (((insn
            >> 9u16) & 3) << 8u16) | (((insn >> 8u16) & 1) << 10u16) | (((insn >> 7u16) & 1)
            << 6u16) | (((insn >> 6u16) & 1) << 7u16) | (((insn >> 3u16) & 7) << 1u16) | (((insn
            >> 2u16) & 1) << 5u16);
        let ub = (((insn >> 12u16) & 1) << 8u16) | (((insn >> 10u16) & 3) << 3u16) | (((insn
            >> 5u16) & 3) << 6u16) | (((insn >> 3u16) & 3) << 1u16) | (((insn >> 2u16) & 1)
            << 5u16);
        proof {
            lemma2_to64();
            assert((((insn >> 12u16) & 1) << 5u16) | ((insn >> 2u16) & 0x1f) < 64) by (bit_vector);
            assert((((insn >> 12u16) & 1) << 9u16) | (((insn >> 6u16) & 1) << 4u16) | (((insn
                >> 5u16) & 1) << 6u16) | (((insn >> 3u16) & 3) << 7u16) | (((insn >> 2u16) & 1)
                << 5u16) < 1024) by (bit_vector);
            assert((((insn >> 12u16) & 1) << 11u16) | (((insn >> 11u16) & 1) << 4u16) | (((insn
                >> 9u16) & 3) << 8u16) | (((insn >> 8u16) & 1) << 10u16) | (((insn >> 7u16) & 1)
                << 6u16) | (((insn >> 6u16) & 1) << 7u16) | (((insn >> 3u16) & 7) << 1u16) | (((
            insn >> 2u16) & 1) << 5u16) < 4096) by (bit_vector);
            assert((((insn >> 12u16) & 1) << 8u16) | (((insn >> 10u16) & 3) << 3u16) | (((insn
                >> 5u16) & 3) << 6u16) | (((insn >> 3u16) & 3) << 1u16) | (((insn >> 2u16) & 1)
                << 5u16) < 512) by (bit_vector);
        }
        let imm = simm_from_uimm(uimm as u32, 6);
        let imm_sp = simm_from_uimm(u16sp as u32, 10);
        let imm_j = simm_from_uimm(uj as u32, 12);
        let imm_b = simm_from_uimm(ub as u32, 9);
        match insn >> 13u16 {
            0b000 => RvCInsn::Addi { rd: full_rd, imm },
            0b001 => {
                if self.xlen == 32 {
                    RvCInsn::Jal { imm: imm_j }
                } else {
                    RvCInsn::Addiw { rd: full_rd, imm }
                }
            },
            0b010 => RvCInsn::Li { rd: full_rd, imm },
            0b011 => {
                if full_rd == 2 {
                    RvCInsn::Addi16sp { imm: imm_sp }
                } else {
                    RvCInsn::Lui { rd: full_rd, imm: imm * 4096 }
                }
            },
            0b100 => self.disas_01_100(insn),
            0b101 => RvCInsn::J { imm: imm_j },
            0b110 => RvCInsn::Beqz { rs1: rd, imm: imm_b },
            _ => RvCInsn::Bnez { rs1: rd, imm: imm_b },
        }
    }

    fn disas_01_100(&self, insn: u16) -> (r: RvCInsn)
        ensures
            r == decode_c1_100(self.xlen, insn),
    {
        let b12 = (insn >> 12u16) & 1;
        let b11_10 = (insn >> 10u16) & 3;
        let b6_5 = (insn >> 5u16) & 3;
        let rd = creg(insn >> 7u16);
        let rs2 = creg(insn >> 2u16);
        let uimm = (((insn >> 12u16) & 1) << 5u16) | ((insn >> 2u16) & 0x1f);
        proof {
            lemma2_to64();
            assert((((insn >> 12u16) & 1) << 5u16) | ((insn >> 2u16) & 0x1f) < 64) by (bit_vector);
        }
        let imm = simm_from_uimm(uimm as u32, 6);
        if b11_10 == 0 {
            if self.xlen == 32 && b12 == 1 {
                RvCInsn::Invalid(insn)
            } else {
                RvCInsn::Srli { rd, imm: uimm as u8 }
            }
        } else if b11_10 == 1 {
            if self.xlen == 32 && b12 == 1 {
                RvCInsn::Invalid(insn)
            } else {
                RvCInsn::Srai { rd, imm: uimm as u8 }
            }
        } else if b11_10 == 2 {
            RvCInsn::Andi { rd, imm }
        } else if b12 == 0 {
            if b6_5 == 0 {
                RvCInsn::Sub { rd, rs2 }
            } else if b6_5 == 1 {
                RvCInsn::Xor { rd, rs2 }
            } else if b6_5 == 2 {
                RvCInsn::Or { rd, rs2 }
            } else {
                RvCInsn::And { rd, rs2 }
            }
        } else if self.xlen == 64 && b6_5 == 0 {
            RvCInsn::Subw { rd, rs2 }
        } else if self.xlen == 64 && b6_5 == 1 {
            RvCInsn::Addw { rd, rs2 }
        } else {
            RvCInsn::Invalid(insn)
        }
    }

    fn disas_10(&self, insn: u16) -> (r: RvCInsn)
        ensures
            r == decode_c2(self.xlen, insn),
    {
        let b12 = (insn >> 12u16) & 1;
        let rd = ((insn >> 7u16) & 0x1f) as u8;
        let rs2 = ((insn >> 2u16) & 0x1f) as u8;
        let shamt = (((insn >> 12u16) & 1) << 5u16) | ((insn >> 2u16) & 0x1f);
        let ci_w = (((insn >> 12u16) & 1) << 5u16) | (((insn >> 4u16) & 7) << 2u16) | (((insn
            >> 2u16) & 3) << 6u16);
        let ci_d = (((insn >> 12u16) & 1) << 5u16) | (((insn >> 5u16) & 3) << 3u16) | (((insn
            >> 2u16) & 7) << 6u16);
        let css_w = (((insn >> 9u16) & 0xf) << 2u16) | (((insn >> 7u16) & 3) << 6u16);
        let css_d = (((insn >> 10u16) & 7) << 3u16) | (((insn >> 7u16) & 7) << 6u16);
        match insn >> 13u16 {
            0b000 => RvCInsn::Slli { rd, imm: shamt as u8 },
            0b001 => RvCInsn::Fldsp { rd, imm: ci_d as i32 },
            0b010 => {
                if rd != 0 {
                    RvCInsn::Lwsp { rd, imm: ci_w as i32 }
                } else {
                    RvCInsn::Invalid(insn)
                }
            },
            0b011 => {
                if self.xlen == 32 {
                    RvCInsn::Flwsp { rd, imm: ci_w as i32 }
                } else if rd != 0 {
                    RvCInsn::Ldsp { rd, imm: ci_d as i32 }
                } else {
                    RvCInsn::Invalid(insn)
                }
            },
            0b100 => {
                if b12 == 0 {
                    if rs2 == 0 {
                        if rd != 0 {
                            RvCInsn::Jr { rs1: rd }
                        } else {
                            RvCInsn::Invalid(insn)
                        }
                    } else {
                        RvCInsn::Mv { rd, rs2 }
                    }
                } else if rs2 == 0 {
                    if rd == 0 {
                        RvCInsn::Ebreak
                    } else {
                        RvCInsn::Jalr { rs1: rd }
                    }
                } else {
                    RvCInsn::Add { rd, rs2 }
                }
            },
            0b101 => RvCInsn::Fsdsp { rs2, imm: css_d as i32 },
            0b110 => RvCInsn::Swsp { rs2, imm: css_w as i32 },
            _ => {
                if self.xlen == 32 {
                    RvCInsn::Fswsp { rs2, imm: css_w as i32 }
                } else {
                    RvCInsn::Sdsp { rs2, imm: css_d as i32 }
                }
            },
        }
    }
}

} // verus!
