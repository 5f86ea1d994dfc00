use vstd::prelude::*;
use crate::rv::args::{
    RTypeArgs, ITypeArgs, SBTypeArgs, UJTypeArgs, ShiftArgs, AmoArgs, AmoLrArgs, FenceArgs,
    R4TypeArgs, RFTypeArgs, R2TypeArgs, R2FTypeArgs, fence_set_spec, rounding_mode_spec,
};
use crate::rv::disas_helper::{
    disas_r, disas_i, disas_s, disas_b, disas_u, disas_j, disas_r4, rd_of, rs1_of, rs2_of,
    funct3_of, funct7_of, funct2_of, rs3_of, imm_i, imm_s, imm_b, imm_u, imm_j,
};

verus! {

/// A decoded RV64GC instruction with its operands.
#[derive(Debug, Clone, Copy, PartialEq, Eq)]
pub enum RvInsn {
    // Invalid encoding; the word is kept
    Invalid(u32),
    // Privileged
    Ecall,
    Ebreak,
    // RV32I
    Lui(UJTypeArgs),
    Auipc(UJTypeArgs),
    Jal(UJTypeArgs),
    Jalr(ITypeArgs),
    Beq(SBTypeArgs),
    Bne(SBTypeArgs),
    Blt(SBTypeArgs),
    Bge(SBTypeArgs),
    Bltu(SBTypeArgs),
    Bgeu(SBTypeArgs),
    Lb(ITypeArgs),
    Lh(ITypeArgs),
    Lw(ITypeArgs),
    Lbu(ITypeArgs),
    Lhu(ITypeArgs),
    Sb(SBTypeArgs),
    Sh(SBTypeArgs),
    Sw(SBTypeArgs),
    Addi(ITypeArgs),
    Slti(ITypeArgs),
    Sltiu(ITypeArgs),
    Xori(ITypeArgs),
    Ori(ITypeArgs),
    Andi(ITypeArgs),
    Slli(ShiftArgs),
    Srli(ShiftArgs),
    Srai(ShiftArgs),
    Add(RTypeArgs),
    Sub(RTypeArgs),
    Sll(RTypeArgs),
    Slt(RTypeArgs),
    Sltu(RTypeArgs),
    Xor(RTypeArgs),
    Srl(RTypeArgs),
    Sra(RTypeArgs),
    Or(RTypeArgs),
    And(RTypeArgs),
    Fence(FenceArgs),
    // Zifencei
    FenceI(ITypeArgs),
    // RV64I
    Lwu(ITypeArgs),
    Ld(ITypeArgs),
    Sd(SBTypeArgs),
    Addiw(ITypeArgs),
    Slliw(ShiftArgs),
    Srliw(ShiftArgs),
    Sraiw(ShiftArgs),
    Addw(RTypeArgs),
    Subw(RTypeArgs),
    Sllw(RTypeArgs),
    Srlw(RTypeArgs),
    Sraw(RTypeArgs),
    // RV32M
    Mul(RTypeArgs),
    Mulh(RTypeArgs),
    Mulhsu(RTypeArgs),
    Mulhu(RTypeArgs),
    Div(RTypeArgs),
    Divu(RTypeArgs),
    Rem(RTypeArgs),
    Remu(RTypeArgs),
    // RV64M
    Mulw(RTypeArgs),
    Divw(RTypeArgs),
    Divuw(RTypeArgs),
    Remw(RTypeArgs),
    Remuw(RTypeArgs),
    // RV32A
    LrW(AmoLrArgs),
    ScW(AmoArgs),
    AmoSwapW(AmoArgs),
    AmoAddW(AmoArgs),
    AmoXorW(AmoArgs),
    AmoAndW(AmoArgs),
    AmoOrW(AmoArgs),
    AmoMinW(AmoArgs),
    AmoMaxW(AmoArgs),
    AmoMinuW(AmoArgs),
    AmoMaxuW(AmoArgs),
    // RV64A
    LrD(AmoLrArgs),
    ScD(AmoArgs),
    AmoSwapD(AmoArgs),
    AmoAddD(AmoArgs),
    AmoXorD(AmoArgs),
    AmoAndD(AmoArgs),
    AmoOrD(AmoArgs),
    AmoMinD(AmoArgs),
    AmoMaxD(AmoArgs),
    AmoMinuD(AmoArgs),
    AmoMaxuD(AmoArgs),
    // RV32F
    Flw(ITypeArgs),
    Fsw(SBTypeArgs),
    FmaddS(R4TypeArgs),
    FmsubS(R4TypeArgs),
    FnmsubS(R4TypeArgs),
    FnmaddS(R4TypeArgs),
    FaddS(RFTypeArgs),
    FsubS(RFTypeArgs),
    FmulS(RFTypeArgs),
    FdivS(RFTypeArgs),
    FsqrtS(R2FTypeArgs),
    FsgnjS(RTypeArgs),
    FsgnjnS(RTypeArgs),
    FsgnjxS(RTypeArgs),
    FminS(RTypeArgs),
    FmaxS(RTypeArgs),
    FcvtWS(R2FTypeArgs),
    FcvtWuS(R2FTypeArgs),
    FmvXW(R2TypeArgs),
    FeqS(RTypeArgs),
    FltS(RTypeArgs),
    FleS(RTypeArgs),
    FclassS(R2TypeArgs),
    FcvtSW(R2FTypeArgs),
    FcvtSWu(R2FTypeArgs),
    FmvWX(R2TypeArgs),
    // RV64F
    FcvtLS(R2FTypeArgs),
    FcvtLuS(R2FTypeArgs),
    FcvtSL(R2FTypeArgs),
    FcvtSLu(R2FTypeArgs),
    // RV32D
    Fld(ITypeArgs),
    Fsd(SBTypeArgs),
    FmaddD(R4TypeArgs),
    FmsubD(R4TypeArgs),
    FnmsubD(R4TypeArgs),
    FnmaddD(R4TypeArgs),
    FaddD(RFTypeArgs),
    FsubD(RFTypeArgs),
    FmulD(RFTypeArgs),
    FdivD(RFTypeArgs),
    FsqrtD(R2FTypeArgs),
    FsgnjD(RTypeArgs),
    FsgnjnD(RTypeArgs),
    FsgnjxD(RTypeArgs),
    FminD(RTypeArgs),
    FmaxD(RTypeArgs),
    FcvtSD(R2FTypeArgs),
    FcvtDS(R2FTypeArgs),
    FeqD(RTypeArgs),
    FltD(RTypeArgs),
    FleD(RTypeArgs),
    FclassD(R2TypeArgs),
    FcvtWD(R2FTypeArgs),
    FcvtWuD(R2FTypeArgs),
    FcvtDW(R2FTypeArgs),
    FcvtDWu(R2FTypeArgs),
    // RV64D
    FcvtLD(R2FTypeArgs),
    FcvtLuD(R2FTypeArgs),
    FmvXD(R2TypeArgs),
    FcvtDL(R2FTypeArgs),
    FcvtDLu(R2FTypeArgs),
    FmvDX(R2TypeArgs),
}

/// The five-bit major opcode, `insn[6:2]`.
pub open spec fn opcode_of(insn: u32) -> u32 {
    (insn >> 2u32) & 0x1f
}

/// `funct5` of an atomic memory operation, `insn[31:27]`.
pub open spec fn funct5_of(insn: u32) -> u8 {
    (insn >> 27u32) as u8
}

/// `imm[11:5]` of an I-type word: the `funct7` of a 32-bit shift.
pub open spec fn funct7_of_imm(insn: u32) -> u8 {
    ((insn >> 20u32) >> 5u32) as u8
}

/// `imm[11:6]` of an I-type word: the `funct6` of a 64-bit shift.
pub open spec fn funct6_of_imm(insn: u32) -> u8 {
    ((insn >> 20u32) >> 6u32) as u8
}

pub open spec fn i_args_of(insn: u32) -> ITypeArgs {
    ITypeArgs { rd: rd_of(insn), rs1: rs1_of(insn), imm: imm_i(insn) as i32 }
}

pub open spec fn s_args_of(insn: u32) -> SBTypeArgs {
    SBTypeArgs { rs1: rs1_of(insn), rs2: rs2_of(insn), imm: imm_s(insn) as i32 }
}

pub open spec fn b_args_of(insn: u32) -> SBTypeArgs {
    SBTypeArgs { rs1: rs1_of(insn), rs2: rs2_of(insn), imm: imm_b(insn) as i32 }
}

pub open spec fn u_args_of(insn: u32) -> UJTypeArgs {
    UJTypeArgs { rd: rd_of(insn), imm: imm_u(insn) as i32 }
}

pub open spec fn j_args_of(insn: u32) -> UJTypeArgs {
    UJTypeArgs { rd: rd_of(insn), imm: imm_j(insn) as i32 }
}

/// Shift by `insn[25:20]`.
pub open spec fn shift_args_of(insn: u32) -> ShiftArgs {
    ShiftArgs { rd: rd_of(insn), rs1: rs1_of(insn), shamt: ((insn >> 20u32) & 0x3f) as u8 }
}

/// Shift by `insn[24:20]`.
pub open spec fn shiftw_args_of(insn: u32) -> ShiftArgs {
    ShiftArgs { rd: rd_of(insn), rs1: rs1_of(insn), shamt: ((insn >> 20u32) & 0x1f) as u8 }
}

/// `fm = insn[31:28]`, `pred = insn[27:24]`, `succ = insn[23:20]`.
pub open spec fn fence_args_of(insn: u32) -> FenceArgs {
    FenceArgs {
        fm: ((insn >> 20u32) >> 8u32) as u8,
        pred: fence_set_spec((((insn >> 20u32) >> 4u32) & 0xf) as u8),
        succ: fence_set_spec(((insn >> 20u32) & 0xf) as u8),
    }
}

pub open spec fn r_args_of(insn: u32) -> RTypeArgs {
    RTypeArgs { rd: rd_of(insn), rs1: rs1_of(insn), rs2: rs2_of(insn) }
}

/// `aq = insn[26]`, `rl = insn[25]`.
pub open spec fn amo_args_of(insn: u32) -> AmoArgs {
    AmoArgs {
        aq: funct7_of(insn) & 2 != 0,
        rl: funct7_of(insn) & 1 != 0,
        rd: rd_of(insn),
        rs1: rs1_of(insn),
        rs2: rs2_of(insn),
    }
}

pub open spec fn amo_lr_args_of(insn: u32) -> AmoLrArgs {
    AmoLrArgs {
        aq: funct7_of(insn) & 2 != 0,
        rl: funct7_of(insn) & 1 != 0,
        rd: rd_of(insn),
        rs1: rs1_of(insn),
    }
}

/// The rounding mode sits in the `funct3` field.
pub open spec fn rf_args_of(insn: u32) -> RFTypeArgs {
    RFTypeArgs {
        rm: rounding_mode_spec(funct3_of(insn)),
        rd: rd_of(insn),
        rs1: rs1_of(insn),
        rs2: rs2_of(insn),
    }
}

pub open spec fn r2_args_of(insn: u32) -> R2TypeArgs {
    R2TypeArgs { rd: rd_of(insn), rs1: rs1_of(insn) }
}

pub open spec fn r2f_args_of(insn: u32) -> R2FTypeArgs {
    R2FTypeArgs { rm: rounding_mode_spec(funct3_of(insn)), rd: rd_of(insn), rs1: rs1_of(insn) }
}

pub open spec fn r4_args_of(insn: u32) -> R4TypeArgs {
    R4TypeArgs {
        rm: rounding_mode_spec(funct3_of(insn)),
        rd: rd_of(insn),
        rs1: rs1_of(insn),
        rs2: rs2_of(insn),
        rs3: rs3_of(insn),
    }
}

/// Major opcode LOAD.
pub open spec fn decode_load(insn: u32) -> RvInsn {
    match funct3_of(insn) {
        0b000 => RvInsn::Lb(i_args_of(insn)),
        0b001 => RvInsn::Lh(i_args_of(insn)),
        0b010 => RvInsn::Lw(i_args_of(insn)),
        0b100 => RvInsn::Lbu(i_args_of(insn)),
        0b101 => RvInsn::Lhu(i_args_of(insn)),
        0b110 => RvInsn::Lwu(i_args_of(insn)),
        0b011 => RvInsn::Ld(i_args_of(insn)),
        _ => RvInsn::Invalid(insn),
    }
}

/// Major opcode LOAD-FP.
pub open spec fn decode_load_fp(insn: u32) -> RvInsn {
    match funct3_of(insn) {
        0b010 => RvInsn::Flw(i_args_of(insn)),
        0b011 => RvInsn::Fld(i_args_of(insn)),
        _ => RvInsn::Invalid(insn),
    }
}

/// Major opcode MISC-MEM.
pub open spec fn decode_misc_mem(insn: u32) -> RvInsn {
    match funct3_of(insn) {
        0b000 => RvInsn::Fence(fence_args_of(insn)),
        0b001 => RvInsn::FenceI(i_args_of(insn)),
        _ => RvInsn::Invalid(insn),
    }
}

/// Major opcode OP-IMM-32.
pub open spec fn decode_op_imm_32(insn: u32) -> RvInsn {
    match (funct7_of_imm(insn), funct3_of(insn)) {
        (_, 0b000) => RvInsn::Addiw(i_args_of(insn)),
        (0b0000000, 0b001) => RvInsn::Slliw(shiftw_args_of(insn)),
        (0b0000000, 0b101) => RvInsn::Srliw(shiftw_args_of(insn)),
        (0b0100000, 0b101) => RvInsn::Sraiw(shiftw_args_of(insn)),
        _ => RvInsn::Invalid(insn),
    }
}

/// Major opcode STORE.
pub open spec fn decode_store(insn: u32) -> RvInsn {
    match funct3_of(insn) {
        0b000 => RvInsn::Sb(s_args_of(insn)),
        0b001 => RvInsn::Sh(s_args_of(insn)),
        0b010 => RvInsn::Sw(s_args_of(insn)),
        0b011 => RvInsn::Sd(s_args_of(insn)),
        _ => RvInsn::Invalid(insn),
    }
}

/// Major opcode STORE-FP.
pub open spec fn decode_store_fp(insn: u32) -> RvInsn {
    match funct3_of(insn) {
        0b010 => RvInsn::Fsw(s_args_of(insn)),
        0b011 => RvInsn::Fsd(s_args_of(insn)),
        _ => RvInsn::Invalid(insn),
    }
}

/// Major opcode AMO.
pub open spec fn decode_amo(insn: u32) -> RvInsn {
    match (funct3_of(insn), funct5_of(insn), rs2_of(insn)) {
        (0b010, 0b00010, 0) => RvInsn::LrW(amo_lr_args_of(insn)),
        (0b010, 0b00011, _) => RvInsn::ScW(amo_args_of(insn)),
        (0b010, 0b00001, _) => RvInsn::AmoSwapW(amo_args_of(insn)),
        (0b010, 0b00000, _) => RvInsn::AmoAddW(amo_args_of(insn)),
        (0b010, 0b00100, _) => RvInsn::AmoXorW(amo_args_of(insn)),
        (0b010, 0b01100, _) => RvInsn::AmoAndW(amo_args_of(insn)),
        (0b010, 0b01000, _) => RvInsn::AmoOrW(amo_args_of(insn)),
        (0b010, 0b10000, _) => RvInsn::AmoMinW(amo_args_of(insn)),
        (0b010, 0b10100, _) => RvInsn::AmoMaxW(amo_args_of(insn)),
        (0b010, 0b11000, _) => RvInsn::AmoMinuW(amo_args_of(insn)),
        (0b010, 0b11100, _) => RvInsn::AmoMaxuW(amo_args_of(insn)),
        (0b011, 0b00010, 0) => RvInsn::LrD(amo_lr_args_of(insn)),
        (0b011, 0b00011, _) => RvInsn::ScD(amo_args_of(insn)),
        (0b011, 0b00001, _) => RvInsn::AmoSwapD(amo_args_of(insn)),
        (0b011, 0b00000, _) => RvInsn::AmoAddD(amo_args_of(insn)),
        (0b011, 0b00100, _) => RvInsn::AmoXorD(amo_args_of(insn)),
        (0b011, 0b01100, _) => RvInsn::AmoAndD(amo_args_of(insn)),
        (0b011, 0b01000, _) => RvInsn::AmoOrD(amo_args_of(insn)),
        (0b011, 0b10000, _) => RvInsn::AmoMinD(amo_args_of(insn)),
        (0b011, 0b10100, _) => RvInsn::AmoMaxD(amo_args_of(insn)),
        (0b011, 0b11000, _) => RvInsn::AmoMinuD(amo_args_of(insn)),
        (0b011, 0b11100, _) => RvInsn::AmoMaxuD(amo_args_of(insn)),
        _ => RvInsn::Invalid(insn),
    }
}

/// Major opcode OP.
pub open spec fn decode_op(insn: u32) -> RvInsn {
    match (funct7_of(insn), funct3_of(insn)) {
        (0b0000000, 0b000) => RvInsn::Add(r_args_of(insn)),
        (0b0100000, 0b000) => RvInsn::Sub(r_args_of(insn)),
        (0b0000000, 0b001) => RvInsn::Sll(r_args_of(insn)),
        (0b0000000, 0b010) => RvInsn::Slt(r_args_of(insn)),
        (0b0000000, 0b011) => RvInsn::Sltu(r_args_of(insn)),
        (0b0000000, 0b100) => RvInsn::Xor(r_args_of(insn)),
        (0b0000000, 0b101) => RvInsn::Srl(r_args_of(insn)),
        (0b0100000, 0b101) => RvInsn::Sra(r_args_of(insn)),
        (0b0000000, 0b110) => RvInsn::Or(r_args_of(insn)),
        (0b0000000, 0b111) => RvInsn::And(r_args_of(insn)),
        (0b0000001, 0b000) => RvInsn::Mul(r_args_of(insn)),
        (0b0000001, 0b001) => RvInsn::Mulh(r_args_of(insn)),
        (0b0000001, 0b010) => RvInsn::Mulhsu(r_args_of(insn)),
        (0b0000001, 0b011) => RvInsn::Mulhu(r_args_of(insn)),
        (0b0000001, 0b100) => RvInsn::Div(r_args_of(insn)),
        (0b0000001, 0b101) => RvInsn::Divu(r_args_of(insn)),
        (0b0000001, 0b110) => RvInsn::Rem(r_args_of(insn)),
        (0b0000001, 0b111) => RvInsn::Remu(r_args_of(insn)),
        _ => RvInsn::Invalid(insn),
    }
}

/// Major opcode OP-32.
pub open spec fn decode_op_32(insn: u32) -> RvInsn {
    match (funct7_of(insn), funct3_of(insn)) {
        (0b0000000, 0b000) => RvInsn::Addw(r_args_of(insn)),
        (0b0100000, 0b000) => RvInsn::Subw(r_args_of(insn)),
        (0b0000000, 0b001) => RvInsn::Sllw(r_args_of(insn)),
        (0b0000000, 0b101) => RvInsn::Srlw(r_args_of(insn)),
        (0b0100000, 0b101) => RvInsn::Sraw(r_args_of(insn)),
        (0b0000001, 0b000) => RvInsn::Mulw(r_args_of(insn)),
        (0b0000001, 0b100) => RvInsn::Divw(r_args_of(insn)),
        (0b0000001, 0b101) => RvInsn::Divuw(r_args_of(insn)),
        (0b0000001, 0b110) => RvInsn::Remw(r_args_of(insn)),
        (0b0000001, 0b111) => RvInsn::Remuw(r_args_of(insn)),
        _ => RvInsn::Invalid(insn),
    }
}

/// Major opcode MADD.
pub open spec fn decode_madd(insn: u32) -> RvInsn {
    match funct2_of(insn) {
        0b00 => RvInsn::FmaddS(r4_args_of(insn)),
        0b01 => RvInsn::FmaddD(r4_args_of(insn)),
        _ => RvInsn::Invalid(insn),
    }
}

/// Major opcode MSUB.
pub open spec fn decode_msub(insn: u32) -> RvInsn {
    match funct2_of(insn) {
        0b00 => RvInsn::FmsubS(r4_args_of(insn)),
        0b01 => RvInsn::FmsubD(r4_args_of(insn)),
        _ => RvInsn::Invalid(insn),
    }
}

/// Major opcode NMSUB.
pub open spec fn decode_nmsub(insn: u32) -> RvInsn {
    match funct2_of(insn) {
        0b00 => RvInsn::FnmsubS(r4_args_of(insn)),
        0b01 => RvInsn::FnmsubD(r4_args_of(insn)),
        _ => RvInsn::Invalid(insn),
    }
}

/// Major opcode NMADD.
pub open spec fn decode_nmadd(insn: u32) -> RvInsn {
    match funct2_of(insn) {
        0b00 => RvInsn::FnmaddS(r4_args_of(insn)),
        0b01 => RvInsn::FnmaddD(r4_args_of(insn)),
        _ => RvInsn::Invalid(insn),
    }
}

/// Major opcode OP-FP.
pub open spec fn decode_op_fp(insn: u32) -> RvInsn {
    match (funct7_of(insn), rs2_of(insn), funct3_of(insn)) {
        (0b0000000, _, _) => RvInsn::FaddS(rf_args_of(insn)),
        (0b0000100, _, _) => RvInsn::FsubS(rf_args_of(insn)),
        (0b0001000, _, _) => RvInsn::FmulS(rf_args_of(insn)),
        (0b0001100, _, _) => RvInsn::FdivS(rf_args_of(insn)),
        (0b0101100, 0b00000, _) => RvInsn::FsqrtS(r2f_args_of(insn)),
        (0b0010000, _, 0b000) => RvInsn::FsgnjS(r_args_of(insn)),
        (0b0010000, _, 0b001) => RvInsn::FsgnjnS(r_args_of(insn)),
        (0b0010000, _, 0b010) => RvInsn::FsgnjxS(r_args_of(insn)),
        (0b0010100, _, 0b000) => RvInsn::FminS(r_args_of(insn)),
        (0b0010100, _, 0b001) => RvInsn::FmaxS(r_args_of(insn)),
        (0b1100000, 0b00000, _) => RvInsn::FcvtWS(r2f_args_of(insn)),
        (0b1100000, 0b00001, _) => RvInsn::FcvtWuS(r2f_args_of(insn)),
        (0b1110000, 0b00000, 0b000) => RvInsn::FmvXW(r2_args_of(insn)),
        (0b1010000, _, 0b010) => RvInsn::FeqS(r_args_of(insn)),
        (0b1010000, _, 0b001) => RvInsn::FltS(r_args_of(insn)),
        (0b1010000, _, 0b000) => RvInsn::FleS(r_args_of(insn)),
        (0b1110000, 0b00000, 0b001) => RvInsn::FclassS(r2_args_of(insn)),
        (0b1101000, 0b00000, _) => RvInsn::FcvtSW(r2f_args_of(insn)),
        (0b1101000, 0b00001, _) => RvInsn::FcvtSWu(r2f_args_of(insn)),
        (0b1111000, 0b00000, 0b000) => RvInsn::FmvWX(r2_args_of(insn)),
        (0b1100000, 0b00010, _) => RvInsn::FcvtLS(r2f_args_of(insn)),
        (0b1100000, 0b00011, _) => RvInsn::FcvtLuS(r2f_args_of(insn)),
        (0b1101000, 0b00010, _) => RvInsn::FcvtSL(r2f_args_of(insn)),
        (0b1101000, 0b00011, _) => RvInsn::FcvtSLu(r2f_args_of(insn)),
        (0b0000001, _, _) => RvInsn::FaddD(rf_args_of(insn)),
        (0b0000101, _, _) => RvInsn::FsubD(rf_args_of(insn)),
        (0b0001001, _, _) => RvInsn::FmulD(rf_args_of(insn)),
        (0b0001101, _, _) => RvInsn::FdivD(rf_args_of(insn)),
        (0b0101101, 0b00000, _) => RvInsn::FsqrtD(r2f_args_of(insn)),
        (0b0010001, _, 0b000) => RvInsn::FsgnjD(r_args_of(insn)),
        (0b0010001, _, 0b001) => RvInsn::FsgnjnD(r_args_of(insn)),
        (0b0010001, _, 0b010) => RvInsn::FsgnjxD(r_args_of(insn)),
        (0b0010101, _, 0b000) => RvInsn::FminD(r_args_of(insn)),
        (0b0010101, _, 0b001) => RvInsn::FmaxD(r_args_of(insn)),
        (0b0100000, 0b00001, _) => RvInsn::FcvtSD(r2f_args_of(insn)),
        (0b0100001, 0b00000, _) => RvInsn::FcvtDS(r2f_args_of(insn)),
        (0b1010001, _, 0b010) => RvInsn::FeqD(r_args_of(insn)),
        (0b1010001, _, 0b001) => RvInsn::FltD(r_args_of(insn)),
        (0b1010001, _, 0b000) => RvInsn::FleD(r_args_of(insn)),
        (0b1110001, 0b00000, 0b001) => RvInsn::FclassD(r2_args_of(insn)),
        (0b1100001, 0b00000, _) => RvInsn::FcvtWD(r2f_args_of(insn)),
        (0b1100001, 0b00001, _) => RvInsn::FcvtWuD(r2f_args_of(insn)),
        (0b1101001, 0b00000, _) => RvInsn::FcvtDW(r2f_args_of(insn)),
        (0b1101001, 0b00001, _) => RvInsn::FcvtDWu(r2f_args_of(insn)),
        (0b1100001, 0b00010, _) => RvInsn::FcvtLD(r2f_args_of(insn)),
        (0b1100001, 0b00011, _) => RvInsn::FcvtLuD(r2f_args_of(insn)),
        (0b1110001, 0b00000, 0b000) => RvInsn::FmvXD(r2_args_of(insn)),
        (0b1101001, 0b00010, _) => RvInsn::FcvtDL(r2f_args_of(insn)),
        (0b1101001, 0b00011, _) => RvInsn::FcvtDLu(r2f_args_of(insn)),
        (0b1111001, 0b00000, 0b000) => RvInsn::FmvDX(r2_args_of(insn)),
        _ => RvInsn::Invalid(insn),
    }
}

/// Major opcode BRANCH.
pub open spec fn decode_branch(insn: u32) -> RvInsn {
    match funct3_of(insn) {
        0b000 => RvInsn::Beq(b_args_of(insn)),
        0b001 => RvInsn::Bne(b_args_of(insn)),
        0b100 => RvInsn::Blt(b_args_of(insn)),
        0b101 => RvInsn::Bge(b_args_of(insn)),
        0b110 => RvInsn::Bltu(b_args_of(insn)),
        0b111 => RvInsn::Bgeu(b_args_of(insn)),
        _ => RvInsn::Invalid(insn),
    }
}

/// Major opcode JALR.
pub open spec fn decode_jalr(insn: u32) -> RvInsn {
    match funct3_of(insn) {
        0b000 => RvInsn::Jalr(i_args_of(insn)),
        _ => RvInsn::Invalid(insn),
    }
}

/// Major opcode OP-IMM.
pub open spec fn decode_op_imm(insn: u32) -> RvInsn {
    match funct3_of(insn) {
        0b000 => RvInsn::Addi(i_args_of(insn)),
        0b010 => RvInsn::Slti(i_args_of(insn)),
        0b011 => RvInsn::Sltiu(i_args_of(insn)),
        0b100 => RvInsn::Xori(i_args_of(insn)),
        0b110 => RvInsn::Ori(i_args_of(insn)),
        0b111 => RvInsn::Andi(i_args_of(insn)),
        _ => match (funct6_of_imm(insn), funct3_of(insn)) {
            (0b000000, 0b001) => RvInsn::Slli(shift_args_of(insn)),
            (0b000000, 0b101) => RvInsn::Srli(shift_args_of(insn)),
            (0b010000, 0b101) => RvInsn::Srai(shift_args_of(insn)),
            _ => RvInsn::Invalid(insn),
        },
    }
}

/// Major opcode SYSTEM: only `ecall` and `ebreak` are defined.
pub open spec fn decode_system(insn: u32) -> RvInsn {
    if insn == 0x00000073 {
        RvInsn::Ecall
    } else if insn == 0x00100073 {
        RvInsn::Ebreak
    } else {
        RvInsn::Invalid(insn)
    }
}

/// The instruction that the full-width word `insn` encodes.
pub open spec fn decode32(insn: u32) -> RvInsn {
    match opcode_of(insn) {
        0b00_000 => decode_load(insn),
        0b00_001 => decode_load_fp(insn),
        0b00_011 => decode_misc_mem(insn),
        0b00_100 => decode_op_imm(insn),
        0b00_101 => RvInsn::Auipc(u_args_of(insn)),
        0b00_110 => decode_op_imm_32(insn),
        0b01_000 => decode_store(insn),
        0b01_001 => decode_store_fp(insn),
        0b01_011 => decode_amo(insn),
        0b01_100 => decode_op(insn),
        0b01_101 => RvInsn::Lui(u_args_of(insn)),
        0b01_110 => decode_op_32(insn),
        0b10_000 => decode_madd(insn),
        0b10_001 => decode_msub(insn),
        0b10_010 => decode_nmsub(insn),
        0b10_011 => decode_nmadd(insn),
        0b10_100 => decode_op_fp(insn),
        0b11_000 => decode_branch(insn),
        0b11_001 => decode_jalr(insn),
        0b11_011 => RvInsn::Jal(j_args_of(insn)),
        0b11_100 => decode_system(insn),
        _ => RvInsn::Invalid(insn),
    }
}

/// Decodes a full-width (32-bit) instruction word.
pub fn disas_riscv_insn_32bit(insn: u32) -> (r: RvInsn)
    ensures
        r == decode32(insn),
{
    let opcode = (insn >> 2u32) & 0b11111;
    match opcode {
        0b00_000 => disas_riscv_insn_load(insn),
        0b00_001 => disas_riscv_insn_load_fp(insn),
        0b00_011 => disas_riscv_insn_misc_mem(insn),
        0b00_100 => disas_riscv_insn_op_imm(insn),
        0b00_101 => RvInsn::Auipc(disas_u(insn).uj_args()),
        0b00_110 => disas_riscv_insn_op_imm_32(insn),
        0b01_000 => disas_riscv_insn_store(insn),
        0b01_001 => disas_riscv_insn_store_fp(insn),
        0b01_011 => disas_riscv_insn_amo(insn),
        0b01_100 => disas_riscv_insn_op(insn),
        0b01_101 => RvInsn::Lui(disas_u(insn).uj_args()),
        0b01_110 => disas_riscv_insn_op_32(insn),
        0b10_000 => disas_riscv_insn_madd(insn),
        0b10_001 => disas_riscv_insn_msub(insn),
        0b10_010 => disas_riscv_insn_nmsub(insn),
        0b10_011 => disas_riscv_insn_nmadd(insn),
        0b10_100 => disas_riscv_insn_op_fp(insn),
        0b11_000 => disas_riscv_insn_branch(insn),
        0b11_001 => disas_riscv_insn_jalr(insn),
        0b11_011 => RvInsn::Jal(disas_j(insn).uj_args()),
        0b11_100 => disas_riscv_insn_system(insn),
        _ => RvInsn::Invalid(insn),
    }
}

fn disas_riscv_insn_op_imm(insn: u32) -> (r: RvInsn)
    ensures
        r == decode_op_imm(insn),
{
    let s = disas_i(insn);
    match s.i_funct3() {
        0b000 => RvInsn::Addi(s.i_args()),
        0b010 => RvInsn::Slti(s.i_args()),
        0b011 => RvInsn::Sltiu(s.i_args()),
        0b100 => RvInsn::Xori(s.i_args()),
        0b110 => RvInsn::Ori(s.i_args()),
        0b111 => RvInsn::Andi(s.i_args()),
        _ => match (s.rv64_shift_funct(), s.i_funct3()) {
            (0b000000, 0b001) => RvInsn::Slli(s.shift_args()),
            (0b000000, 0b101) => RvInsn::Srli(s.shift_args()),
            (0b010000, 0b101) => RvInsn::Srai(s.shift_args()),
            _ => RvInsn::Invalid(insn),
        },
    }
}

fn disas_riscv_insn_system(insn: u32) -> (r: RvInsn)
    ensures
        r == decode_system(insn),
{
    match insn {
        0x00000073 => RvInsn::Ecall,
        0x00100073 => RvInsn::Ebreak,
        _ => RvInsn::Invalid(insn),
    }
}

fn disas_riscv_insn_load(insn: u32) -> (r: RvInsn)
    ensures
        r == decode_load(insn),
{
    let s = disas_i(insn);
    match s.i_funct3() {
        0b000 => RvInsn::Lb(s.i_args()),
        0b001 => RvInsn::Lh(s.i_args()),
        0b010 => RvInsn::Lw(s.i_args()),
        0b100 => RvInsn::Lbu(s.i_args()),
        0b101 => RvInsn::Lhu(s.i_args()),
        0b110 => RvInsn::Lwu(s.i_args()),
        0b011 => RvInsn::Ld(s.i_args()),
        _ => RvInsn::Invalid(insn),
    }
}

fn disas_riscv_insn_load_fp(insn: u32) -> (r: RvInsn)
    ensures
        r == decode_load_fp(insn),
{
    let s = disas_i(insn);
    match s.i_funct3() {
        0b010 => RvInsn::Flw(s.i_args()),
        0b011 => RvInsn::Fld(s.i_args()),
        _ => RvInsn::Invalid(insn),
    }
}

fn disas_riscv_insn_misc_mem(insn: u32) -> (r: RvInsn)
    ensures
        r == decode_misc_mem(insn),
{
    let s = disas_i(insn);
    match s.i_funct3() {
        0b000 => RvInsn::Fence(s.fence_args()),
        0b001 => RvInsn::FenceI(s.i_args()),
        _ => RvInsn::Invalid(insn),
    }
}

fn disas_riscv_insn_op_imm_32(insn: u32) -> (r: RvInsn)
    ensures
        r == decode_op_imm_32(insn),
{
    let s = disas_i(insn);
    match (s.rv32_shift_funct(), s.i_funct3()) {
        (_, 0b000) => RvInsn::Addiw(s.i_args()),
        (0b0000000, 0b001) => RvInsn::Slliw(s.shiftw_args()),
        (0b0000000, 0b101) => RvInsn::Srliw(s.shiftw_args()),
        (0b0100000, 0b101) => RvInsn::Sraiw(s.shiftw_args()),
        _ => RvInsn::Invalid(insn),
    }
}

fn disas_riscv_insn_store(insn: u32) -> (r: RvInsn)
    ensures
        r == decode_store(insn),
{
    let s = disas_s(insn);
    match s.sb_funct3() {
        0b000 => RvInsn::Sb(s.sb_args()),
        0b001 => RvInsn::Sh(s.sb_args()),
        0b010 => RvInsn::Sw(s.sb_args()),
        0b011 => RvInsn::Sd(s.sb_args()),
        _ => RvInsn::Invalid(insn),
    }
}

fn disas_riscv_insn_store_fp(insn: u32) -> (r: RvInsn)
    ensures
        r == decode_store_fp(insn),
{
    let s = disas_s(insn);
    match s.sb_funct3() {
        0b010 => RvInsn::Fsw(s.sb_args()),
        0b011 => RvInsn::Fsd(s.sb_args()),
        _ => RvInsn::Invalid(insn),
    }
}

fn disas_riscv_insn_amo(insn: u32) -> (r: RvInsn)
    ensures
        r == decode_amo(insn),
{
    let s = disas_r(insn);
    proof {
        assert(((insn >> 25u32) as u8) >> 2u8 == (insn >> 27u32) as u8) by (bit_vector);
    }
    match (s.funct3(), s.amo_funct(), s.rs2()) {
        (0b010, 0b00010, 0) => RvInsn::LrW(s.amo_lr_args()),
        (0b010, 0b00011, _) => RvInsn::ScW(s.amo_args()),
        (0b010, 0b00001, _) => RvInsn::AmoSwapW(s.amo_args()),
        (0b010, 0b00000, _) => RvInsn::AmoAddW(s.amo_args()),
        (0b010, 0b00100, _) => RvInsn::AmoXorW(s.amo_args()),
        (0b010, 0b01100, _) => RvInsn::AmoAndW(s.amo_args()),
        (0b010, 0b01000, _) => RvInsn::AmoOrW(s.amo_args()),
        (0b010, 0b10000, _) => RvInsn::AmoMinW(s.amo_args()),
        (0b010, 0b10100, _) => RvInsn::AmoMaxW(s.amo_args()),
        (0b010, 0b11000, _) => RvInsn::AmoMinuW(s.amo_args()),
        (0b010, 0b11100, _) => RvInsn::AmoMaxuW(s.amo_args()),
        (0b011, 0b00010, 0) => RvInsn::LrD(s.amo_lr_args()),
        (0b011, 0b00011, _) => RvInsn::ScD(s.amo_args()),
        (0b011, 0b00001, _) => RvInsn::AmoSwapD(s.amo_args()),
        (0b011, 0b00000, _) => RvInsn::AmoAddD(s.amo_args()),
        (0b011, 0b00100, _) => RvInsn::AmoXorD(s.amo_args()),
        (0b011, 0b01100, _) => RvInsn::AmoAndD(s.amo_args()),
        (0b011, 0b01000, _) => RvInsn::AmoOrD(s.amo_args()),
        (0b011, 0b10000, _) => RvInsn::AmoMinD(s.amo_args()),
        (0b011, 0b10100, _) => RvInsn::AmoMaxD(s.amo_args()),
        (0b011, 0b11000, _) => RvInsn::AmoMinuD(s.amo_args()),
        (0b011, 0b11100, _) => RvInsn::AmoMaxuD(s.amo_args()),
        _ => RvInsn::Invalid(insn),
    }
}

fn disas_riscv_insn_op(insn: u32) -> (r: RvInsn)
    ensures
        r == decode_op(insn),
{
    let s = disas_r(insn);
    match (s.funct7(), s.funct3()) {
        (0b0000000, 0b000) => RvInsn::Add(s.r_args()),
        (0b0100000, 0b000) => RvInsn::Sub(s.r_args()),
        (0b0000000, 0b001) => RvInsn::Sll(s.r_args()),
        (0b0000000, 0b010) => RvInsn::Slt(s.r_args()),
        (0b0000000, 0b011) => RvInsn::Sltu(s.r_args()),
        (0b0000000, 0b100) => RvInsn::Xor(s.r_args()),
        (0b0000000, 0b101) => RvInsn::Srl(s.r_args()),
        (0b0100000, 0b101) => RvInsn::Sra(s.r_args()),
        (0b0000000, 0b110) => RvInsn::Or(s.r_args()),
        (0b0000000, 0b111) => RvInsn::And(s.r_args()),
        (0b0000001, 0b000) => RvInsn::Mul(s.r_args()),
        (0b0000001, 0b001) => RvInsn::Mulh(s.r_args()),
        (0b0000001, 0b010) => RvInsn::Mulhsu(s.r_args()),
        (0b0000001, 0b011) => RvInsn::Mulhu(s.r_args()),
        (0b0000001, 0b100) => RvInsn::Div(s.r_args()),
        (0b0000001, 0b101) => RvInsn::Divu(s.r_args()),
        (0b0000001, 0b110) => RvInsn::Rem(s.r_args()),
        (0b0000001, 0b111) => RvInsn::Remu(s.r_args()),
        _ => RvInsn::Invalid(insn),
    }
}

fn disas_riscv_insn_op_32(insn: u32) -> (r: RvInsn)
    ensures
        r == decode_op_32(insn),
{
    let s = disas_r(insn);
    match (s.funct7(), s.funct3()) {
        (0b0000000, 0b000) => RvInsn::Addw(s.r_args()),
        (0b0100000, 0b000) => RvInsn::Subw(s.r_args()),
        (0b0000000, 0b001) => RvInsn::Sllw(s.r_args()),
        (0b0000000, 0b101) => RvInsn::Srlw(s.r_args()),
        (0b0100000, 0b101) => RvInsn::Sraw(s.r_args()),
        (0b0000001, 0b000) => RvInsn::Mulw(s.r_args()),
        (0b0000001, 0b100) => RvInsn::Divw(s.r_args()),
        (0b0000001, 0b101) => RvInsn::Divuw(s.r_args()),
        (0b0000001, 0b110) => RvInsn::Remw(s.r_args()),
        (0b0000001, 0b111) => RvInsn::Remuw(s.r_args()),
        _ => RvInsn::Invalid(insn),
    }
}

fn disas_riscv_insn_madd(insn: u32) -> (r: RvInsn)
    ensures
        r == decode_madd(insn),
{
    let s = disas_r4(insn);
    match s.funct2() {
        0b00 => RvInsn::FmaddS(s.r4_args()),
        0b01 => RvInsn::FmaddD(s.r4_args()),
        _ => RvInsn::Invalid(insn),
    }
}

fn disas_riscv_insn_msub(insn: u32) -> (r: RvInsn)
    ensures
        r == decode_msub(insn),
{
    let s = disas_r4(insn);
    match s.funct2() {
        0b00 => RvInsn::FmsubS(s.r4_args()),
        0b01 => RvInsn::FmsubD(s.r4_args()),
        _ => RvInsn::Invalid(insn),
    }
}

fn disas_riscv_insn_nmsub(insn: u32) -> (r: RvInsn)
    ensures
        r == decode_nmsub(insn),
{
    let s = disas_r4(insn);
    match s.funct2() {
        0b00 => RvInsn::FnmsubS(s.r4_args()),
        0b01 => RvInsn::FnmsubD(s.r4_args()),
        _ => RvInsn::Invalid(insn),
    }
}

fn disas_riscv_insn_nmadd(insn: u32) -> (r: RvInsn)
    ensures
        r == decode_nmadd(insn),
{
    let s = disas_r4(insn);
    match s.funct2() {
        0b00 => RvInsn::FnmaddS(s.r4_args()),
        0b01 => RvInsn::FnmaddD(s.r4_args()),
        _ => RvInsn::Invalid(insn),
    }
}

fn disas_riscv_insn_op_fp(insn: u32) -> (r: RvInsn)
    ensures
        r == decode_op_fp(insn),
{
    let s = disas_r(insn);
    match (s.funct7(), s.rs2(), s.funct3()) {
        (0b0000000, _, _) => RvInsn::FaddS(s.rf_args()),
        (0b0000100, _, _) => RvInsn::FsubS(s.rf_args()),
        (0b0001000, _, _) => RvInsn::FmulS(s.rf_args()),
        (0b0001100, _, _) => RvInsn::FdivS(s.rf_args()),
        (0b0101100, 0b00000, _) => RvInsn::FsqrtS(s.r2f_args()),
        (0b0010000, _, 0b000) => RvInsn::FsgnjS(s.r_args()),
        (0b0010000, _, 0b001) => RvInsn::FsgnjnS(s.r_args()),
        (0b0010000, _, 0b010) => RvInsn::FsgnjxS(s.r_args()),
        (0b0010100, _, 0b000) => RvInsn::FminS(s.r_args()),
        (0b0010100, _, 0b001) => RvInsn::FmaxS(s.r_args()),
        (0b1100000, 0b00000, _) => RvInsn::FcvtWS(s.r2f_args()),
        (0b1100000, 0b00001, _) => RvInsn::FcvtWuS(s.r2f_args()),
        (0b1110000, 0b00000, 0b000) => RvInsn::FmvXW(s.r2_args()),
        (0b1010000, _, 0b010) => RvInsn::FeqS(s.r_args()),
        (0b1010000, _, 0b001) => RvInsn::FltS(s.r_args()),
        (0b1010000, _, 0b000) => RvInsn::FleS(s.r_args()),
        (0b1110000, 0b00000, 0b001) => RvInsn::FclassS(s.r2_args()),
        (0b1101000, 0b00000, _) => RvInsn::FcvtSW(s.r2f_args()),
        (0b1101000, 0b00001, _) => RvInsn::FcvtSWu(s.r2f_args()),
        (0b1111000, 0b00000, 0b000) => RvInsn::FmvWX(s.r2_args()),
        (0b1100000, 0b00010, _) => RvInsn::FcvtLS(s.r2f_args()),
        (0b1100000, 0b00011, _) => RvInsn::FcvtLuS(s.r2f_args()),
        (0b1101000, 0b00010, _) => RvInsn::FcvtSL(s.r2f_args()),
        (0b1101000, 0b00011, _) => RvInsn::FcvtSLu(s.r2f_args()),
        (0b0000001, _, _) => RvInsn::FaddD(s.rf_args()),
        (0b0000101, _, _) => RvInsn::FsubD(s.rf_args()),
        (0b0001001, _, _) => RvInsn::FmulD(s.rf_args()),
        (0b0001101, _, _) => RvInsn::FdivD(s.rf_args()),
        (0b0101101, 0b00000, _) => RvInsn::FsqrtD(s.r2f_args()),
        (0b0010001, _, 0b000) => RvInsn::FsgnjD(s.r_args()),
        (0b0010001, _, 0b001) => RvInsn::FsgnjnD(s.r_args()),
        (0b0010001, _, 0b010) => RvInsn::FsgnjxD(s.r_args()),
        (0b0010101, _, 0b000) => RvInsn::FminD(s.r_args()),
        (0b0010101, _, 0b001) => RvInsn::FmaxD(s.r_args()),
        (0b0100000, 0b00001, _) => RvInsn::FcvtSD(s.r2f_args()),
        (0b0100001, 0b00000, _) => RvInsn::FcvtDS(s.r2f_args()),
        (0b1010001, _, 0b010) => RvInsn::FeqD(s.r_args()),
        (0b1010001, _, 0b001) => RvInsn::FltD(s.r_args()),
        (0b1010001, _, 0b000) => RvInsn::FleD(s.r_args()),
        (0b1110001, 0b00000, 0b001) => RvInsn::FclassD(s.r2_args()),
        (0b1100001, 0b00000, _) => RvInsn::FcvtWD(s.r2f_args()),
        (0b1100001, 0b00001, _) => RvInsn::FcvtWuD(s.r2f_args()),
        (0b1101001, 0b00000, _) => RvInsn::FcvtDW(s.r2f_args()),
        (0b1101001, 0b00001, _) => RvInsn::FcvtDWu(s.r2f_args()),
        (0b1100001, 0b00010, _) => RvInsn::FcvtLD(s.r2f_args()),
        (0b1100001, 0b00011, _) => RvInsn::FcvtLuD(s.r2f_args()),
        (0b1110001, 0b00000, 0b000) => RvInsn::FmvXD(s.r2_args()),
        (0b1101001, 0b00010, _) => RvInsn::FcvtDL(s.r2f_args()),
        (0b1101001, 0b00011, _) => RvInsn::FcvtDLu(s.r2f_args()),
        (0b1111001, 0b00000, 0b000) => RvInsn::FmvDX(s.r2_args()),
        _ => RvInsn::Invalid(insn),
    }
}

fn disas_riscv_insn_branch(insn: u32) -> (r: RvInsn)
    ensures
        r == decode_branch(insn),
{
    let s = disas_b(insn);
    match s.sb_funct3() {
        0b000 => RvInsn::Beq(s.sb_args()),
        0b001 => RvInsn::Bne(s.sb_args()),
        0b100 => RvInsn::Blt(s.sb_args()),
        0b101 => RvInsn::Bge(s.sb_args()),
        0b110 => RvInsn::Bltu(s.sb_args()),
        0b111 => RvInsn::Bgeu(s.sb_args()),
        _ => RvInsn::Invalid(insn),
    }
}

fn disas_riscv_insn_jalr(insn: u32) -> (r: RvInsn)
    ensures
        r == decode_jalr(insn),
{
    let s = disas_i(insn);
    match s.i_funct3() {
        0b000 => RvInsn::Jalr(s.i_args()),
        _ => RvInsn::Invalid(insn),
    }
}

} // verus!
