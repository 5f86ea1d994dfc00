use larva::exec::alu::{sext_u16, sext_u32, sext_u8};
use larva::rv::args::{
    AmoArgs, AmoLrArgs, FenceArgs, FenceSet, ITypeArgs, R2TypeArgs, R4TypeArgs, RFTypeArgs,
    RTypeArgs, RoundingMode, SBTypeArgs, ShiftArgs, UJTypeArgs,
};
use larva::rv::decoder::RvDecoder;
use larva::rv::disas_helper::simm_from_uimm;
use larva::rv::insn::{disas_riscv_insn_32bit, RvInsn};

#[test]
fn decodes_base_integer_forms() {
    // add a0,a1,a2
    assert_eq!(disas_riscv_insn_32bit(0x00c58533), RvInsn::Add(RTypeArgs { rd: 10, rs1: 11, rs2: 12 }));
    // sub a0,a1,a2
    assert_eq!(disas_riscv_insn_32bit(0x40c58533), RvInsn::Sub(RTypeArgs { rd: 10, rs1: 11, rs2: 12 }));
    // li a0,123
    assert_eq!(disas_riscv_insn_32bit(0x07b00513), RvInsn::Addi(ITypeArgs { rd: 10, rs1: 0, imm: 123 }));
    // addi sp,sp,-32
    assert_eq!(disas_riscv_insn_32bit(0xfe010113), RvInsn::Addi(ITypeArgs { rd: 2, rs1: 2, imm: -32 }));
    // lui a5,0x10
    assert_eq!(disas_riscv_insn_32bit(0x000107b7), RvInsn::Lui(UJTypeArgs { rd: 15, imm: 0x10000 }));
    // lui a5,0xfffff
    assert_eq!(disas_riscv_insn_32bit(0xfffff7b7), RvInsn::Lui(UJTypeArgs { rd: 15, imm: -4096 }));
    // jal ra,+12
    assert_eq!(disas_riscv_insn_32bit(0x00c000ef), RvInsn::Jal(UJTypeArgs { rd: 1, imm: 12 }));
    // jal ra,-40
    assert_eq!(disas_riscv_insn_32bit(0xfd9ff0ef), RvInsn::Jal(UJTypeArgs { rd: 1, imm: -40 }));
    // blt a0,t0,+32
    assert_eq!(disas_riscv_insn_32bit(0x02554063), RvInsn::Blt(SBTypeArgs { rs1: 10, rs2: 5, imm: 32 }));
    // beq a0,a1,-4
    assert_eq!(disas_riscv_insn_32bit(0xfeb50ee3), RvInsn::Beq(SBTypeArgs { rs1: 10, rs2: 11, imm: -4 }));
    // sd ra,24(sp)
    assert_eq!(disas_riscv_insn_32bit(0x00113c23), RvInsn::Sd(SBTypeArgs { rs1: 2, rs2: 1, imm: 24 }));
    // sw a0,-8(s0)
    assert_eq!(disas_riscv_insn_32bit(0xfea42c23), RvInsn::Sw(SBTypeArgs { rs1: 8, rs2: 10, imm: -8 }));
    // ld ra,24(sp)
    assert_eq!(disas_riscv_insn_32bit(0x01813083), RvInsn::Ld(ITypeArgs { rd: 1, rs1: 2, imm: 24 }));
    // srai a0,a0,63
    assert_eq!(disas_riscv_insn_32bit(0x43f55513), RvInsn::Srai(ShiftArgs { rd: 10, rs1: 10, shamt: 63 }));
    // slliw a0,a0,31
    assert_eq!(disas_riscv_insn_32bit(0x01f5151b), RvInsn::Slliw(ShiftArgs { rd: 10, rs1: 10, shamt: 31 }));
    // ecall, ebreak
    assert_eq!(disas_riscv_insn_32bit(0x00000073), RvInsn::Ecall);
    assert_eq!(disas_riscv_insn_32bit(0x00100073), RvInsn::Ebreak);
    // fence rw,rw
    assert_eq!(
        disas_riscv_insn_32bit(0x0330000f),
        RvInsn::Fence(FenceArgs {
            fm: 0,
            pred: FenceSet { i: false, o: false, r: true, w: true },
            succ: FenceSet { i: false, o: false, r: true, w: true },
        })
    );
}

#[test]
fn decodes_extension_forms() {
    // mulhu a0,a1,a2
    assert_eq!(disas_riscv_insn_32bit(0x02c5b533), RvInsn::Mulhu(RTypeArgs { rd: 10, rs1: 11, rs2: 12 }));
    // remuw a0,a1,a2
    assert_eq!(disas_riscv_insn_32bit(0x02c5f53b), RvInsn::Remuw(RTypeArgs { rd: 10, rs1: 11, rs2: 12 }));
    // lr.d.aq a0,(a1)
    assert_eq!(
        disas_riscv_insn_32bit(0x1405b52f),
        RvInsn::LrD(AmoLrArgs { aq: true, rl: false, rd: 10, rs1: 11 })
    );
    // amoadd.w.rl a0,a2,(a1)
    assert_eq!(
        disas_riscv_insn_32bit(0x02c5a52f),
        RvInsn::AmoAddW(AmoArgs { aq: false, rl: true, rd: 10, rs1: 11, rs2: 12 })
    );
    // fadd.d fa0,fa1,fa2 (dynamic rounding)
    assert_eq!(
        disas_riscv_insn_32bit(0x02c5f553),
        RvInsn::FaddD(RFTypeArgs { rm: RoundingMode::Dyn, rd: 10, rs1: 11, rs2: 12 })
    );
    // fmadd.s fa0,fa1,fa2,fa3 (round to nearest, ties to even)
    assert_eq!(
        disas_riscv_insn_32bit(0x68c58543),
        RvInsn::FmaddS(R4TypeArgs { rm: RoundingMode::Rne, rd: 10, rs1: 11, rs2: 12, rs3: 13 })
    );
    // fmv.x.d a0,fa1
    assert_eq!(disas_riscv_insn_32bit(0xe2058553), RvInsn::FmvXD(R2TypeArgs { rd: 10, rs1: 11 }));
}

#[test]
fn undefined_combinations_keep_the_word() {
    // OP with funct7 = 0b0000010
    assert_eq!(disas_riscv_insn_32bit(0x04c58533), RvInsn::Invalid(0x04c58533));
    // LOAD with funct3 = 0b111
    assert_eq!(disas_riscv_insn_32bit(0x0005f503), RvInsn::Invalid(0x0005f503));
    // lr.w with rs2 != 0
    assert_eq!(disas_riscv_insn_32bit(0x1015a52f), RvInsn::Invalid(0x1015a52f));
    // reserved major opcode 0b00010
    assert_eq!(disas_riscv_insn_32bit(0x0000000b), RvInsn::Invalid(0x0000000b));
    // SYSTEM other than ecall / ebreak
    assert_eq!(disas_riscv_insn_32bit(0x10500073), RvInsn::Invalid(0x10500073));
    // branch funct3 = 0b010
    assert_eq!(disas_riscv_insn_32bit(0x00b52063), RvInsn::Invalid(0x00b52063));
}

#[test]
fn buffer_decoding_needs_enough_bytes() {
    let d = RvDecoder::new(64);
    assert_eq!(d.disas(&[]), None);
    assert_eq!(d.disas(&[0x13]), None);
    assert_eq!(d.disas(&[0x13, 0x05, 0xb0]), None);
    assert_eq!(
        d.disas(&[0x13, 0x05, 0xb0, 0x07]),
        Some((RvInsn::Addi(ITypeArgs { rd: 10, rs1: 0, imm: 123 }), 4))
    );
}

#[test]
fn sign_extension_extremes() {
    assert_eq!(sext_u8(0x7f), 127);
    assert_eq!(sext_u8(0x80) as i64, -128);
    assert_eq!(sext_u16(0x7fff), 32767);
    assert_eq!(sext_u16(0x8000) as i64, -32768);
    assert_eq!(sext_u32(0x7fff_ffff), 0x7fff_ffff);
    assert_eq!(sext_u32(0x8000_0000) as i64, -(1i64 << 31));
    assert_eq!(simm_from_uimm(0x7ff, 12), 2047);
    assert_eq!(simm_from_uimm(0x800, 12), -2048);
    assert_eq!(simm_from_uimm(0b100111, 6), -25);
    // 64-bit patterns are their own two's-complement values
    assert_eq!(0x7fff_ffff_ffff_ffffu64 as i64, i64::MAX);
    assert_eq!(0x8000_0000_0000_0000u64 as i64, i64::MIN);
}
