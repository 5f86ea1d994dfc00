use larva::rv::args::ITypeArgs;
use larva::rv::decoder::RvDecoder;
use larva::rv::insn::RvInsn;
use larva::rv::rvc::{RvCDecoder, RvCInsn};

#[test]
fn test_rv64c_quadrant_00() {
    let d = RvCDecoder::new(64);

    // unimp
    assert_eq!(d.disas(0x0000), RvCInsn::Invalid(0));

    // c.ld a5,0(s0)
    assert_eq!(d.disas(0x601c), RvCInsn::Ld { rd: 15, rs1: 8, imm: 0 });

    // c.addi4spn s1,sp,168
    assert_eq!(d.disas(0x1124), RvCInsn::Addi4spn { rd: 9, imm: 168 });

    // c.sd a0,8(a5)
    assert_eq!(d.disas(0xe788), RvCInsn::Sd { rs1: 15, rs2: 10, imm: 8 })
}

#[test]
fn test_rv64c_quadrant_01() {
    let d = RvCDecoder::new(64);

    // c.addi sp,-32
    assert_eq!(d.disas(0x1101), RvCInsn::Addi { rd: 2, imm: -32 });

    // c.lui a5,0x10
    assert_eq!(d.disas(0x67c1), RvCInsn::Lui { rd: 15, imm: 0x10 << 12 });

    // c.li a5,0
    assert_eq!(d.disas(0x4781), RvCInsn::Li { rd: 15, imm: 0 });

    // c.li s4,-1
    assert_eq!(d.disas(0x5a7d), RvCInsn::Li { rd: 20, imm: -1 });

    // c.li a0,12
    assert_eq!(d.disas(0x4531), RvCInsn::Li { rd: 10, imm: 12 });

    // c.sub a2,s0
    assert_eq!(d.disas(0x8e01), RvCInsn::Sub { rd: 12, rs2: 8 });

    // c.xor a4,a3
    assert_eq!(d.disas(0x8f35), RvCInsn::Xor { rd: 14, rs2: 13 });

    // c.beqz a0, +38
    assert_eq!(d.disas(0xc11d), RvCInsn::Beqz { rs1: 10, imm: 38 })
}

#[test]
fn compressed_addi_sp_expands_to_addi() {
    let d = RvDecoder::new(64);
    assert_eq!(d.disas_16bit(0x1101), RvInsn::Addi(ITypeArgs { rd: 2, rs1: 2, imm: -32 }));
    assert_eq!(d.disas(&[0x01, 0x11]), Some((RvInsn::Addi(ITypeArgs { rd: 2, rs1: 2, imm: -32 }), 2)));
}

#[test]
fn quadrant_10_forms() {
    let d = RvCDecoder::new(64);
    // c.mv s0,a0
    assert_eq!(d.disas(0x842a), RvCInsn::Mv { rd: 8, rs2: 10 });
    // c.jr ra
    assert_eq!(d.disas(0x8082), RvCInsn::Jr { rs1: 1 });
    // c.ebreak
    assert_eq!(d.disas(0x9002), RvCInsn::Ebreak);
    // c.ldsp ra,24(sp)
    assert_eq!(d.disas(0x60e2), RvCInsn::Ldsp { rd: 1, imm: 24 });
    // c.sdsp ra,24(sp)
    assert_eq!(d.disas(0xec06), RvCInsn::Sdsp { rs2: 1, imm: 24 });
    // c.slli a0,3
    assert_eq!(d.disas(0x050e), RvCInsn::Slli { rd: 10, imm: 3 });
    // c.add a0,a1
    assert_eq!(d.disas(0x952e), RvCInsn::Add { rd: 10, rs2: 11 });
}

#[test]
fn compressed_expansions() {
    let d = RvDecoder::new(64);
    assert_eq!(d.disas_16bit(0x8082), RvInsn::Jalr(ITypeArgs { rd: 0, rs1: 1, imm: 0 }));
    assert_eq!(d.disas_16bit(0x60e2), RvInsn::Ld(ITypeArgs { rd: 1, rs1: 2, imm: 24 }));
    assert_eq!(d.disas_16bit(0x4531), RvInsn::Addi(ITypeArgs { rd: 10, rs1: 0, imm: 12 }));
    assert_eq!(d.disas_16bit(0x0000), RvInsn::Invalid(0));
}
