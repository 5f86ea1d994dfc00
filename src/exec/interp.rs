use vstd::prelude::*;
use crate::exec::alu::{
    to_u64, signed64, sext_u8, sext_u16, sext_u32, div_s64, div_u64, rem_s64, rem_u64, mulh,
    mulhsu, mulhu, div_s64_spec, div_u64_spec, rem_s64_spec, rem_u64_spec, mulh_spec,
    mulhsu_spec, mulhu_spec,
};
use crate::exec::mem::{
    GuestMmu, RegionView, MmuError, load, store, mem_byte, writable_range, pow256,
    lemma_load_bound, lemma_unmapped_high,
};
use crate::exec::state::{RvIsaState, IsaView, StopReason};
use crate::rv::decoder::{RvDecoder, decode_buf};
use crate::rv::disas_helper::sext;
use crate::rv::insn::RvInsn;
use vstd::arithmetic::power2::lemma2_to64;

verus! {

/// Relies on `std::sync::atomic::fence` with `SeqCst`: a full memory barrier. It
/// returns nothing.
#[verifier::external_body]
fn full_fence() {
    std::sync::atomic::fence(std::sync::atomic::Ordering::SeqCst)
}

/// Registers and guest memory together.
pub struct Machine {
    pub isa: IsaView,
    pub mem: Seq<RegionView>,
}

/// An immediate, sign-extended to a 64-bit register pattern.
pub open spec fn imm64(imm: i32) -> u64 {
    to_u64(imm as int) as u64
}

pub open spec fn low32(x: u64) -> u32 {
    (x & 0xffff_ffff) as u32
}

/// A 32-bit result, sign-extended to 64 bits.
pub open spec fn sext32_spec(w: u32) -> u64 {
    to_u64(sext(w as int, 32)) as u64
}

pub open spec fn lt_signed_spec(a: u64, b: u64) -> bool {
    signed64(a) < signed64(b)
}

/// Arithmetic right shift of a 64-bit pattern.
pub open spec fn sra64(a: u64, s: u64) -> u64 {
    if a >> 63u64 == 1 {
        !((!a) >> s)
    } else {
        a >> s
    }
}

/// Arithmetic right shift of a 32-bit pattern.
pub open spec fn sra32(w: u32, s: u32) -> u32 {
    if w >> 31u32 == 1 {
        !((!w) >> s)
    } else {
        w >> s
    }
}

/// A single-precision pattern in a double-width floating register (upper half all ones).
pub open spec fn nanbox(w: u32) -> u64 {
    0xffff_ffff_0000_0000u64 | (w as u64)
}

/// The effective address `x[rs1] + imm`.
pub open spec fn ea(m: Machine, rs1: u8, imm: i32) -> u64 {
    m.isa.xr(rs1).wrapping_add(imm64(imm))
}

pub open spec fn set_x(m: Machine, rd: u8, v: u64) -> (Machine, StopReason) {
    (Machine { isa: m.isa.wx(rd, v), mem: m.mem }, StopReason::Next)
}

pub open spec fn set_f(m: Machine, rd: u8, v: u64) -> (Machine, StopReason) {
    (Machine { isa: m.isa.wf_reg(rd, v), mem: m.mem }, StopReason::Next)
}

pub open spec fn branch(m: Machine, taken: bool, imm: i32) -> (Machine, StopReason) {
    (
        m,
        if taken {
            StopReason::ContinueAt(m.isa.pc.wrapping_add(imm64(imm)))
        } else {
            StopReason::Next
        },
    )
}

/// A loaded value of `n` bytes, sign- or zero-extended to 64 bits.
pub open spec fn extend(v: int, n: nat, signed: bool) -> u64 {
    if signed {
        to_u64(sext(v, 8 * n)) as u64
    } else {
        v as u64
    }
}

pub open spec fn do_load_x(m: Machine, rd: u8, addr: u64, n: nat, signed: bool) -> (
    Machine,
    StopReason,
) {
    match load(m.mem, addr as int, n) {
        Some(v) => set_x(m, rd, extend(v, n, signed)),
        None => (m, StopReason::Segv { read: true, gaddr: addr }),
    }
}

pub open spec fn do_load_f(m: Machine, rd: u8, addr: u64, n: nat) -> (Machine, StopReason) {
    match load(m.mem, addr as int, n) {
        Some(v) => set_f(
            m,
            rd,
            if n == 4 {
                nanbox(v as u32)
            } else {
                v as u64
            },
        ),
        None => (m, StopReason::Segv { read: true, gaddr: addr }),
    }
}

pub open spec fn do_store(m: Machine, addr: u64, n: nat, v: u64) -> (Machine, StopReason) {
    if writable_range(m.mem, addr as int, n) {
        (Machine { isa: m.isa, mem: store(m.mem, addr as int, n, v as int) }, StopReason::Next)
    } else {
        (m, StopReason::Segv { read: false, gaddr: addr })
    }
}

/// What executing `insn` (of `len` bytes) does to the registers and memory, and how the
/// step ends; `mask` is the register width minus one. The program counter is left to the
/// caller.
pub open spec fn exec_insn(m: Machine, insn: RvInsn, len: u64, mask: u64) -> (Machine, StopReason) {
    match insn {
        RvInsn::Add(r) => {
            let (a, b) = (m.isa.xr(r.rs1), m.isa.xr(r.rs2));
            set_x(m, r.rd, a.wrapping_add(b))
        },
        RvInsn::Sub(r) => {
            let (a, b) = (m.isa.xr(r.rs1), m.isa.xr(r.rs2));
            set_x(m, r.rd, a.wrapping_sub(b))
        },
        RvInsn::Sll(r) => {
            let (a, b) = (m.isa.xr(r.rs1), m.isa.xr(r.rs2));
            set_x(m, r.rd, a << (b & mask))
        },
        RvInsn::Slt(r) => {
            let (a, b) = (m.isa.xr(r.rs1), m.isa.xr(r.rs2));
            set_x(m, r.rd, if lt_signed_spec(a, b) { 1u64 } else { 0u64 })
        },
        RvInsn::Sltu(r) => {
            let (a, b) = (m.isa.xr(r.rs1), m.isa.xr(r.rs2));
            set_x(m, r.rd, if a < b { 1u64 } else { 0u64 })
        },
        RvInsn::Xor(r) => {
            let (a, b) = (m.isa.xr(r.rs1), m.isa.xr(r.rs2));
            set_x(m, r.rd, a ^ b)
        },
        RvInsn::Srl(r) => {
            let (a, b) = (m.isa.xr(r.rs1), m.isa.xr(r.rs2));
            set_x(m, r.rd, a >> (b & mask))
        },
        RvInsn::Sra(r) => {
            let (a, b) = (m.isa.xr(r.rs1), m.isa.xr(r.rs2));
            set_x(m, r.rd, sra64(a, b & mask))
        },
        RvInsn::Or(r) => {
            let (a, b) = (m.isa.xr(r.rs1), m.isa.xr(r.rs2));
            set_x(m, r.rd, a | b)
        },
        RvInsn::And(r) => {
            let (a, b) = (m.isa.xr(r.rs1), m.isa.xr(r.rs2));
            set_x(m, r.rd, a & b)
        },
        RvInsn::Addw(r) => {
            let (a, b) = (m.isa.xr(r.rs1), m.isa.xr(r.rs2));
            set_x(m, r.rd, sext32_spec(low32(a.wrapping_add(b))))
        },
        RvInsn::Subw(r) => {
            let (a, b) = (m.isa.xr(r.rs1), m.isa.xr(r.rs2));
            set_x(m, r.rd, sext32_spec(low32(a.wrapping_sub(b))))
        },
        RvInsn::Sllw(r) => {
            let (a, b) = (m.isa.xr(r.rs1), m.isa.xr(r.rs2));
            set_x(m, r.rd, sext32_spec(low32(a) << (low32(b) & 31)))
        },
        RvInsn::Srlw(r) => {
            let (a, b) = (m.isa.xr(r.rs1), m.isa.xr(r.rs2));
            set_x(m, r.rd, sext32_spec(low32(a) >> (low32(b) & 31)))
        },
        RvInsn::Sraw(r) => {
            let (a, b) = (m.isa.xr(r.rs1), m.isa.xr(r.rs2));
            set_x(m, r.rd, sext32_spec(sra32(low32(a), low32(b) & 31)))
        },
        RvInsn::Mul(r) => {
            let (a, b) = (m.isa.xr(r.rs1), m.isa.xr(r.rs2));
            set_x(m, r.rd, a.wrapping_mul(b))
        },
        RvInsn::Mulh(r) => {
            let (a, b) = (m.isa.xr(r.rs1), m.isa.xr(r.rs2));
            set_x(m, r.rd, mulh_spec(a, b) as u64)
        },
        RvInsn::Mulhsu(r) => {
            let (a, b) = (m.isa.xr(r.rs1), m.isa.xr(r.rs2));
            set_x(m, r.rd, mulhsu_spec(a, b) as u64)
        },
        RvInsn::Mulhu(r) => {
            let (a, b) = (m.isa.xr(r.rs1), m.isa.xr(r.rs2));
            set_x(m, r.rd, mulhu_spec(a, b) as u64)
        },
        RvInsn::Div(r) => {
            let (a, b) = (m.isa.xr(r.rs1), m.isa.xr(r.rs2));
            set_x(m, r.rd, div_s64_spec(a, b))
        },
        RvInsn::Divu(r) => {
            let (a, b) = (m.isa.xr(r.rs1), m.isa.xr(r.rs2));
            set_x(m, r.rd, div_u64_spec(a, b))
        },
        RvInsn::Rem(r) => {
            let (a, b) = (m.isa.xr(r.rs1), m.isa.xr(r.rs2));
            set_x(m, r.rd, rem_s64_spec(a, b))
        },
        RvInsn::Remu(r) => {
            let (a, b) = (m.isa.xr(r.rs1), m.isa.xr(r.rs2));
            set_x(m, r.rd, rem_u64_spec(a, b))
        },
        RvInsn::Mulw(r) => {
            let (a, b) = (m.isa.xr(r.rs1), m.isa.xr(r.rs2));
            set_x(m, r.rd, sext32_spec(low32(a.wrapping_mul(b))))
        },
        RvInsn::Divw(r) => {
            let (a, b) = (m.isa.xr(r.rs1), m.isa.xr(r.rs2));
            set_x(m, r.rd, sext32_spec(low32(div_s64_spec(sext32_spec(low32(a)), sext32_spec(low32(b))))))
        },
        RvInsn::Divuw(r) => {
            let (a, b) = (m.isa.xr(r.rs1), m.isa.xr(r.rs2));
            set_x(m, r.rd, sext32_spec(low32(div_u64_spec(low32(a) as u64, low32(b) as u64))))
        },
        RvInsn::Remw(r) => {
            let (a, b) = (m.isa.xr(r.rs1), m.isa.xr(r.rs2));
            set_x(m, r.rd, sext32_spec(low32(rem_s64_spec(sext32_spec(low32(a)), sext32_spec(low32(b))))))
        },
        RvInsn::Remuw(r) => {
            let (a, b) = (m.isa.xr(r.rs1), m.isa.xr(r.rs2));
            set_x(m, r.rd, sext32_spec(low32(rem_u64_spec(low32(a) as u64, low32(b) as u64))))
        },
        RvInsn::Addi(r) => {
            let (a, i) = (m.isa.xr(r.rs1), imm64(r.imm));
            set_x(m, r.rd, a.wrapping_add(i))
        },
        RvInsn::Slti(r) => {
            let (a, i) = (m.isa.xr(r.rs1), imm64(r.imm));
            set_x(m, r.rd, if lt_signed_spec(a, i) { 1u64 } else { 0u64 })
        },
        RvInsn::Sltiu(r) => {
            let (a, i) = (m.isa.xr(r.rs1), imm64(r.imm));
            set_x(m, r.rd, if a < i { 1u64 } else { 0u64 })
        },
        RvInsn::Xori(r) => {
            let (a, i) = (m.isa.xr(r.rs1), imm64(r.imm));
            set_x(m, r.rd, a ^ i)
        },
        RvInsn::Ori(r) => {
            let (a, i) = (m.isa.xr(r.rs1), imm64(r.imm));
            set_x(m, r.rd, a | i)
        },
        RvInsn::Andi(r) => {
            let (a, i) = (m.isa.xr(r.rs1), imm64(r.imm));
            set_x(m, r.rd, a & i)
        },
        RvInsn::Addiw(r) => {
            let (a, i) = (m.isa.xr(r.rs1), imm64(r.imm));
            set_x(m, r.rd, sext32_spec(low32(a.wrapping_add(i))))
        },
        RvInsn::Slli(r) => {
            let (a, s) = (m.isa.xr(r.rs1), r.shamt);
            set_x(m, r.rd, a << ((s as u64) & mask))
        },
        RvInsn::Srli(r) => {
            let (a, s) = (m.isa.xr(r.rs1), r.shamt);
            set_x(m, r.rd, a >> ((s as u64) & mask))
        },
        RvInsn::Srai(r) => {
            let (a, s) = (m.isa.xr(r.rs1), r.shamt);
            set_x(m, r.rd, sra64(a, (s as u64) & mask))
        },
        RvInsn::Slliw(r) => {
            let (a, s) = (m.isa.xr(r.rs1), r.shamt);
            set_x(m, r.rd, sext32_spec(low32(a) << ((s as u32) & 31)))
        },
        RvInsn::Srliw(r) => {
            let (a, s) = (m.isa.xr(r.rs1), r.shamt);
            set_x(m, r.rd, sext32_spec(low32(a) >> ((s as u32) & 31)))
        },
        RvInsn::Sraiw(r) => {
            let (a, s) = (m.isa.xr(r.rs1), r.shamt);
            set_x(m, r.rd, sext32_spec(sra32(low32(a), (s as u32) & 31)))
        },
        RvInsn::Beq(r) => {
            let (a, b) = (m.isa.xr(r.rs1), m.isa.xr(r.rs2));
            branch(m, a == b, r.imm)
        },
        RvInsn::Bne(r) => {
            let (a, b) = (m.isa.xr(r.rs1), m.isa.xr(r.rs2));
            branch(m, a != b, r.imm)
        },
        RvInsn::Blt(r) => {
            let (a, b) = (m.isa.xr(r.rs1), m.isa.xr(r.rs2));
            branch(m, lt_signed_spec(a, b), r.imm)
        },
        RvInsn::Bge(r) => {
            let (a, b) = (m.isa.xr(r.rs1), m.isa.xr(r.rs2));
            branch(m, !lt_signed_spec(a, b), r.imm)
        },
        RvInsn::Bltu(r) => {
            let (a, b) = (m.isa.xr(r.rs1), m.isa.xr(r.rs2));
            branch(m, a < b, r.imm)
        },
        RvInsn::Bgeu(r) => {
            let (a, b) = (m.isa.xr(r.rs1), m.isa.xr(r.rs2));
            branch(m, a >= b, r.imm)
        },
        RvInsn::Lb(r) => do_load_x(m, r.rd, ea(m, r.rs1, r.imm), 1, true),
        RvInsn::Lh(r) => do_load_x(m, r.rd, ea(m, r.rs1, r.imm), 2, true),
        RvInsn::Lw(r) => do_load_x(m, r.rd, ea(m, r.rs1, r.imm), 4, true),
        RvInsn::Lbu(r) => do_load_x(m, r.rd, ea(m, r.rs1, r.imm), 1, false),
        RvInsn::Lhu(r) => do_load_x(m, r.rd, ea(m, r.rs1, r.imm), 2, false),
        RvInsn::Lwu(r) => do_load_x(m, r.rd, ea(m, r.rs1, r.imm), 4, false),
        RvInsn::Ld(r) => do_load_x(m, r.rd, ea(m, r.rs1, r.imm), 8, false),
        RvInsn::Sb(r) => do_store(m, ea(m, r.rs1, r.imm), 1, m.isa.xr(r.rs2)),
        RvInsn::Sh(r) => do_store(m, ea(m, r.rs1, r.imm), 2, m.isa.xr(r.rs2)),
        RvInsn::Sw(r) => do_store(m, ea(m, r.rs1, r.imm), 4, m.isa.xr(r.rs2)),
        RvInsn::Sd(r) => do_store(m, ea(m, r.rs1, r.imm), 8, m.isa.xr(r.rs2)),
        RvInsn::Flw(r) => do_load_f(m, r.rd, ea(m, r.rs1, r.imm), 4),
        RvInsn::Fld(r) => do_load_f(m, r.rd, ea(m, r.rs1, r.imm), 8),
        RvInsn::Fsw(r) => do_store(m, ea(m, r.rs1, r.imm), 4, m.isa.fr(r.rs2)),
        RvInsn::Fsd(r) => do_store(m, ea(m, r.rs1, r.imm), 8, m.isa.fr(r.rs2)),
        RvInsn::FmvXW(r) => set_x(m, r.rd, sext32_spec(low32(m.isa.fr(r.rs1)))),
        RvInsn::FmvWX(r) => set_f(m, r.rd, nanbox(low32(m.isa.xr(r.rs1)))),
        RvInsn::FmvXD(r) => set_x(m, r.rd, m.isa.fr(r.rs1)),
        RvInsn::FmvDX(r) => set_f(m, r.rd, m.isa.xr(r.rs1)),
        RvInsn::Lui(r) => set_x(m, r.rd, imm64(r.imm)),
        RvInsn::Auipc(r) => set_x(m, r.rd, m.isa.pc.wrapping_add(imm64(r.imm))),
        RvInsn::Jal(r) => (
            set_x(m, r.rd, m.isa.pc.wrapping_add(len)).0,
            StopReason::ContinueAt(m.isa.pc.wrapping_add(imm64(r.imm))),
        ),
        RvInsn::Jalr(r) => (
            set_x(m, r.rd, m.isa.pc.wrapping_add(len)).0,
            StopReason::ContinueAt(ea(m, r.rs1, r.imm) & 0xffff_ffff_ffff_fffe),
        ),
        RvInsn::Fence(_) => (m, StopReason::Next),
        RvInsn::Ecall => (m, StopReason::Ecall),
        RvInsn::Ebreak => (m, StopReason::Break),
        RvInsn::Invalid(_) => (m, StopReason::ReservedInsn),
        _ => (m, StopReason::Unimplemented),
    }
}

/// Bytes `a`..`a + n` are all mapped.
pub open spec fn all_mapped(mem: Seq<RegionView>, a: int, n: nat) -> bool {
    forall|k: int| 0 <= k < n ==> #[trigger] mem_byte(mem, a + k) is Some
}

pub open spec fn bytes_at(mem: Seq<RegionView>, a: int, n: nat) -> Seq<u8> {
    Seq::new(n, |k: int| mem_byte(mem, a + k).unwrap())
}

/// The instruction at the program counter and its length, or why it cannot be fetched.
pub open spec fn fetch(m: Machine, xlen: usize) -> Result<(RvInsn, u64), StopReason> {
    let pc = m.isa.pc;
    match mem_byte(m.mem, pc as int) {
        None => Err(StopReason::Segv { read: true, gaddr: pc }),
        Some(b0) => {
            let n: nat = if b0 & 3 == 3 { 4 } else { 2 };
            if all_mapped(m.mem, pc as int, n) {
                match decode_buf(xlen, bytes_at(m.mem, pc as int, n)) {
                    Some((insn, len)) => Ok((insn, len as u64)),
                    None => Err(StopReason::ReservedInsn),
                }
            } else {
                Err(StopReason::Segv { read: true, gaddr: pc })
            }
        },
    }
}

/// One step: fetch, decode, execute, and move the program counter to the redirect
/// target or past the instruction. A failed fetch changes nothing.
pub open spec fn step(m: Machine, xlen: usize, mask: u64) -> (Machine, StopReason) {
    match fetch(m, xlen) {
        Err(e) => (m, e),
        Ok((insn, len)) => {
            let (m1, r) = exec_insn(m, insn, len, mask);
            let npc = match r {
                StopReason::ContinueAt(t) => t,
                _ => m.isa.pc.wrapping_add(len),
            };
            (Machine { isa: IsaView { pc: npc, ..m1.isa }, mem: m1.mem }, r)
        },
    }
}

pub open spec fn continues(r: StopReason) -> bool {
    r is Next || r is ContinueAt
}

/// At most `fuel` steps from `m`: the machine after them, and the first stop reason that
/// does not continue, if one came.
pub open spec fn run(m: Machine, xlen: usize, mask: u64, fuel: nat) -> (Machine, Option<StopReason>)
    decreases fuel,
{
    if fuel == 0 {
        (m, None)
    } else {
        let (m1, r) = step(m, xlen, mask);
        if continues(r) {
            run(m1, xlen, mask, (fuel - 1) as nat)
        } else {
            (m1, Some(r))
        }
    }
}

fn imm_u64(imm: i32) -> (r: u64)
    ensures
        r == imm64(imm),
{
    if imm >= 0 {
        imm as u64
    } else {
        u64::MAX - ((-(imm as i64) - 1) as u64)
    }
}

fn low32_of(x: u64) -> (r: u32)
    ensures
        r == low32(x),
{
    (x & 0xffff_ffff) as u32
}

fn sx32(w: u32) -> (r: u64)
    ensures
        r == sext32_spec(w),
{
    sext_u32(w)
}

fn lt_signed(a: u64, b: u64) -> (r: bool)
    ensures
        r == lt_signed_spec(a, b),
{
    let na = a >= 0x8000_0000_0000_0000;
    let nb = b >= 0x8000_0000_0000_0000;
    if na != nb {
        na
    } else {
        a < b
    }
}

fn sra64_exec(a: u64, s: u64) -> (r: u64)
    requires
        s < 64,
    ensures
        r == sra64(a, s),
{
    if a >> 63u64 == 1 {
        !((!a) >> s)
    } else {
        a >> s
    }
}

fn sra32_exec(w: u32, s: u32) -> (r: u32)
    requires
        s < 32,
    ensures
        r == sra32(w, s),
{
    if w >> 31u32 == 1 {
        !((!w) >> s)
    } else {
        w >> s
    }
}

proof fn lemma_masks(b: u64, mask: u64)
    requires
        mask == 31 || mask == 63,
    ensures
        b & mask < 64,
{
    assert(b & 31 < 64) by (bit_vector);
    assert(b & 63 < 64) by (bit_vector);
}

proof fn lemma_mask32(w: u32)
    ensures
        w & 31 < 32,
{
    assert(w & 31 < 32) by (bit_vector);
}

/// An interpreter for one hart: its registers, its guest memory and a decoder.
pub struct RvInterpreterExecutor {
    shamt_mask: u64,
    state: RvIsaState,
    mmu: GuestMmu,
    decoder: RvDecoder,
}

impl RvInterpreterExecutor {
    pub closed spec fn view(&self) -> Machine {
        Machine { isa: self.state@, mem: self.mmu@ }
    }

    pub closed spec fn xlen(&self) -> usize {
        self.decoder.xlen()
    }

    pub closed spec fn mask(&self) -> u64 {
        self.shamt_mask
    }

    pub closed spec fn wf(&self) -> bool {
        &&& self.mmu.wf()
        &&& self.state@.wf()
        &&& (self.xlen() == 32 || self.xlen() == 64)
        &&& self.shamt_mask == self.xlen() - 1
    }

    pub closed spec fn mmu_spec(&self) -> GuestMmu {
        self.mmu
    }

    pub fn new(xlen: usize, state: RvIsaState, mmu: GuestMmu) -> (r: RvInterpreterExecutor)
        requires
            xlen == 32 || xlen == 64,
            mmu.wf(),
        ensures
            r.wf(),
            r.xlen() == xlen,
            r.mask() == xlen - 1,
            r.view() == (Machine { isa: state@, mem: mmu@ }),
            r.mmu_spec().alloc_granule() == mmu.alloc_granule(),
    {
        proof {
            state.lemma_wf();
        }
        RvInterpreterExecutor {
            shamt_mask: (xlen - 1) as u64,
            state,
            mmu,
            decoder: RvDecoder::new(xlen),
        }
    }

    /// What a well-formed executor guarantees: a register file with `x0` zero, a
    /// well-formed guest memory, and a positive allocation size.
    pub proof fn lemma_wf(&self)
        requires
            self.wf(),
        ensures
            self.view().isa.wf(),
            self.mmu_spec().wf(),
            self.mmu_spec().alloc_granule() > 0,
    {
        self.mmu.lemma_wf_regions();
    }

    pub fn state(&self) -> (r: &RvIsaState)
        ensures
            r@ == self.view().isa,
    {
        &self.state
    }

    pub fn mmu(&self) -> (r: &GuestMmu)
        ensures
            *r == self.mmu_spec(),
    {
        &self.mmu
    }

    /// Gives back the registers and the guest memory.
    pub fn into_parts(self) -> (r: (RvIsaState, GuestMmu))
        ensures
            r.0@ == self.view().isa,
            r.1 == self.mmu_spec(),
    {
        (self.state, self.mmu)
    }

    /// Allocates a stack of `len` bytes and points `sp` (`x2`) at its top.
    pub fn stack(&mut self, len: usize) -> (r: Result<(), MmuError>)
        requires
            old(self).wf(),
        ensures
            final(self).wf(),
            final(self).xlen() == old(self).xlen(),
            final(self).mask() == old(self).mask(),
            len == 0 <==> r == Err::<(), MmuError>(MmuError::InvalidLength),
            r == Err::<(), MmuError>(MmuError::TooLarge) <==> (len != 0 && len + old(
                self,
            ).mmu_spec().alloc_granule() > usize::MAX),
            r is Err ==> final(self).view() == old(self).view(),
            final(self).mmu_spec().alloc_granule() == old(self).mmu_spec().alloc_granule(),
            r is Ok ==> ({
                let mem = final(self).view().mem;
                let nr = mem.last();
                &&& mem.len() == old(self).view().mem.len() + 1
                &&& mem.drop_last() == old(self).view().mem
                &&& nr.host_base == nr.base
                &&& nr.writable
                &&& nr.bytes == Seq::new(
                    crate::exec::mem::round_up(len as int, old(self).mmu_spec().alloc_granule())
                        as nat,
                    |i: int| 0u8,
                )
                &&& final(self).view().isa == old(self).view().isa.wx(
                    2,
                    (nr.base as u64).wrapping_add(len as u64),
                )
            }),
    {
        let g = self.mmu.mmap(len, true)?;
        let top = g.0.wrapping_add(len as u64);
        assert(self.mmu@.drop_last() =~= old(self).mmu@);
        self.state.set_x(2, top);
        Ok(())
    }

    /// Serves the result of a system call: `a0` (`x10`) takes `value`.
    pub fn syscall_return(&mut self, value: u64)
        requires
            old(self).wf(),
        ensures
            final(self).wf(),
            final(self).xlen() == old(self).xlen(),
            final(self).mask() == old(self).mask(),
            final(self).view() == (Machine {
                isa: old(self).view().isa.wx(10, value),
                mem: old(self).view().mem,
            }),
    {
        self.state.set_x(10, value);
    }

    fn set_rd(&mut self, rd: u8, v: u64) -> (r: StopReason)
        requires
            old(self).wf(),
        ensures
            final(self).wf(),
            final(self).xlen() == old(self).xlen(),
            final(self).mask() == old(self).mask(),
            (final(self).view(), r) == set_x(old(self).view(), rd, v),
    {
        self.state.set_x(rd, v);
        StopReason::Next
    }

    fn branch(&self, taken: bool, imm: i32) -> (r: StopReason)
        ensures
            (self.view(), r) == branch(self.view(), taken, imm),
    {
        if taken {
            StopReason::ContinueAt(self.state.get_pc().wrapping_add(imm_u64(imm)))
        } else {
            StopReason::Next
        }
    }

    fn load_x(&mut self, rd: u8, addr: u64, n: u64, signed: bool) -> (r: StopReason)
        requires
            old(self).wf(),
            n == 1 || n == 2 || n == 4 || n == 8,
            signed ==> n != 8,
        ensures
            final(self).wf(),
            final(self).xlen() == old(self).xlen(),
            final(self).mask() == old(self).mask(),
            (final(self).view(), r) == do_load_x(old(self).view(), rd, addr, n as nat, signed),
    {
        match self.mmu.load(addr, n) {
            Some(v) => {
                proof {
                    lemma_load_bound(self.mmu@, addr as int, n as nat);
                    reveal_with_fuel(pow256, 9);
                    lemma2_to64();
                }
                let x = if !signed {
                    v
                } else if n == 1 {
                    sext_u8(v as u8)
                } else if n == 2 {
                    sext_u16(v as u16)
                } else {
                    sext_u32(v as u32)
                };
                self.set_rd(rd, x)
            },
            None => StopReason::Segv { read: true, gaddr: addr },
        }
    }

    fn load_f(&mut self, rd: u8, addr: u64, n: u64) -> (r: StopReason)
        requires
            old(self).wf(),
            n == 4 || n == 8,
        ensures
            final(self).wf(),
            final(self).xlen() == old(self).xlen(),
            final(self).mask() == old(self).mask(),
            (final(self).view(), r) == do_load_f(old(self).view(), rd, addr, n as nat),
    {
        match self.mmu.load(addr, n) {
            Some(v) => {
                proof {
                    lemma_load_bound(self.mmu@, addr as int, n as nat);
                    reveal_with_fuel(pow256, 9);
                }
                let x = if n == 4 {
                    0xffff_ffff_0000_0000u64 | v
                } else {
                    v
                };
                self.state.set_f64(rd, x);
                StopReason::Next
            },
            None => StopReason::Segv { read: true, gaddr: addr },
        }
    }

    fn store_n(&mut self, addr: u64, n: u64, v: u64) -> (r: StopReason)
        requires
            old(self).wf(),
            n == 1 || n == 2 || n == 4 || n == 8,
        ensures
            final(self).wf(),
            final(self).xlen() == old(self).xlen(),
            final(self).mask() == old(self).mask(),
            (final(self).view(), r) == do_store(old(self).view(), addr, n as nat, v),
    {
        if self.mmu.store(addr, n, v) {
            StopReason::Next
        } else {
            StopReason::Segv { read: false, gaddr: addr }
        }
    }

    /// Executes one decoded instruction of `len` bytes; the program counter is not moved.
    fn interpret_one(&mut self, insn: RvInsn, len: u64) -> (r: StopReason)
        requires
            old(self).wf(),
        ensures
            final(self).wf(),
            final(self).xlen() == old(self).xlen(),
            final(self).mask() == old(self).mask(),
            (final(self).view(), r) == exec_insn(old(self).view(), insn, len, old(self).mask()),
    {
        match insn {
            RvInsn::Add(r) => {
                let (a, b) = (self.state.get_x(r.rs1), self.state.get_x(r.rs2));
                let v = a.wrapping_add(b);
                self.set_rd(r.rd, v)
            },
            RvInsn::Sub(r) => {
                let (a, b) = (self.state.get_x(r.rs1), self.state.get_x(r.rs2));
                let v = a.wrapping_sub(b);
                self.set_rd(r.rd, v)
            },
            RvInsn::Sll(r) => {
                let (a, b) = (self.state.get_x(r.rs1), self.state.get_x(r.rs2));
                proof {
                    lemma_masks(b, self.shamt_mask);
                }
                let v = a << (b & self.shamt_mask);
                self.set_rd(r.rd, v)
            },
            RvInsn::Slt(r) => {
                let (a, b) = (self.state.get_x(r.rs1), self.state.get_x(r.rs2));
                let v = if lt_signed(a, b) { 1u64 } else { 0u64 };
                self.set_rd(r.rd, v)
            },
            RvInsn::Sltu(r) => {
                let (a, b) = (self.state.get_x(r.rs1), self.state.get_x(r.rs2));
                let v = if a < b { 1u64 } else { 0u64 };
                self.set_rd(r.rd, v)
            },
            RvInsn::Xor(r) => {
                let (a, b) = (self.state.get_x(r.rs1), self.state.get_x(r.rs2));
                let v = a ^ b;
                self.set_rd(r.rd, v)
            },
            RvInsn::Srl(r) => {
                let (a, b) = (self.state.get_x(r.rs1), self.state.get_x(r.rs2));
                proof {
                    lemma_masks(b, self.shamt_mask);
                }
                let v = a >> (b & self.shamt_mask);
                self.set_rd(r.rd, v)
            },
            RvInsn::Sra(r) => {
                let (a, b) = (self.state.get_x(r.rs1), self.state.get_x(r.rs2));
                proof {
                    lemma_masks(b, self.shamt_mask);
                }
                let v = sra64_exec(a, b & self.shamt_mask);
                self.set_rd(r.rd, v)
            },
            RvInsn::Or(r) => {
                let (a, b) = (self.state.get_x(r.rs1), self.state.get_x(r.rs2));
                let v = a | b;
                self.set_rd(r.rd, v)
            },
            RvInsn::And(r) => {
                let (a, b) = (self.state.get_x(r.rs1), self.state.get_x(r.rs2));
                let v = a & b;
                self.set_rd(r.rd, v)
            },
            RvInsn::Addw(r) => {
                let (a, b) = (self.state.get_x(r.rs1), self.state.get_x(r.rs2));
                let v = sx32(low32_of(a.wrapping_add(b)));
                self.set_rd(r.rd, v)
            },
            RvInsn::Subw(r) => {
                let (a, b) = (self.state.get_x(r.rs1), self.state.get_x(r.rs2));
                let v = sx32(low32_of(a.wrapping_sub(b)));
                self.set_rd(r.rd, v)
            },
            RvInsn::Sllw(r) => {
                let (a, b) = (self.state.get_x(r.rs1), self.state.get_x(r.rs2));
                proof {
                    lemma_mask32(low32(b));
                }
                let v = sx32(low32_of(a) << (low32_of(b) & 31));
                self.set_rd(r.rd, v)
            },
            RvInsn::Srlw(r) => {
                let (a, b) = (self.state.get_x(r.rs1), self.state.get_x(r.rs2));
                proof {
                    lemma_mask32(low32(b));
                }
                let v = sx32(low32_of(a) >> (low32_of(b) & 31));
                self.set_rd(r.rd, v)
            },
            RvInsn::Sraw(r) => {
                let (a, b) = (self.state.get_x(r.rs1), self.state.get_x(r.rs2));
                proof {
                    lemma_mask32(low32(b));
                }
                let v = sx32(sra32_exec(low32_of(a), low32_of(b) & 31));
                self.set_rd(r.rd, v)
            },
            RvInsn::Mul(r) => {
                let (a, b) = (self.state.get_x(r.rs1), self.state.get_x(r.rs2));
                let v = a.wrapping_mul(b);
                self.set_rd(r.rd, v)
            },
            RvInsn::Mulh(r) => {
                let (a, b) = (self.state.get_x(r.rs1), self.state.get_x(r.rs2));
                let v = mulh(a, b);
                self.set_rd(r.rd, v)
            },
            RvInsn::Mulhsu(r) => {
                let (a, b) = (self.state.get_x(r.rs1), self.state.get_x(r.rs2));
                let v = mulhsu(a, b);
                self.set_rd(r.rd, v)
            },
            RvInsn::Mulhu(r) => {
                let (a, b) = (self.state.get_x(r.rs1), self.state.get_x(r.rs2));
                let v = mulhu(a, b);
                self.set_rd(r.rd, v)
            },
            RvInsn::Div(r) => {
                let (a, b) = (self.state.get_x(r.rs1), self.state.get_x(r.rs2));
                let v = div_s64(a, b);
                self.set_rd(r.rd, v)
            },
            RvInsn::Divu(r) => {
                let (a, b) = (self.state.get_x(r.rs1), self.state.get_x(r.rs2));
                let v = div_u64(a, b);
                self.set_rd(r.rd, v)
            },
            RvInsn::Rem(r) => {
                let (a, b) = (self.state.get_x(r.rs1), self.state.get_x(r.rs2));
                let v = rem_s64(a, b);
                self.set_rd(r.rd, v)
            },
            RvInsn::Remu(r) => {
                let (a, b) = (self.state.get_x(r.rs1), self.state.get_x(r.rs2));
                let v = rem_u64(a, b);
                self.set_rd(r.rd, v)
            },
            RvInsn::Mulw(r) => {
                let (a, b) = (self.state.get_x(r.rs1), self.state.get_x(r.rs2));
                let v = sx32(low32_of(a.wrapping_mul(b)));
                self.set_rd(r.rd, v)
            },
            RvInsn::Divw(r) => {
                let (a, b) = (self.state.get_x(r.rs1), self.state.get_x(r.rs2));
                let v = sx32(low32_of(div_s64(sx32(low32_of(a)), sx32(low32_of(b)))));
                self.set_rd(r.rd, v)
            },
            RvInsn::Divuw(r) => {
                let (a, b) = (self.state.get_x(r.rs1), self.state.get_x(r.rs2));
                let v = sx32(low32_of(div_u64(low32_of(a) as u64, low32_of(b) as u64)));
                self.set_rd(r.rd, v)
            },
            RvInsn::Remw(r) => {
                let (a, b) = (self.state.get_x(r.rs1), self.state.get_x(r.rs2));
                let v = sx32(low32_of(rem_s64(sx32(low32_of(a)), sx32(low32_of(b)))));
                self.set_rd(r.rd, v)
            },
            RvInsn::Remuw(r) => {
                let (a, b) = (self.state.get_x(r.rs1), self.state.get_x(r.rs2));
                let v = sx32(low32_of(rem_u64(low32_of(a) as u64, low32_of(b) as u64)));
                self.set_rd(r.rd, v)
            },
            RvInsn::Addi(r) => {
                let (a, i) = (self.state.get_x(r.rs1), imm_u64(r.imm));
                let v = a.wrapping_add(i);
                self.set_rd(r.rd, v)
            },
            RvInsn::Slti(r) => {
                let (a, i) = (self.state.get_x(r.rs1), imm_u64(r.imm));
                let v = if lt_signed(a, i) { 1u64 } else { 0u64 };
                self.set_rd(r.rd, v)
            },
            RvInsn::Sltiu(r) => {
                let (a, i) = (self.state.get_x(r.rs1), imm_u64(r.imm));
                let v = if a < i { 1u64 } else { 0u64 };
                self.set_rd(r.rd, v)
            },
            RvInsn::Xori(r) => {
                let (a, i) = (self.state.get_x(r.rs1), imm_u64(r.imm));
                let v = a ^ i;
                self.set_rd(r.rd, v)
            },
            RvInsn::Ori(r) => {
                let (a, i) = (self.state.get_x(r.rs1), imm_u64(r.imm));
                let v = a | i;
                self.set_rd(r.rd, v)
            },
            RvInsn::Andi(r) => {
                let (a, i) = (self.state.get_x(r.rs1), imm_u64(r.imm));
                let v = a & i;
                self.set_rd(r.rd, v)
            },
            RvInsn::Addiw(r) => {
                let (a, i) = (self.state.get_x(r.rs1), imm_u64(r.imm));
                let v = sx32(low32_of(a.wrapping_add(i)));
                self.set_rd(r.rd, v)
            },
            RvInsn::Slli(r) => {
                let (a, s) = (self.state.get_x(r.rs1), r.shamt);
                proof {
                    lemma_masks(s as u64, self.shamt_mask);
                }
                let v = a << ((s as u64) & self.shamt_mask);
                self.set_rd(r.rd, v)
            },
            RvInsn::Srli(r) => {
                let (a, s) = (self.state.get_x(r.rs1), r.shamt);
                proof {
                    lemma_masks(s as u64, self.shamt_mask);
                }
                let v = a >> ((s as u64) & self.shamt_mask);
                self.set_rd(r.rd, v)
            },
            RvInsn::Srai(r) => {
                let (a, s) = (self.state.get_x(r.rs1), r.shamt);
                proof {
                    lemma_masks(s as u64, self.shamt_mask);
                }
                let v = sra64_exec(a, (s as u64) & self.shamt_mask);
                self.set_rd(r.rd, v)
            },
            RvInsn::Slliw(r) => {
                let (a, s) = (self.state.get_x(r.rs1), r.shamt);
                proof {
                    lemma_mask32(s as u32);
                }
                let v = sx32(low32_of(a) << ((s as u32) & 31));
                self.set_rd(r.rd, v)
            },
            RvInsn::Srliw(r) => {
                let (a, s) = (self.state.get_x(r.rs1), r.shamt);
                proof {
                    lemma_mask32(s as u32);
                }
                let v = sx32(low32_of(a) >> ((s as u32) & 31));
                self.set_rd(r.rd, v)
            },
            RvInsn::Sraiw(r) => {
                let (a, s) = (self.state.get_x(r.rs1), r.shamt);
                proof {
                    lemma_mask32(s as u32);
                }
                let v = sx32(sra32_exec(low32_of(a), (s as u32) & 31));
                self.set_rd(r.rd, v)
            },
            RvInsn::Beq(r) => {
                let (a, b) = (self.state.get_x(r.rs1), self.state.get_x(r.rs2));
                let c = a == b;
                self.branch(c, r.imm)
            },
            RvInsn::Bne(r) => {
                let (a, b) = (self.state.get_x(r.rs1), self.state.get_x(r.rs2));
                let c = a != b;
                self.branch(c, r.imm)
            },
            RvInsn::Blt(r) => {
                let (a, b) = (self.state.get_x(r.rs1), self.state.get_x(r.rs2));
                let c = lt_signed(a, b);
                self.branch(c, r.imm)
            },
            RvInsn::Bge(r) => {
                let (a, b) = (self.state.get_x(r.rs1), self.state.get_x(r.rs2));
                let c = !lt_signed(a, b);
                self.branch(c, r.imm)
            },
            RvInsn::Bltu(r) => {
                let (a, b) = (self.state.get_x(r.rs1), self.state.get_x(r.rs2));
                let c = a < b;
                self.branch(c, r.imm)
            },
            RvInsn::Bgeu(r) => {
                let (a, b) = (self.state.get_x(r.rs1), self.state.get_x(r.rs2));
                let c = a >= b;
                self.branch(c, r.imm)
            },
            RvInsn::Lb(r) => {
                let addr = self.state.get_x(r.rs1).wrapping_add(imm_u64(r.imm));
                self.load_x(r.rd, addr, 1, true)
            },
            RvInsn::Lh(r) => {
                let addr = self.state.get_x(r.rs1).wrapping_add(imm_u64(r.imm));
                self.load_x(r.rd, addr, 2, true)
            },
            RvInsn::Lw(r) => {
                let addr = self.state.get_x(r.rs1).wrapping_add(imm_u64(r.imm));
                self.load_x(r.rd, addr, 4, true)
            },
            RvInsn::Lbu(r) => {
                let addr = self.state.get_x(r.rs1).wrapping_add(imm_u64(r.imm));
                self.load_x(r.rd, addr, 1, false)
            },
            RvInsn::Lhu(r) => {
                let addr = self.state.get_x(r.rs1).wrapping_add(imm_u64(r.imm));
                self.load_x(r.rd, addr, 2, false)
            },
            RvInsn::Lwu(r) => {
                let addr = self.state.get_x(r.rs1).wrapping_add(imm_u64(r.imm));
                self.load_x(r.rd, addr, 4, false)
            },
            RvInsn::Ld(r) => {
                let addr = self.state.get_x(r.rs1).wrapping_add(imm_u64(r.imm));
                self.load_x(r.rd, addr, 8, false)
            },
            RvInsn::Sb(r) => {
                let addr = self.state.get_x(r.rs1).wrapping_add(imm_u64(r.imm));
                let v = self.state.get_x(r.rs2);
                self.store_n(addr, 1, v)
            },
            RvInsn::Sh(r) => {
                let addr = self.state.get_x(r.rs1).wrapping_add(imm_u64(r.imm));
                let v = self.state.get_x(r.rs2);
                self.store_n(addr, 2, v)
            },
            RvInsn::Sw(r) => {
                let addr = self.state.get_x(r.rs1).wrapping_add(imm_u64(r.imm));
                let v = self.state.get_x(r.rs2);
                self.store_n(addr, 4, v)
            },
            RvInsn::Sd(r) => {
                let addr = self.state.get_x(r.rs1).wrapping_add(imm_u64(r.imm));
                let v = self.state.get_x(r.rs2);
                self.store_n(addr, 8, v)
            },
            RvInsn::Flw(r) => {
                let addr = self.state.get_x(r.rs1).wrapping_add(imm_u64(r.imm));
                self.load_f(r.rd, addr, 4)
            },
            RvInsn::Fld(r) => {
                let addr = self.state.get_x(r.rs1).wrapping_add(imm_u64(r.imm));
                self.load_f(r.rd, addr, 8)
            },
            RvInsn::Fsw(r) => {
                let addr = self.state.get_x(r.rs1).wrapping_add(imm_u64(r.imm));
                let v = self.state.get_f64(r.rs2);
                self.store_n(addr, 4, v)
            },
            RvInsn::Fsd(r) => {
                let addr = self.state.get_x(r.rs1).wrapping_add(imm_u64(r.imm));
                let v = self.state.get_f64(r.rs2);
                self.store_n(addr, 8, v)
            },
            RvInsn::FmvXW(r) => {
                let v = sx32(low32_of(self.state.get_f64(r.rs1)));
                self.set_rd(r.rd, v)
            },
            RvInsn::FmvWX(r) => {
                let v = 0xffff_ffff_0000_0000u64 | (low32_of(self.state.get_x(r.rs1)) as u64);
                self.state.set_f64(r.rd, v);
                StopReason::Next
            },
            RvInsn::FmvXD(r) => {
                let v = self.state.get_f64(r.rs1);
                self.set_rd(r.rd, v)
            },
            RvInsn::FmvDX(r) => {
                let v = self.state.get_x(r.rs1);
                self.state.set_f64(r.rd, v);
                StopReason::Next
            },
            RvInsn::Lui(r) => {
                let v = imm_u64(r.imm);
                self.set_rd(r.rd, v)
            },
            RvInsn::Auipc(r) => {
                let v = self.state.get_pc().wrapping_add(imm_u64(r.imm));
                self.set_rd(r.rd, v)
            },
            RvInsn::Jal(r) => {
                let pc = self.state.get_pc();
                let target = pc.wrapping_add(imm_u64(r.imm));
                self.set_rd(r.rd, pc.wrapping_add(len));
                StopReason::ContinueAt(target)
            },
            RvInsn::Jalr(r) => {
                let pc = self.state.get_pc();
                let target = self.state.get_x(r.rs1).wrapping_add(imm_u64(r.imm)) & 0xffff_ffff_ffff_fffe;
                self.set_rd(r.rd, pc.wrapping_add(len));
                StopReason::ContinueAt(target)
            },
            RvInsn::Fence(_) => {
                full_fence();
                StopReason::Next
            },
            RvInsn::Ecall => StopReason::Ecall,
            RvInsn::Ebreak => StopReason::Break,
            RvInsn::Invalid(_) => StopReason::ReservedInsn,
            _ => StopReason::Unimplemented,
        }
    }
    fn fetch_insn(&self) -> (r: Result<(RvInsn, u64), StopReason>)
        requires
            self.wf(),
        ensures
            r == fetch(self.view(), self.xlen()),
    {
        let pc = self.state.get_pc();
        let b0 = match self.mmu.read_u8(pc) {
            Some(b) => b,
            None => {
                return Err(StopReason::Segv { read: true, gaddr: pc });
            },
        };
        let n: u64 = if b0 & 0b11 == 0b11 {
            4
        } else {
            2
        };
        let ghost m = self.mmu@;
        let mut buf: Vec<u8> = Vec::new();
        buf.push(b0);
        let mut k: u64 = 1;
        while k < n
            invariant
                self.wf(),
                m == self.mmu@,
                pc == self.view().isa.pc,
                n == (if b0 & 3 == 3 { 4u64 } else { 2u64 }),
                1 <= k <= n,
                n == 2 || n == 4,
                buf@.len() == k,
                mem_byte(m, pc as int) == Some(b0),
                forall|j: int| 0 <= j < k ==> #[trigger] mem_byte(m, pc + j) == Some(buf@[j]),
            decreases n - k,
        {
            if k > u64::MAX - pc {
                proof {
                    self.mmu.lemma_wf_regions();
                    lemma_unmapped_high(m, pc + k);
                    assert(!all_mapped(m, pc as int, n as nat));
                }
                return Err(StopReason::Segv { read: true, gaddr: pc });
            }
            match self.mmu.read_u8(pc + k) {
                Some(b) => {
                    buf.push(b);
                },
                None => {
                    assert(mem_byte(m, pc as int + k as int) is None);
                    assert(!all_mapped(m, pc as int, n as nat));
                    return Err(StopReason::Segv { read: true, gaddr: pc });
                },
            }
            k = k + 1;
        }
        proof {
            assert(mem_byte(m, pc + 0) == Some(b0));
            assert(all_mapped(m, pc as int, n as nat));
            assert(buf@ =~= bytes_at(m, pc as int, n as nat));
        }
        match self.decoder.disas(buf.as_slice()) {
            Some((insn, len)) => Ok((insn, len as u64)),
            None => Err(StopReason::ReservedInsn),
        }
    }

    /// Fetches, decodes and executes the instruction at the program counter, then moves
    /// the program counter on.
    pub fn exec_one(&mut self) -> (r: StopReason)
        requires
            old(self).wf(),
        ensures
            final(self).wf(),
            final(self).xlen() == old(self).xlen(),
            final(self).mask() == old(self).mask(),
            (final(self).view(), r) == step(old(self).view(), old(self).xlen(), old(self).mask()),
    {
        let (insn, len) = match self.fetch_insn() {
            Ok(x) => x,
            Err(e) => {
                return e;
            },
        };
        let pc = self.state.get_pc();
        let res = self.interpret_one(insn, len);
        let new_pc = match res {
            StopReason::ContinueAt(t) => t,
            _ => pc.wrapping_add(len),
        };
        self.state.set_pc(new_pc);
        res
    }

    /// Runs from the program counter for at most `fuel` steps: the first stop reason that
    /// does not continue, or `None` where the steps ran out.
    pub fn resume(&mut self, fuel: u64) -> (r: Option<StopReason>)
        requires
            old(self).wf(),
        ensures
            final(self).wf(),
            final(self).xlen() == old(self).xlen(),
            final(self).mask() == old(self).mask(),
            (final(self).view(), r) == run(
                old(self).view(),
                old(self).xlen(),
                old(self).mask(),
                fuel as nat,
            ),
    {
        let mut left: u64 = fuel;
        while left > 0
            invariant
                self.wf(),
                self.xlen() == old(self).xlen(),
                self.mask() == old(self).mask(),
                run(old(self).view(), old(self).xlen(), old(self).mask(), fuel as nat) == run(
                    self.view(),
                    self.xlen(),
                    self.mask(),
                    left as nat,
                ),
            decreases left,
        {
            let x = self.exec_one();
            left = left - 1;
            match x {
                StopReason::Next | StopReason::ContinueAt(_) => {},
                _ => {
                    return Some(x);
                },
            }
        }
        None
    }

    /// Sets the program counter to `entry_pc` and runs for at most `fuel` steps.
    pub fn exec(&mut self, entry_pc: u64, fuel: u64) -> (r: Option<StopReason>)
        requires
            old(self).wf(),
        ensures
            final(self).wf(),
            final(self).xlen() == old(self).xlen(),
            final(self).mask() == old(self).mask(),
            (final(self).view(), r) == run(
                Machine {
                    isa: IsaView { pc: entry_pc, ..old(self).view().isa },
                    mem: old(self).view().mem,
                },
                old(self).xlen(),
                old(self).mask(),
                fuel as nat,
            ),
    {
        self.state.set_pc(entry_pc);
        self.resume(fuel)
    }
}

} // verus!
