use vstd::prelude::*;
use crate::rv::disas_helper::sext;
use vstd::arithmetic::power2::{pow2, lemma2_to64};

verus! {

/// `v` as a two's-complement 64-bit pattern (`v` in `[-2^63, 2^64)`).
pub open spec fn to_u64(v: int) -> int {
    if v < 0 {
        v + 0x1_0000_0000_0000_0000
    } else {
        v
    }
}

/// The signed value of a 64-bit register.
pub open spec fn signed64(a: u64) -> int {
    if a < 0x8000_0000_0000_0000 {
        a as int
    } else {
        a as int - 0x1_0000_0000_0000_0000
    }
}

/// The signed value of the low 32 bits of a register.
pub open spec fn signed32(a: u64) -> int {
    let w = a as int % 0x1_0000_0000;
    if w < 0x8000_0000 {
        w
    } else {
        w - 0x1_0000_0000
    }
}

pub open spec fn abs(v: int) -> int {
    if v < 0 {
        -v
    } else {
        v
    }
}

/// Quotient rounded toward zero.
pub open spec fn div_trunc(a: int, b: int) -> int {
    if (a < 0) == (b < 0) {
        abs(a) / abs(b)
    } else {
        -(abs(a) / abs(b))
    }
}

/// Remainder with the sign of the dividend.
pub open spec fn rem_trunc(a: int, b: int) -> int {
    if a < 0 {
        -(abs(a) % abs(b))
    } else {
        abs(a) % abs(b)
    }
}

/// Sign-extends a byte to 64 bits.
pub fn sext_u8(x: u8) -> (r: u64)
    ensures
        r as int == to_u64(sext(x as int, 8)),
{
    proof {
        lemma2_to64();
    }
    if x < 0x80 {
        x as u64
    } else {
        x as u64 + 0xffff_ffff_ffff_ff00
    }
}

/// Sign-extends a half-word to 64 bits.
pub fn sext_u16(x: u16) -> (r: u64)
    ensures
        r as int == to_u64(sext(x as int, 16)),
{
    proof {
        lemma2_to64();
    }
    if x < 0x8000 {
        x as u64
    } else {
        x as u64 + 0xffff_ffff_ffff_0000
    }
}

/// Sign-extends a word to 64 bits.
pub fn sext_u32(x: u32) -> (r: u64)
    ensures
        r as int == to_u64(sext(x as int, 32)),
{
    proof {
        lemma2_to64();
    }
    if x < 0x8000_0000 {
        x as u64
    } else {
        x as u64 + 0xffff_ffff_0000_0000
    }
}

pub open spec fn div_s64_spec(a: u64, b: u64) -> u64 {
    (if b == 0 {
        u64::MAX as int
    } else if a == 0x8000_0000_0000_0000 && b == u64::MAX {
        a as int
    } else {
        to_u64(div_trunc(signed64(a), signed64(b)))
    }) as u64
}

pub open spec fn div_u64_spec(a: u64, b: u64) -> u64 {
    (if b == 0 {
        u64::MAX as int
    } else {
        a as int / b as int
    }) as u64
}

pub open spec fn rem_s64_spec(a: u64, b: u64) -> u64 {
    (if b == 0 {
        a as int
    } else if a == 0x8000_0000_0000_0000 && b == u64::MAX {
        0
    } else {
        to_u64(rem_trunc(signed64(a), signed64(b)))
    }) as u64
}

pub open spec fn rem_u64_spec(a: u64, b: u64) -> u64 {
    (if b == 0 {
        a as int
    } else {
        a as int % b as int
    }) as u64
}

/// RISC-V `div`: signed quotient; all ones for a zero divisor, the dividend for the
/// overflowing `MIN / -1`.
pub fn div_s64(a: u64, b: u64) -> (r: u64)
    ensures
        r == (if b == 0 {
            u64::MAX as int
        } else if a == 0x8000_0000_0000_0000 && b == u64::MAX {
            a as int
        } else {
            to_u64(div_trunc(signed64(a), signed64(b)))
        }),
{
    if b == 0 {
        return u64::MAX;
    }
    if a == 0x8000_0000_0000_0000 && b == u64::MAX {
        return a;
    }
    let na = a >= 0x8000_0000_0000_0000;
    let nb = b >= 0x8000_0000_0000_0000;
    let ma: u64 = if na { 0u64.wrapping_sub(a) } else { a };
    let mb: u64 = if nb { 0u64.wrapping_sub(b) } else { b };
    assert(ma == abs(signed64(a)));
    assert(mb == abs(signed64(b)));
    let q = ma / mb;
    proof {
        assert(q <= ma) by (nonlinear_arith)
            requires
                q == ma / mb,
                mb > 0,
        ;
        if na != nb && q == 0x8000_0000_0000_0000 {
            assert(ma == 0x8000_0000_0000_0000);
        }
    }
    if na != nb {
        0u64.wrapping_sub(q)
    } else {
        q
    }
}

/// RISC-V `divu`: unsigned quotient; all ones for a zero divisor.
pub fn div_u64(a: u64, b: u64) -> (r: u64)
    ensures
        r == (if b == 0 {
            u64::MAX as int
        } else {
            a as int / b as int
        }),
{
    if b == 0 {
        u64::MAX
    } else {
        a / b
    }
}

/// RISC-V `rem`: signed remainder; the dividend for a zero divisor, zero for the
/// overflowing `MIN % -1`.
pub fn rem_s64(a: u64, b: u64) -> (r: u64)
    ensures
        r == (if b == 0 {
            a as int
        } else if a == 0x8000_0000_0000_0000 && b == u64::MAX {
            0
        } else {
            to_u64(rem_trunc(signed64(a), signed64(b)))
        }),
{
    if b == 0 {
        return a;
    }
    if a == 0x8000_0000_0000_0000 && b == u64::MAX {
        return 0;
    }
    let na = a >= 0x8000_0000_0000_0000;
    let nb = b >= 0x8000_0000_0000_0000;
    let ma: u64 = if na { 0u64.wrapping_sub(a) } else { a };
    let mb: u64 = if nb { 0u64.wrapping_sub(b) } else { b };
    assert(ma == abs(signed64(a)));
    assert(mb == abs(signed64(b)));
    let m = ma % mb;
    proof {
        assert(m < mb) by (nonlinear_arith)
            requires
                m == ma % mb,
                mb > 0,
        ;
    }
    if na {
        0u64.wrapping_sub(m)
    } else {
        m
    }
}

/// RISC-V `remu`: unsigned remainder; the dividend for a zero divisor.
pub fn rem_u64(a: u64, b: u64) -> (r: u64)
    ensures
        r == (if b == 0 {
            a as int
        } else {
            a as int % b as int
        }),
{
    if b == 0 {
        a
    } else {
        a % b
    }
}

pub open spec fn two64() -> int {
    0x1_0000_0000_0000_0000
}

/// High 64 bits of the unsigned 128-bit product.
pub open spec fn mulhu_spec(a: u64, b: u64) -> int {
    (a as int * b as int) / two64()
}

/// High 64 bits of the signed 128-bit product, as a register pattern.
pub open spec fn mulh_spec(a: u64, b: u64) -> int {
    ((signed64(a) * signed64(b)) / two64()) % two64()
}

/// High 64 bits of the product of signed `a` and unsigned `b`, as a register pattern.
pub open spec fn mulhsu_spec(a: u64, b: u64) -> int {
    ((signed64(a) * b as int) / two64()) % two64()
}

/// RISC-V `mulhu`.
pub fn mulhu(a: u64, b: u64) -> (r: u64)
    ensures
        r == mulhu_spec(a, b),
{
    proof {
        assert(a as int * b as int <= u64::MAX as int * u64::MAX as int) by (nonlinear_arith);
    }
    let p: u128 = a as u128 * b as u128;
    proof {
        vstd::bits::lemma_u128_shr_is_div(p, 64);
        lemma2_to64();
        assert(pow2(64) == two64());
        assert(a as int * b as int <= u64::MAX as int * u64::MAX as int) by (nonlinear_arith);
        assert((p as int) / two64() <= u64::MAX) by (nonlinear_arith)
            requires
                p == a as int * b as int,
                a as int * b as int <= u64::MAX as int * u64::MAX as int,
        ;
    }
    (p >> 64u128) as u64
}

proof fn lemma_mulh_correction(a: u64, b: u64, ea: int, eb: int)
    requires
        ea == (if a >= 0x8000_0000_0000_0000 { 1int } else { 0int }),
        eb == (if b >= 0x8000_0000_0000_0000 { 1int } else { 0int }),
    ensures
        (signed64(a) * signed64(b)) / two64() == mulhu_spec(a, b) - ea * b - eb * a + two64() * ea
            * eb,
        (signed64(a) * b as int) / two64() == mulhu_spec(a, b) - ea * b,
{
    let d = two64();
    let x = a as int * b as int;
    let h = x / d;
    let r = x % d;
    vstd::arithmetic::div_mod::lemma_fundamental_div_mod(x, d);
    vstd::arithmetic::div_mod::lemma_mod_pos_bound(x, d);
    assert(signed64(a) == a - d * ea);
    assert(signed64(b) == b - d * eb);
    let q1 = h - ea * b - eb * a + d * ea * eb;
    assert(signed64(a) * signed64(b) == q1 * d + r) by (nonlinear_arith)
        requires
            signed64(a) == a - d * ea,
            signed64(b) == b - d * eb,
            x == a as int * b as int,
            x == d * h + r,
            q1 == h - ea * b - eb * a + d * ea * eb,
    ;
    vstd::arithmetic::div_mod::lemma_fundamental_div_mod_converse_div(
        signed64(a) * signed64(b),
        d,
        q1,
        r,
    );
    let q2 = h - ea * b;
    assert(signed64(a) * b as int == q2 * d + r) by (nonlinear_arith)
        requires
            signed64(a) == a - d * ea,
            x == a as int * b as int,
            x == d * h + r,
            q2 == h - ea * b,
    ;
    vstd::arithmetic::div_mod::lemma_fundamental_div_mod_converse_div(signed64(a) * b as int, d, q2, r);
}

/// RISC-V `mulh`.
pub fn mulh(a: u64, b: u64) -> (r: u64)
    ensures
        r == mulh_spec(a, b),
{
    let hi = mulhu(a, b);
    let t1: u64 = if a >= 0x8000_0000_0000_0000 { b } else { 0 };
    let t2: u64 = if b >= 0x8000_0000_0000_0000 { a } else { 0 };
    let r = hi.wrapping_sub(t1).wrapping_sub(t2);
    proof {
        let ea: int = if a >= 0x8000_0000_0000_0000 { 1 } else { 0 };
        let eb: int = if b >= 0x8000_0000_0000_0000 { 1 } else { 0 };
        lemma_mulh_correction(a, b, ea, eb);
        let v = hi - t1 - t2 + two64() * ea * eb;
        assert(t1 == ea * b && t2 == eb * a);
        assert(r == (hi - t1 - t2) % two64()) by {
            let w = hi.wrapping_sub(t1);
            assert(w == (hi - t1) % two64()) by {
                if hi >= t1 {
                    vstd::arithmetic::div_mod::lemma_small_mod((hi - t1) as nat, two64() as nat);
                } else {
                    vstd::arithmetic::div_mod::lemma_fundamental_div_mod_converse(
                        hi - t1, two64(), -1, hi - t1 + two64());
                }
            }
            if w >= t2 {
                vstd::arithmetic::div_mod::lemma_small_mod((w - t2) as nat, two64() as nat);
            } else {
                vstd::arithmetic::div_mod::lemma_fundamental_div_mod_converse(
                    w - t2, two64(), -1, w - t2 + two64());
            }
            vstd::arithmetic::div_mod::lemma_sub_mod_noop_right(hi as int - t1, t2 as int, two64());
        }
        vstd::arithmetic::div_mod::lemma_mod_multiples_vanish(ea * eb, hi - t1 - t2, two64());
        assert(two64() * ea * eb + (hi - t1 - t2) == v);
        assert(two64() * (ea * eb) == two64() * ea * eb) by (nonlinear_arith);
    }
    r
}

/// RISC-V `mulhsu`.
pub fn mulhsu(a: u64, b: u64) -> (r: u64)
    ensures
        r == mulhsu_spec(a, b),
{
    let hi = mulhu(a, b);
    let t1: u64 = if a >= 0x8000_0000_0000_0000 { b } else { 0 };
    let r = hi.wrapping_sub(t1);
    proof {
        let ea: int = if a >= 0x8000_0000_0000_0000 { 1 } else { 0 };
        let eb: int = if b >= 0x8000_0000_0000_0000 { 1 } else { 0 };
        lemma_mulh_correction(a, b, ea, eb);
        assert(t1 == ea * b);
        if hi >= t1 {
            vstd::arithmetic::div_mod::lemma_small_mod((hi - t1) as nat, two64() as nat);
        } else {
            vstd::arithmetic::div_mod::lemma_fundamental_div_mod_converse(
                hi - t1, two64(), -1, hi - t1 + two64());
        }
    }
    r
}

} // verus!
