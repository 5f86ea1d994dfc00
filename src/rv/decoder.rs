use vstd::prelude::*;
use crate::rv::insn::{RvInsn, decode32, disas_riscv_insn_32bit};
use crate::rv::rvc::{RvCDecoder, decode16, expand};

verus! {

/// Little-endian 16-bit value of two bytes.
pub open spec fn le16(b0: u8, b1: u8) -> u16 {
    (b0 as int + 256 * b1 as int) as u16
}

/// Little-endian 32-bit value of four bytes.
pub open spec fn le32(b0: u8, b1: u8, b2: u8, b3: u8) -> u32 {
    (b0 as int + 0x100 * b1 as int + 0x10000 * b2 as int + 0x1000000 * b3 as int) as u32
}

/// What a buffer starting with an instruction decodes to: the instruction and its
/// length, or nothing where the buffer is shorter than that length.
pub open spec fn decode_buf(xlen: usize, buf: Seq<u8>) -> Option<(RvInsn, usize)> {
    if buf.len() < 2 {
        None
    } else if buf[0] & 3 == 3 {
        if buf.len() < 4 {
            None
        } else {
            Some((decode32(le32(buf[0], buf[1], buf[2], buf[3])), 4))
        }
    } else {
        Some((expand(decode16(xlen, le16(buf[0], buf[1]))), 2))
    }
}

/// Instruction decoder for RV32GC / RV64GC.
pub struct RvDecoder {
    pub c: RvCDecoder,
}

impl RvDecoder {
    pub open spec fn xlen(&self) -> usize {
        self.c.xlen
    }

    pub fn new(xlen: usize) -> (r: RvDecoder)
        requires
            xlen == 32 || xlen == 64,
        ensures
            r.xlen() == xlen,
    {
        RvDecoder { c: RvCDecoder::new(xlen) }
    }

    /// Decodes a full-width word.
    pub fn disas_32bit(&self, insn: u32) -> (r: RvInsn)
        ensures
            r == decode32(insn),
    {
        disas_riscv_insn_32bit(insn)
    }

    /// Decodes a compressed word and expands it.
    pub fn disas_16bit(&self, insn: u16) -> (r: RvInsn)
        requires
            insn & 3 != 3,
        ensures
            r == expand(decode16(self.xlen(), insn)),
    {
        self.c.disas(insn).to_insn()
    }

    /// Decodes the instruction at the start of `buf`, with its length in bytes.
    pub fn disas(&self, buf: &[u8]) -> (r: Option<(RvInsn, usize)>)
        ensures
            r == decode_buf(self.xlen(), buf@),
    {
        if buf.len() < 2 {
            return None;
        }
        let b0 = buf[0];
        let b1 = buf[1];
        if b0 & 0b11 == 0b11 {
            if buf.len() < 4 {
                return None;
            }
            let b2 = buf[2];
            let b3 = buf[3];
            let w = (b0 as u32) | ((b1 as u32) << 8u32) | ((b2 as u32) << 16u32) | ((b3 as u32)
                << 24u32);
            proof {
                assert((b0 as u32) | ((b1 as u32) << 8u32) | ((b2 as u32) << 16u32) | ((b3 as u32)
                    << 24u32) == b0 as u32 + 0x100 * (b1 as u32) + 0x10000 * (b2 as u32)
                    + 0x1000000 * (b3 as u32)) by (bit_vector);
            }
            Some((self.disas_32bit(w), 4))
        } else {
            let h = (b0 as u16) | ((b1 as u16) << 8u16);
            proof {
                assert((b0 as u16) | ((b1 as u16) << 8u16) == b0 as u16 + 256 * (b1 as u16))
                    by (bit_vector);
                assert(b0 & 3 != 3 ==> ((b0 as u16) | ((b1 as u16) << 8u16)) & 3 != 3)
                    by (bit_vector);
            }
            Some((self.disas_16bit(h), 2))
        }
    }
}

} // verus!
