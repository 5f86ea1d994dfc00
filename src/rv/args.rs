use vstd::prelude::*;

verus! {

/// Operands of a register-register instruction.
#[derive(Debug, Clone, Copy, PartialEq, Eq)]
pub struct RTypeArgs {
    pub rd: u8,
    pub rs1: u8,
    pub rs2: u8,
}

/// Operands of a register-immediate instruction (also loads and `jalr`).
#[derive(Debug, Clone, Copy, PartialEq, Eq)]
pub struct ITypeArgs {
    pub rd: u8,
    pub rs1: u8,
    pub imm: i32,
}

/// Operands of a store or a conditional branch: base/compare registers and a displacement.
#[derive(Debug, Clone, Copy, PartialEq, Eq)]
pub struct SBTypeArgs {
    pub rs1: u8,
    pub rs2: u8,
    pub imm: i32,
}

/// Operands of an upper-immediate or jump instruction.
#[derive(Debug, Clone, Copy, PartialEq, Eq)]
pub struct UJTypeArgs {
    pub rd: u8,
    pub imm: i32,
}

/// Operands of a shift by an immediate amount.
#[derive(Debug, Clone, Copy, PartialEq, Eq)]
pub struct ShiftArgs {
    pub rd: u8,
    pub rs1: u8,
    pub shamt: u8,
}

/// Operands of an atomic memory operation.
#[derive(Debug, Clone, Copy, PartialEq, Eq)]
pub struct AmoArgs {
    pub aq: bool,
    pub rl: bool,
    pub rd: u8,
    pub rs1: u8,
    pub rs2: u8,
}

/// Operands of a load-reserved instruction.
#[derive(Debug, Clone, Copy, PartialEq, Eq)]
pub struct AmoLrArgs {
    pub aq: bool,
    pub rl: bool,
    pub rd: u8,
    pub rs1: u8,
}

/// One side (predecessor or successor) of a fence: device input, device output,
/// memory reads, memory writes.
#[derive(Debug, Clone, Copy, PartialEq, Eq)]
pub struct FenceSet {
    pub i: bool,
    pub o: bool,
    pub r: bool,
    pub w: bool,
}

/// The fence set encoded by the low four bits of `x` (bit 3 is `i`, bit 0 is `w`).
pub open spec fn fence_set_spec(x: u8) -> FenceSet {
    FenceSet { i: x & 8 != 0, o: x & 4 != 0, r: x & 2 != 0, w: x & 1 != 0 }
}

impl FenceSet {
    pub fn from_bits(x: u8) -> (r: FenceSet)
        ensures
            r == fence_set_spec(x),
    {
        FenceSet { i: x & 0b1000 != 0, o: x & 0b0100 != 0, r: x & 0b0010 != 0, w: x & 0b0001 != 0 }
    }
}

/// Operands of a `fence`.
#[derive(Debug, Clone, Copy, PartialEq, Eq)]
pub struct FenceArgs {
    pub fm: u8,
    pub pred: FenceSet,
    pub succ: FenceSet,
}

/// Floating-point rounding mode field.
#[derive(Debug, Clone, Copy, PartialEq, Eq)]
pub enum RoundingMode {
    Rne,
    Rtz,
    Rdn,
    Rup,
    Rmm,
    Dyn,
    Reserved(u8),
}

/// The rounding mode that the three-bit field `x` encodes.
pub open spec fn rounding_mode_spec(x: u8) -> RoundingMode {
    if x == 0 {
        RoundingMode::Rne
    } else if x == 1 {
        RoundingMode::Rtz
    } else if x == 2 {
        RoundingMode::Rdn
    } else if x == 3 {
        RoundingMode::Rup
    } else if x == 4 {
        RoundingMode::Rmm
    } else if x == 7 {
        RoundingMode::Dyn
    } else {
        RoundingMode::Reserved(x)
    }
}

impl RoundingMode {
    pub fn from_bits(x: u8) -> (r: RoundingMode)
        ensures
            r == rounding_mode_spec(x),
    {
        match x {
            0b000 => RoundingMode::Rne,
            0b001 => RoundingMode::Rtz,
            0b010 => RoundingMode::Rdn,
            0b011 => RoundingMode::Rup,
            0b100 => RoundingMode::Rmm,
            0b111 => RoundingMode::Dyn,
            _ => RoundingMode::Reserved(x),
        }
    }
}

/// Operands of a fused multiply-add.
#[derive(Debug, Clone, Copy, PartialEq, Eq)]
pub struct R4TypeArgs {
    pub rm: RoundingMode,
    pub rd: u8,
    pub rs1: u8,
    pub rs2: u8,
    pub rs3: u8,
}

/// Operands of a floating register-register instruction with a rounding mode.
#[derive(Debug, Clone, Copy, PartialEq, Eq)]
pub struct RFTypeArgs {
    pub rm: RoundingMode,
    pub rd: u8,
    pub rs1: u8,
    pub rs2: u8,
}

/// Operands of a one-source register instruction (moves, classification).
#[derive(Debug, Clone, Copy, PartialEq, Eq)]
pub struct R2TypeArgs {
    pub rd: u8,
    pub rs1: u8,
}

/// Operands of a one-source floating instruction with a rounding mode (square root, conversions).
#[derive(Debug, Clone, Copy, PartialEq, Eq)]
pub struct R2FTypeArgs {
    pub rm: RoundingMode,
    pub rd: u8,
    pub rs1: u8,
}

} // verus!
