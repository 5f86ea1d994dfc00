use vstd::prelude::*;

verus! {

/// Why a step (or a run) stopped.
#[derive(Copy, Clone, PartialEq, Eq, Debug)]
pub enum StopReason {
    /// Fall through to the next instruction.
    Next,
    /// Continue at the given address.
    ContinueAt(u64),
    /// An `ebreak` was executed.
    Break,
    /// The fetched word encodes no instruction.
    ReservedInsn,
    /// A load (`read`) or store at `gaddr` found no suitable region.
    Segv { read: bool, gaddr: u64 },
    /// An `ecall`: the system call in `a7` with arguments `a0`..`a5` is to be served
    /// before the run resumes at the following instruction.
    Ecall,
    /// A legally encoded instruction whose semantics are not provided (floating-point
    /// arithmetic, atomics, `fence.i`).
    Unimplemented,
}

/// Architectural state of one hart: the program counter, the integer registers
/// (`x0` is hardwired to zero and not stored), and the floating registers, held as the
/// raw bits of their 64-bit contents.
pub struct RvIsaState {
    pc: u64,
    regs_x: [u64; 31],
    regs_f: [u64; 32],
}

/// The register file as the contracts see it: `x[0]` is zero.
pub struct IsaView {
    pub pc: u64,
    pub x: Seq<u64>,
    pub f: Seq<u64>,
}

impl View for RvIsaState {
    type V = IsaView;

    closed spec fn view(&self) -> IsaView {
        IsaView { pc: self.pc, x: seq![0u64] + self.regs_x@, f: self.regs_f@ }
    }
}

impl IsaView {
    pub open spec fn wf(&self) -> bool {
        self.x.len() == 32 && self.f.len() == 32 && self.x[0] == 0
    }

    /// Integer register `i`; `x0` and indices past the file read as zero.
    pub open spec fn xr(&self, i: u8) -> u64 {
        if 0 < i < 32 {
            self.x[i as int]
        } else {
            0
        }
    }

    /// The state with integer register `i` set to `v`; writes to `x0` (and past the
    /// file) are dropped.
    pub open spec fn wx(&self, i: u8, v: u64) -> IsaView {
        if 0 < i < 32 {
            IsaView { x: self.x.update(i as int, v), ..*self }
        } else {
            *self
        }
    }

    pub open spec fn fr(&self, i: u8) -> u64 {
        if i < 32 {
            self.f[i as int]
        } else {
            0
        }
    }

    pub open spec fn wf_reg(&self, i: u8, v: u64) -> IsaView {
        if i < 32 {
            IsaView { f: self.f.update(i as int, v), ..*self }
        } else {
            *self
        }
    }
}

impl RvIsaState {
    /// All registers and the program counter zero.
    pub fn new() -> (r: RvIsaState)
        ensures
            r@.wf(),
            r@.pc == 0,
            forall|i: int| 0 <= i < 32 ==> r@.x[i] == 0 && r@.f[i] == 0,
    {
        let r = RvIsaState { pc: 0, regs_x: [0u64; 31], regs_f: [0u64; 32] };
        assert(r@.x.len() == 32);
        r
    }

    pub proof fn lemma_wf(&self)
        ensures
            self@.wf(),
    {
    }

    pub fn get_pc(&self) -> (r: u64)
        ensures
            r == self@.pc,
    {
        self.pc
    }

    pub fn set_pc(&mut self, val: u64)
        ensures
            final(self)@ == (IsaView { pc: val, ..old(self)@ }),
    {
        self.pc = val;
        assert(final(self)@.x =~= old(self)@.x);
    }

    /// Integer register `idx` (`x0` reads as zero).
    pub fn get_x(&self, idx: u8) -> (r: u64)
        ensures
            r == self@.xr(idx),
    {
        if idx == 0 || idx >= 32 {
            0
        } else {
            self.regs_x[idx as usize - 1]
        }
    }

    /// Sets integer register `idx`; writes to `x0` are dropped.
    pub fn set_x(&mut self, idx: u8, val: u64)
        ensures
            final(self)@ == old(self)@.wx(idx, val),
    {
        if idx == 0 || idx >= 32 {
            return;
        }
        self.regs_x[idx as usize - 1] = val;
        assert(final(self)@.x =~= old(self)@.x.update(idx as int, val));
    }

    /// Raw bits of floating register `idx`.
    pub fn get_f64(&self, idx: u8) -> (r: u64)
        ensures
            r == self@.fr(idx),
    {
        if idx >= 32 {
            0
        } else {
            self.regs_f[idx as usize]
        }
    }

    /// Sets the raw bits of floating register `idx`.
    pub fn set_f64(&mut self, idx: u8, val: u64)
        ensures
            final(self)@ == old(self)@.wf_reg(idx, val),
    {
        if idx >= 32 {
            return;
        }
        self.regs_f[idx as usize] = val;
        assert(final(self)@.x =~= old(self)@.x);
    }
}

impl Default for RvIsaState {
    fn default() -> (r: RvIsaState)
        ensures
            r@.wf(),
            r@.pc == 0,
            forall|i: int| 0 <= i < 32 ==> r@.x[i] == 0 && r@.f[i] == 0,
    {
        RvIsaState::new()
    }
}

} // verus!
