use vstd::prelude::*;
use crate::exec::interp::{RvInterpreterExecutor, Machine};

verus! {

/// Linux `write`.
pub const SYS_WRITE: u64 = 64;

/// Linux `exit_group`.
pub const SYS_EXIT_GROUP: u64 = 93;

/// `ENOSYS`: the call is not implemented.
pub const ENOSYS: u64 = 38;

/// A system call as the guest made it: the number from `a7` and the arguments from
/// `a0`..`a5`.
#[derive(Copy, Clone, PartialEq, Eq, Debug)]
pub struct SyscallRequest {
    pub nr: u64,
    pub args: [u64; 6],
}

/// What the host is to do for a system call.
#[derive(Copy, Clone, PartialEq, Eq, Debug)]
pub enum SyscallAction {
    /// Write `count` bytes from guest (and host) address `buf` to descriptor `fd`, and
    /// return the result to the guest.
    Write { fd: u64, buf: u64, count: u64 },
    /// End the host process with `code`.
    ExitGroup { code: u64 },
    /// A call this emulator does not provide: the guest gets `-ENOSYS`.
    Unknown { nr: u64 },
}

/// The action for a request.
pub open spec fn action_spec(req: SyscallRequest) -> SyscallAction {
    if req.nr == SYS_WRITE {
        SyscallAction::Write { fd: req.args[0], buf: req.args[1], count: req.args[2] }
    } else if req.nr == SYS_EXIT_GROUP {
        SyscallAction::ExitGroup { code: req.args[0] }
    } else {
        SyscallAction::Unknown { nr: req.nr }
    }
}

pub fn classify_syscall(req: &SyscallRequest) -> (r: SyscallAction)
    ensures
        r == action_spec(*req),
{
    if req.nr == SYS_WRITE {
        SyscallAction::Write { fd: req.args[0], buf: req.args[1], count: req.args[2] }
    } else if req.nr == SYS_EXIT_GROUP {
        SyscallAction::ExitGroup { code: req.args[0] }
    } else {
        SyscallAction::Unknown { nr: req.nr }
    }
}

impl RvInterpreterExecutor {
    /// The system call that the guest's registers describe.
    pub fn syscall_request(&self) -> (r: SyscallRequest)
        ensures
            r.nr == self.view().isa.xr(17),
            forall|i: int| 0 <= i < 6 ==> r.args[i] == self.view().isa.xr((10 + i) as u8),
    {
        let s = self.state();
        let args = [s.get_x(10), s.get_x(11), s.get_x(12), s.get_x(13), s.get_x(14), s.get_x(15)];
        SyscallRequest { nr: s.get_x(17), args }
    }

    /// Answers a call the emulator does not provide: `a0` takes `-ENOSYS` and the run
    /// may go on.
    pub fn syscall_unknown(&mut self)
        requires
            old(self).wf(),
        ensures
            final(self).wf(),
            final(self).xlen() == old(self).xlen(),
            final(self).mask() == old(self).mask(),
            final(self).view() == (Machine {
                isa: old(self).view().isa.wx(10, (0u64).wrapping_sub(ENOSYS)),
                mem: old(self).view().mem,
            }),
    {
        self.syscall_return(0u64.wrapping_sub(ENOSYS));
    }
}

} // verus!
