pub mod alu;
pub mod interp;
pub mod mem;
pub mod state;
pub mod syscall;
