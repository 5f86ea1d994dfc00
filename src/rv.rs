pub mod args;
pub mod decoder;
pub mod disas_helper;
pub mod insn;
pub mod rvc;
