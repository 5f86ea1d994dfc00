pub mod exec;
pub mod rv;
