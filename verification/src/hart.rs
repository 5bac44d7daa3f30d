//! The RISC-V harts.

pub mod decoder;
pub mod csrs;
