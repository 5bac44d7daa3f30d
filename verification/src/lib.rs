//! Verified core of the RVFM fantasy machine: the emulator's device logic,
//! the shader bytecode toolchain, and the SDK's command encoders.

pub mod machine;
pub mod gpu;
pub mod hart;
pub mod interrupt_controller;
pub mod debug;
pub mod spu;
pub mod text;
pub mod debugger;
pub mod sdk;
pub mod assembler;
pub mod sgfx;
