//! The shader assembler: its tokens, number literals, and the encoders of shader bytecode.

pub mod lexer;
pub mod src_error;
pub mod instructions;
pub mod compat;
pub mod tokens;
pub mod numbers;
pub mod operands;
pub mod scanner;
pub mod driver;
