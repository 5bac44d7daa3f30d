//! Tokens of shader assembly.

use vstd::prelude::*;

pub use crate::assembler::scanner::run_lexer;

verus! {

/// The shader kind a source is assembled for.
#[derive(Debug, PartialEq, Eq, Copy, Clone, Structural)]
pub enum AssemblyMode {
    Vertex,
    Fragment,
    Compute,
}

/// Assembler directives.
#[derive(Debug, PartialEq, Eq, Copy, Clone, Structural)]
pub enum CommandType {
    SetMode(AssemblyMode),
    Entry,
    Alias,
    TextureDecl,
    BufferDecl,
}

/// Comparisons a compare instruction names.
#[derive(Debug, PartialEq, Eq, Copy, Clone, Structural)]
pub enum Comparison {
    Eq,
    Neq,
    Lt,
    Lte,
}

/// How an instruction reads its operands' bits.
#[derive(Copy, Clone, Debug, PartialEq, Eq, Structural)]
pub enum OpDataType {
    F32,
    I32,
}

/// Instruction mnemonics.
#[derive(Debug, PartialEq, Eq, Copy, Clone, Structural)]
pub enum InstructionType {
    Push,
    Pop,
    Mov,
    CMov,
    Read,
    Write,
    CRead,
    CWrite,
    Load,
    Store,
    ConvertF32ToI32,
    ConvertF32ToU32,
    ConvertU32ToF32,
    ConvertI32ToF32,
    Neg(OpDataType),
    Sign(OpDataType),
    Recip,
    Sin,
    Cos,
    Tan,
    ASin,
    ACos,
    Atan,
    Ln,
    Exp,
    Cmp(Comparison),
    FCmp(Comparison),
    Add(OpDataType),
    Sub(OpDataType),
    Mul(OpDataType),
    Div(OpDataType),
    Mod(OpDataType),
    Atan2,
    UCmp(Comparison),
    And,
    AndN,
    Or,
    Xor,
    Fma(OpDataType),
    Lerp,
    Norm2,
    Norm3,
    Norm4,
    Mag2,
    Mag3,
    Mag4,
    SqMag2,
    SqMag3,
    SqMag4,
    Cross,
    MatrixMultiply4x4V4,
}

/// Built-in vector registers.
#[derive(Debug, PartialEq, Eq, Copy, Clone, Structural)]
pub enum VectorBuiltin {
    VertexPosition,
    Barycentric,
    Linear,
    VertexIds,
}

/// Built-in scalar registers.
#[derive(Debug, PartialEq, Eq, Copy, Clone, Structural)]
pub enum ScalarBuiltin {
    Depth,
    VertexId,
    ProvokingVertex,
    Discard,
}

/// A register named in source: its file, its kind (S scalar, V vector) and its number.
#[derive(Debug, PartialEq, Eq, Copy, Clone, Structural)]
pub enum RegisterName {
    LocalS(u8),
    LocalV(u8),
    InputS(u8),
    InputV(u8),
    BuiltinS(ScalarBuiltin),
    BuiltinV(VectorBuiltin),
    ConstantS(u8),
    ConstantV(u8),
    OutputS(u8),
    OutputV(u8),
}

impl RegisterName {
    /// Whether the register holds vectors.
    pub open spec fn spec_is_vector(self) -> bool {
        match self {
            RegisterName::LocalV(_) | RegisterName::InputV(_) | RegisterName::BuiltinV(_)
            | RegisterName::ConstantV(_) | RegisterName::OutputV(_) => true,
            _ => false,
        }
    }

    /// Whether the register holds vectors.
    pub fn is_vector(&self) -> (r: bool)
        ensures
            r == self.spec_is_vector(),
    {
        match self {
            RegisterName::LocalV(_) | RegisterName::InputV(_) | RegisterName::BuiltinV(_)
            | RegisterName::ConstantV(_) | RegisterName::OutputV(_) => true,
            _ => false,
        }
    }
}

/// Kinds of tokens.
#[derive(Debug, PartialEq, Eq, Copy, Clone, Structural)]
pub enum TokenType {
    Whitespace,
    Name,
    Register(RegisterName),
    Command(CommandType),
    Instruction(InstructionType),
    Number,
    Comment,
    Comma,
    Dot,
    Colon,
}

/// A token: its kind, where it starts, and its text where the kind needs it.
#[derive(Debug, PartialEq, Eq, Clone)]
pub struct Token {
    pub t: TokenType,
    pub line: usize,
    pub column: usize,
    pub value: Option<String>,
}

} // verus!
