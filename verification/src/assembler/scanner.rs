//! The lexer of shader assembly: source text to tokens.

use vstd::prelude::*;
use super::lexer::{
    AssemblyMode, CommandType, Comparison, InstructionType, OpDataType, RegisterName, ScalarBuiltin, Token,
    TokenType, VectorBuiltin,
};
use super::operands::name_message;
use super::src_error::SourceError;
use crate::text::chars_to_string;

verus! {

/// Whether `c` separates tokens: a space, a tab or a line break.
pub open spec fn is_blank(c: char) -> bool {
    c == ' ' || c == '\t' || c == '\n'
}

/// Whether a name can start with `c`: a letter or an underscore.
pub open spec fn is_name_start(c: char) -> bool {
    ('a' <= c <= 'z') || ('A' <= c <= 'Z') || c == '_'
}

/// Whether a name can go on with `c`: a letter, an underscore, a digit or a dot.
pub open spec fn is_name_char(c: char) -> bool {
    is_name_start(c) || ('0' <= c <= '9') || c == '.'
}

/// `c` with an ASCII capital made small.
pub open spec fn lower(c: char) -> char {
    if 'A' <= c <= 'Z' { ((c as u32) + 32) as char } else { c }
}

/// `v` with its ASCII capitals made small.
pub open spec fn lower_text(v: Seq<char>) -> Seq<char> {
    v.map_values(|c: char| lower(c))
}

/// Whether `v` starts with `p`.
pub open spec fn starts_with(v: Seq<char>, p: Seq<char>) -> bool {
    v.len() >= p.len() && v.subrange(0, p.len() as int) == p
}

/// Whether every character of `v` is a decimal digit.
pub open spec fn all_digits(v: Seq<char>) -> bool {
    forall|k: int| 0 <= k < v.len() ==> '0' <= #[trigger] v[k] <= '9'
}

/// The number the decimal digits of `v` spell.
pub open spec fn digits_value(v: Seq<char>) -> nat
    decreases v.len(),
{
    if v.len() == 0 { 0 } else { digits_value(v.drop_last()) * 10 + (v.last() as u32 - '0' as u32) as nat }
}

/// A register number: one or more decimal digits whose value fits in 32 bits.
pub open spec fn parse_index(v: Seq<char>) -> Option<u32> {
    if v.len() > 0 && all_digits(v) && digits_value(v) <= u32::MAX { Some(digits_value(v) as u32) } else { None }
}

/// The mnemonics, directives and built-in registers, with whether a channel suffix after
/// them is dropped.
pub open spec fn spec_keyword(v: Seq<char>) -> Option<(TokenType, bool)> {
    if v == seq!['v', 'e', 'r', 't', 'e', 'x', '_', 'p', 'o', 's', 'i', 't', 'i', 'o', 'n'] {
        Some((TokenType::Register(RegisterName::BuiltinV(VectorBuiltin::VertexPosition)), false))
    } else if v == seq!['b', 'a', 'r', 'y', 'c', 'e', 'n', 't', 'r', 'i', 'c'] {
        Some((TokenType::Register(RegisterName::BuiltinV(VectorBuiltin::Barycentric)), false))
    } else if v == seq!['l', 'i', 'n', 'e', 'a', 'r'] {
        Some((TokenType::Register(RegisterName::BuiltinV(VectorBuiltin::Linear)), false))
    } else if v == seq!['v', 'e', 'r', 't', 'e', 'x', '_', 'i', 'd', 's'] {
        Some((TokenType::Register(RegisterName::BuiltinV(VectorBuiltin::VertexIds)), false))
    } else if v == seq!['d', 'e', 'p', 't', 'h'] {
        Some((TokenType::Register(RegisterName::BuiltinS(ScalarBuiltin::Depth)), false))
    } else if v == seq!['v', 'e', 'r', 't', 'e', 'x', '_', 'i', 'd'] {
        Some((TokenType::Register(RegisterName::BuiltinS(ScalarBuiltin::VertexId)), false))
    } else if v == seq!['p', 'r', 'o', 'v', 'o', 'k', 'i', 'n', 'g', '_', 'v', 'e', 'r', 't', 'e', 'x'] {
        Some((TokenType::Register(RegisterName::BuiltinS(ScalarBuiltin::ProvokingVertex)), false))
    } else if v == seq!['d', 'i', 's', 'c', 'a', 'r', 'd'] {
        Some((TokenType::Register(RegisterName::BuiltinS(ScalarBuiltin::Discard)), false))
    } else if v == seq!['v', 'e', 'r', 't', 'e', 'x', '!'] {
        Some((TokenType::Command(CommandType::SetMode(AssemblyMode::Vertex)), false))
    } else if v == seq!['f', 'r', 'a', 'g', 'm', 'e', 'n', 't', '!'] {
        Some((TokenType::Command(CommandType::SetMode(AssemblyMode::Fragment)), false))
    } else if v == seq!['c', 'o', 'm', 'p', 'u', 't', 'e', '!'] {
        Some((TokenType::Command(CommandType::SetMode(AssemblyMode::Compute)), false))
    } else if v == seq!['e', 'n', 't', 'r', 'y', '!'] {
        Some((TokenType::Command(CommandType::Entry), false))
    } else if v == seq!['a', 'l', 'i', 'a', 's', '!'] {
        Some((TokenType::Command(CommandType::Alias), false))
    } else if v == seq!['t', 'e', 'x', 't', 'u', 'r', 'e', '!'] {
        Some((TokenType::Command(CommandType::TextureDecl), false))
    } else if v == seq!['b', 'u', 'f', 'f', 'e', 'r', '!'] {
        Some((TokenType::Command(CommandType::BufferDecl), false))
    } else if v == seq!['p', 'u', 's', 'h'] {
        Some((TokenType::Instruction(InstructionType::Push), false))
    } else if v == seq!['p', 'o', 'p'] {
        Some((TokenType::Instruction(InstructionType::Pop), false))
    } else if v == seq!['m', 'o', 'v'] {
        Some((TokenType::Instruction(InstructionType::Mov), false))
    } else if v == seq!['c', 'm', 'o', 'v'] {
        Some((TokenType::Instruction(InstructionType::CMov), false))
    } else if v == seq!['r', 'e', 'a', 'd'] {
        Some((TokenType::Instruction(InstructionType::Read), false))
    } else if v == seq!['w', 'r', 'i', 't', 'e'] {
        Some((TokenType::Instruction(InstructionType::Write), false))
    } else if v == seq!['c', 'r', 'e', 'a', 'd'] {
        Some((TokenType::Instruction(InstructionType::CRead), false))
    } else if v == seq!['c', 'w', 'r', 'i', 't', 'e'] {
        Some((TokenType::Instruction(InstructionType::CWrite), false))
    } else if v == seq!['c', 'o', 'n', 'v', '.', 'i', '3', '2', '.', 'f', '3', '2'] {
        Some((TokenType::Instruction(InstructionType::ConvertF32ToI32), true))
    } else if v == seq!['c', 'o', 'n', 'v', '.', 'u', '3', '2', '.', 'f', '3', '2'] {
        Some((TokenType::Instruction(InstructionType::ConvertF32ToU32), true))
    } else if v == seq!['c', 'o', 'n', 'v', '.', 'f', '3', '2', '.', 'i', '3', '2'] {
        Some((TokenType::Instruction(InstructionType::ConvertI32ToF32), true))
    } else if v == seq!['c', 'o', 'n', 'v', '.', 'f', '3', '2', '.', 'u', '3', '2'] {
        Some((TokenType::Instruction(InstructionType::ConvertU32ToF32), true))
    } else if v == seq!['n', 'e', 'g', '.', 'i'] {
        Some((TokenType::Instruction(InstructionType::Neg(OpDataType::I32)), true))
    } else if v == seq!['n', 'e', 'g', '.', 'f'] {
        Some((TokenType::Instruction(InstructionType::Neg(OpDataType::F32)), true))
    } else if v == seq!['s', 'i', 'g', 'n', '.', 'f'] {
        Some((TokenType::Instruction(InstructionType::Sign(OpDataType::F32)), true))
    } else if v == seq!['s', 'i', 'g', 'n', '.', 'i'] {
        Some((TokenType::Instruction(InstructionType::Sign(OpDataType::I32)), true))
    } else if v == seq!['r', 'e', 'c', 'i', 'p'] {
        Some((TokenType::Instruction(InstructionType::Recip), false))
    } else if v == seq!['s', 'i', 'n'] {
        Some((TokenType::Instruction(InstructionType::Sin), false))
    } else if v == seq!['c', 'o', 's'] {
        Some((TokenType::Instruction(InstructionType::Cos), false))
    } else if v == seq!['t', 'a', 'n'] {
        Some((TokenType::Instruction(InstructionType::Tan), false))
    } else if v == seq!['a', 's', 'i', 'n'] {
        Some((TokenType::Instruction(InstructionType::ASin), false))
    } else if v == seq!['a', 'c', 'o', 's'] {
        Some((TokenType::Instruction(InstructionType::ACos), false))
    } else if v == seq!['a', 't', 'a', 'n'] {
        Some((TokenType::Instruction(InstructionType::Atan), false))
    } else if v == seq!['l', 'n'] {
        Some((TokenType::Instruction(InstructionType::Ln), false))
    } else if v == seq!['e', 'x', 'p'] {
        Some((TokenType::Instruction(InstructionType::Exp), false))
    } else if v == seq!['c', 'm', 'p', '.', 'i', '.', 'e', 'q'] {
        Some((TokenType::Instruction(InstructionType::Cmp(Comparison::Eq)), true))
    } else if v == seq!['c', 'm', 'p', '.', 'i', '.', 'n', 'e', 'q'] {
        Some((TokenType::Instruction(InstructionType::Cmp(Comparison::Neq)), true))
    } else if v == seq!['c', 'm', 'p', '.', 'i', '.', 'l', 't'] {
        Some((TokenType::Instruction(InstructionType::Cmp(Comparison::Lt)), true))
    } else if v == seq!['c', 'm', 'p', '.', 'i', '.', 'l', 't', 'e'] {
        Some((TokenType::Instruction(InstructionType::Cmp(Comparison::Lte)), true))
    } else if v == seq!['c', 'm', 'p', '.', 'f', '.', 'e', 'q'] {
        Some((TokenType::Instruction(InstructionType::FCmp(Comparison::Eq)), true))
    } else if v == seq!['c', 'm', 'p', '.', 'f', '.', 'n', 'e', 'q'] {
        Some((TokenType::Instruction(InstructionType::FCmp(Comparison::Neq)), true))
    } else if v == seq!['c', 'm', 'p', '.', 'f', '.', 'l', 't'] {
        Some((TokenType::Instruction(InstructionType::FCmp(Comparison::Lt)), true))
    } else if v == seq!['c', 'm', 'p', '.', 'f', '.', 'l', 't', 'e'] {
        Some((TokenType::Instruction(InstructionType::FCmp(Comparison::Lte)), true))
    } else if v == seq!['c', 'm', 'p', '.', 'u', '.', 'e', 'q'] {
        Some((TokenType::Instruction(InstructionType::UCmp(Comparison::Eq)), true))
    } else if v == seq!['c', 'm', 'p', '.', 'u', '.', 'n', 'e', 'q'] {
        Some((TokenType::Instruction(InstructionType::UCmp(Comparison::Neq)), true))
    } else if v == seq!['c', 'm', 'p', '.', 'u', '.', 'l', 't'] {
        Some((TokenType::Instruction(InstructionType::UCmp(Comparison::Lt)), true))
    } else if v == seq!['c', 'm', 'p', '.', 'u', '.', 'l', 't', 'e'] {
        Some((TokenType::Instruction(InstructionType::UCmp(Comparison::Lte)), true))
    } else if v == seq!['a', 'd', 'd', '.', 'f'] {
        Some((TokenType::Instruction(InstructionType::Add(OpDataType::F32)), true))
    } else if v == seq!['s', 'u', 'b', '.', 'f'] {
        Some((TokenType::Instruction(InstructionType::Sub(OpDataType::F32)), true))
    } else if v == seq!['m', 'u', 'l', '.', 'f'] {
        Some((TokenType::Instruction(InstructionType::Mul(OpDataType::F32)), true))
    } else if v == seq!['d', 'i', 'v', '.', 'f'] {
        Some((TokenType::Instruction(InstructionType::Div(OpDataType::F32)), true))
    } else if v == seq!['m', 'o', 'd', '.', 'f'] {
        Some((TokenType::Instruction(InstructionType::Mod(OpDataType::F32)), true))
    } else if v == seq!['a', 'd', 'd', '.', 'i'] {
        Some((TokenType::Instruction(InstructionType::Add(OpDataType::I32)), true))
    } else if v == seq!['s', 'u', 'b', '.', 'i'] {
        Some((TokenType::Instruction(InstructionType::Sub(OpDataType::I32)), true))
    } else if v == seq!['m', 'u', 'l', '.', 'i'] {
        Some((TokenType::Instruction(InstructionType::Mul(OpDataType::I32)), true))
    } else if v == seq!['d', 'i', 'v', '.', 'i'] {
        Some((TokenType::Instruction(InstructionType::Div(OpDataType::I32)), true))
    } else if v == seq!['m', 'o', 'd', '.', 'i'] {
        Some((TokenType::Instruction(InstructionType::Mod(OpDataType::I32)), true))
    } else if v == seq!['a', 't', 'a', 'n', '2'] {
        Some((TokenType::Instruction(InstructionType::Atan2), false))
    } else if v == seq!['a', 'n', 'd'] {
        Some((TokenType::Instruction(InstructionType::And), false))
    } else if v == seq!['a', 'n', 'd', 'n'] {
        Some((TokenType::Instruction(InstructionType::AndN), false))
    } else if v == seq!['o', 'r'] {
        Some((TokenType::Instruction(InstructionType::Or), false))
    } else if v == seq!['x', 'o', 'r'] {
        Some((TokenType::Instruction(InstructionType::Xor), false))
    } else if v == seq!['f', 'f', 'm', 'a'] {
        Some((TokenType::Instruction(InstructionType::Fma(OpDataType::F32)), false))
    } else if v == seq!['i', 'f', 'm', 'a'] {
        Some((TokenType::Instruction(InstructionType::Fma(OpDataType::I32)), false))
    } else if v == seq!['l', 'e', 'r', 'p'] {
        Some((TokenType::Instruction(InstructionType::Lerp), false))
    } else if v == seq!['n', 'o', 'r', 'm', '.', '2'] {
        Some((TokenType::Instruction(InstructionType::Norm2), true))
    } else if v == seq!['n', 'o', 'r', 'm', '.', '3'] {
        Some((TokenType::Instruction(InstructionType::Norm3), true))
    } else if v == seq!['n', 'o', 'r', 'm', '.', '4'] {
        Some((TokenType::Instruction(InstructionType::Norm4), true))
    } else if v == seq!['m', 'a', 'g', '.', 'v', '2'] {
        Some((TokenType::Instruction(InstructionType::Mag2), true))
    } else if v == seq!['m', 'a', 'g', '.', 'v', '3'] {
        Some((TokenType::Instruction(InstructionType::Mag3), true))
    } else if v == seq!['m', 'a', 'g', '.', 'v', '4'] {
        Some((TokenType::Instruction(InstructionType::Mag4), true))
    } else if v == seq!['c', 'r', 'o', 's', 's'] {
        Some((TokenType::Instruction(InstructionType::Cross), false))
    } else if v == seq!['m', 'u', 'l', '.', 'm', '4', '4', '.', 'v', '4'] {
        Some((TokenType::Instruction(InstructionType::MatrixMultiply4x4V4), true))
    } else {
        None
    }
}

/// Whether `a` holds the characters of `b`.
fn same_text(a: &Vec<char>, b: &[char]) -> (r: bool)
    ensures
        r == (a@ == b@),
{
    if a.len() != b.len() {
        return false;
    }
    let mut i: usize = 0;
    while i < a.len()
        invariant
            a@.len() == b@.len(),
            i <= a@.len(),
            forall|j: int| 0 <= j < i ==> a@[j] == b@[j],
        decreases a@.len() - i,
    {
        if a[i] != b[i] {
            return false;
        }
        i = i + 1;
    }
    assert(a@ =~= b@);
    true
}

/// The mnemonic, directive or built-in register `v` names (see `spec_keyword`).
fn keyword(v: &Vec<char>) -> (r: Option<(TokenType, bool)>)
    ensures
        r == spec_keyword(v@),
{
    if same_text(v, &['v', 'e', 'r', 't', 'e', 'x', '_', 'p', 'o', 's', 'i', 't', 'i', 'o', 'n']) {
        Some((TokenType::Register(RegisterName::BuiltinV(VectorBuiltin::VertexPosition)), false))
    } else if same_text(v, &['b', 'a', 'r', 'y', 'c', 'e', 'n', 't', 'r', 'i', 'c']) {
        Some((TokenType::Register(RegisterName::BuiltinV(VectorBuiltin::Barycentric)), false))
    } else if same_text(v, &['l', 'i', 'n', 'e', 'a', 'r']) {
        Some((TokenType::Register(RegisterName::BuiltinV(VectorBuiltin::Linear)), false))
    } else if same_text(v, &['v', 'e', 'r', 't', 'e', 'x', '_', 'i', 'd', 's']) {
        Some((TokenType::Register(RegisterName::BuiltinV(VectorBuiltin::VertexIds)), false))
    } else if same_text(v, &['d', 'e', 'p', 't', 'h']) {
        Some((TokenType::Register(RegisterName::BuiltinS(ScalarBuiltin::Depth)), false))
    } else if same_text(v, &['v', 'e', 'r', 't', 'e', 'x', '_', 'i', 'd']) {
        Some((TokenType::Register(RegisterName::BuiltinS(ScalarBuiltin::VertexId)), false))
    } else if same_text(v, &['p', 'r', 'o', 'v', 'o', 'k', 'i', 'n', 'g', '_', 'v', 'e', 'r', 't', 'e', 'x']) {
        Some((TokenType::Register(RegisterName::BuiltinS(ScalarBuiltin::ProvokingVertex)), false))
    } else if same_text(v, &['d', 'i', 's', 'c', 'a', 'r', 'd']) {
        Some((TokenType::Register(RegisterName::BuiltinS(ScalarBuiltin::Discard)), false))
    } else if same_text(v, &['v', 'e', 'r', 't', 'e', 'x', '!']) {
        Some((TokenType::Command(CommandType::SetMode(AssemblyMode::Vertex)), false))
    } else if same_text(v, &['f', 'r', 'a', 'g', 'm', 'e', 'n', 't', '!']) {
        Some((TokenType::Command(CommandType::SetMode(AssemblyMode::Fragment)), false))
    } else if same_text(v, &['c', 'o', 'm', 'p', 'u', 't', 'e', '!']) {
        Some((TokenType::Command(CommandType::SetMode(AssemblyMode::Compute)), false))
    } else if same_text(v, &['e', 'n', 't', 'r', 'y', '!']) {
        Some((TokenType::Command(CommandType::Entry), false))
    } else if same_text(v, &['a', 'l', 'i', 'a', 's', '!']) {
        Some((TokenType::Command(CommandType::Alias), false))
    } else if same_text(v, &['t', 'e', 'x', 't', 'u', 'r', 'e', '!']) {
        Some((TokenType::Command(CommandType::TextureDecl), false))
    } else if same_text(v, &['b', 'u', 'f', 'f', 'e', 'r', '!']) {
        Some((TokenType::Command(CommandType::BufferDecl), false))
    } else if same_text(v, &['p', 'u', 's', 'h']) {
        Some((TokenType::Instruction(InstructionType::Push), false))
    } else if same_text(v, &['p', 'o', 'p']) {
        Some((TokenType::Instruction(InstructionType::Pop), false))
    } else if same_text(v, &['m', 'o', 'v']) {
        Some((TokenType::Instruction(InstructionType::Mov), false))
    } else if same_text(v, &['c', 'm', 'o', 'v']) {
        Some((TokenType::Instruction(InstructionType::CMov), false))
    } else if same_text(v, &['r', 'e', 'a', 'd']) {
        Some((TokenType::Instruction(InstructionType::Read), false))
    } else if same_text(v, &['w', 'r', 'i', 't', 'e']) {
        Some((TokenType::Instruction(InstructionType::Write), false))
    } else if same_text(v, &['c', 'r', 'e', 'a', 'd']) {
        Some((TokenType::Instruction(InstructionType::CRead), false))
    } else if same_text(v, &['c', 'w', 'r', 'i', 't', 'e']) {
        Some((TokenType::Instruction(InstructionType::CWrite), false))
    } else if same_text(v, &['c', 'o', 'n', 'v', '.', 'i', '3', '2', '.', 'f', '3', '2']) {
        Some((TokenType::Instruction(InstructionType::ConvertF32ToI32), true))
    } else if same_text(v, &['c', 'o', 'n', 'v', '.', 'u', '3', '2', '.', 'f', '3', '2']) {
        Some((TokenType::Instruction(InstructionType::ConvertF32ToU32), true))
    } else if same_text(v, &['c', 'o', 'n', 'v', '.', 'f', '3', '2', '.', 'i', '3', '2']) {
        Some((TokenType::Instruction(InstructionType::ConvertI32ToF32), true))
    } else if same_text(v, &['c', 'o', 'n', 'v', '.', 'f', '3', '2', '.', 'u', '3', '2']) {
        Some((TokenType::Instruction(InstructionType::ConvertU32ToF32), true))
    } else if same_text(v, &['n', 'e', 'g', '.', 'i']) {
        Some((TokenType::Instruction(InstructionType::Neg(OpDataType::I32)), true))
    } else if same_text(v, &['n', 'e', 'g', '.', 'f']) {
        Some((TokenType::Instruction(InstructionType::Neg(OpDataType::F32)), true))
    } else if same_text(v, &['s', 'i', 'g', 'n', '.', 'f']) {
        Some((TokenType::Instruction(InstructionType::Sign(OpDataType::F32)), true))
    } else if same_text(v, &['s', 'i', 'g', 'n', '.', 'i']) {
        Some((TokenType::Instruction(InstructionType::Sign(OpDataType::I32)), true))
    } else if same_text(v, &['r', 'e', 'c', 'i', 'p']) {
        Some((TokenType::Instruction(InstructionType::Recip), false))
    } else if same_text(v, &['s', 'i', 'n']) {
        Some((TokenType::Instruction(InstructionType::Sin), false))
    } else if same_text(v, &['c', 'o', 's']) {
        Some((TokenType::Instruction(InstructionType::Cos), false))
    } else if same_text(v, &['t', 'a', 'n']) {
        Some((TokenType::Instruction(InstructionType::Tan), false))
    } else if same_text(v, &['a', 's', 'i', 'n']) {
        Some((TokenType::Instruction(InstructionType::ASin), false))
    } else if same_text(v, &['a', 'c', 'o', 's']) {
        Some((TokenType::Instruction(InstructionType::ACos), false))
    } else if same_text(v, &['a', 't', 'a', 'n']) {
        Some((TokenType::Instruction(InstructionType::Atan), false))
    } else if same_text(v, &['l', 'n']) {
        Some((TokenType::Instruction(InstructionType::Ln), false))
    } else if same_text(v, &['e', 'x', 'p']) {
        Some((TokenType::Instruction(InstructionType::Exp), false))
    } else if same_text(v, &['c', 'm', 'p', '.', 'i', '.', 'e', 'q']) {
        Some((TokenType::Instruction(InstructionType::Cmp(Comparison::Eq)), true))
    } else if same_text(v, &['c', 'm', 'p', '.', 'i', '.', 'n', 'e', 'q']) {
        Some((TokenType::Instruction(InstructionType::Cmp(Comparison::Neq)), true))
    } else if same_text(v, &['c', 'm', 'p', '.', 'i', '.', 'l', 't']) {
        Some((TokenType::Instruction(InstructionType::Cmp(Comparison::Lt)), true))
    } else if same_text(v, &['c', 'm', 'p', '.', 'i', '.', 'l', 't', 'e']) {
        Some((TokenType::Instruction(InstructionType::Cmp(Comparison::Lte)), true))
    } else if same_text(v, &['c', 'm', 'p', '.', 'f', '.', 'e', 'q']) {
        Some((TokenType::Instruction(InstructionType::FCmp(Comparison::Eq)), true))
    } else if same_text(v, &['c', 'm', 'p', '.', 'f', '.', 'n', 'e', 'q']) {
        Some((TokenType::Instruction(InstructionType::FCmp(Comparison::Neq)), true))
    } else if same_text(v, &['c', 'm', 'p', '.', 'f', '.', 'l', 't']) {
        Some((TokenType::Instruction(InstructionType::FCmp(Comparison::Lt)), true))
    } else if same_text(v, &['c', 'm', 'p', '.', 'f', '.', 'l', 't', 'e']) {
        Some((TokenType::Instruction(InstructionType::FCmp(Comparison::Lte)), true))
    } else if same_text(v, &['c', 'm', 'p', '.', 'u', '.', 'e', 'q']) {
        Some((TokenType::Instruction(InstructionType::UCmp(Comparison::Eq)), true))
    } else if same_text(v, &['c', 'm', 'p', '.', 'u', '.', 'n', 'e', 'q']) {
        Some((TokenType::Instruction(InstructionType::UCmp(Comparison::Neq)), true))
    } else if same_text(v, &['c', 'm', 'p', '.', 'u', '.', 'l', 't']) {
        Some((TokenType::Instruction(InstructionType::UCmp(Comparison::Lt)), true))
    } else if same_text(v, &['c', 'm', 'p', '.', 'u', '.', 'l', 't', 'e']) {
        Some((TokenType::Instruction(InstructionType::UCmp(Comparison::Lte)), true))
    } else if same_text(v, &['a', 'd', 'd', '.', 'f']) {
        Some((TokenType::Instruction(InstructionType::Add(OpDataType::F32)), true))
    } else if same_text(v, &['s', 'u', 'b', '.', 'f']) {
        Some((TokenType::Instruction(InstructionType::Sub(OpDataType::F32)), true))
    } else if same_text(v, &['m', 'u', 'l', '.', 'f']) {
        Some((TokenType::Instruction(InstructionType::Mul(OpDataType::F32)), true))
    } else if same_text(v, &['d', 'i', 'v', '.', 'f']) {
        Some((TokenType::Instruction(InstructionType::Div(OpDataType::F32)), true))
    } else if same_text(v, &['m', 'o', 'd', '.', 'f']) {
        Some((TokenType::Instruction(InstructionType::Mod(OpDataType::F32)), true))
    } else if same_text(v, &['a', 'd', 'd', '.', 'i']) {
        Some((TokenType::Instruction(InstructionType::Add(OpDataType::I32)), true))
    } else if same_text(v, &['s', 'u', 'b', '.', 'i']) {
        Some((TokenType::Instruction(InstructionType::Sub(OpDataType::I32)), true))
    } else if same_text(v, &['m', 'u', 'l', '.', 'i']) {
        Some((TokenType::Instruction(InstructionType::Mul(OpDataType::I32)), true))
    } else if same_text(v, &['d', 'i', 'v', '.', 'i']) {
        Some((TokenType::Instruction(InstructionType::Div(OpDataType::I32)), true))
    } else if same_text(v, &['m', 'o', 'd', '.', 'i']) {
        Some((TokenType::Instruction(InstructionType::Mod(OpDataType::I32)), true))
    } else if same_text(v, &['a', 't', 'a', 'n', '2']) {
        Some((TokenType::Instruction(InstructionType::Atan2), false))
    } else if same_text(v, &['a', 'n', 'd']) {
        Some((TokenType::Instruction(InstructionType::And), false))
    } else if same_text(v, &['a', 'n', 'd', 'n']) {
        Some((TokenType::Instruction(InstructionType::AndN), false))
    } else if same_text(v, &['o', 'r']) {
        Some((TokenType::Instruction(InstructionType::Or), false))
    } else if same_text(v, &['x', 'o', 'r']) {
        Some((TokenType::Instruction(InstructionType::Xor), false))
    } else if same_text(v, &['f', 'f', 'm', 'a']) {
        Some((TokenType::Instruction(InstructionType::Fma(OpDataType::F32)), false))
    } else if same_text(v, &['i', 'f', 'm', 'a']) {
        Some((TokenType::Instruction(InstructionType::Fma(OpDataType::I32)), false))
    } else if same_text(v, &['l', 'e', 'r', 'p']) {
        Some((TokenType::Instruction(InstructionType::Lerp), false))
    } else if same_text(v, &['n', 'o', 'r', 'm', '.', '2']) {
        Some((TokenType::Instruction(InstructionType::Norm2), true))
    } else if same_text(v, &['n', 'o', 'r', 'm', '.', '3']) {
        Some((TokenType::Instruction(InstructionType::Norm3), true))
    } else if same_text(v, &['n', 'o', 'r', 'm', '.', '4']) {
        Some((TokenType::Instruction(InstructionType::Norm4), true))
    } else if same_text(v, &['m', 'a', 'g', '.', 'v', '2']) {
        Some((TokenType::Instruction(InstructionType::Mag2), true))
    } else if same_text(v, &['m', 'a', 'g', '.', 'v', '3']) {
        Some((TokenType::Instruction(InstructionType::Mag3), true))
    } else if same_text(v, &['m', 'a', 'g', '.', 'v', '4']) {
        Some((TokenType::Instruction(InstructionType::Mag4), true))
    } else if same_text(v, &['c', 'r', 'o', 's', 's']) {
        Some((TokenType::Instruction(InstructionType::Cross), false))
    } else if same_text(v, &['m', 'u', 'l', '.', 'm', '4', '4', '.', 'v', '4']) {
        Some((TokenType::Instruction(InstructionType::MatrixMultiply4x4V4), true))
    } else {
        None
    }
}

/// `c` with an ASCII capital made small.
fn lower_char(c: char) -> (r: char)
    ensures
        r == lower(c),
{
    if 'A' <= c && c <= 'Z' {
        let x = (c as u32) + 32;
        char_from(x)
    } else {
        c
    }
}

/// The character with code `x`, an ASCII letter.
fn char_from(x: u32) -> (r: char)
    requires
        0x41 <= x <= 0x7A,
    ensures
        r == x as char,
{
    (x as u8) as char
}

/// `v` with its ASCII capitals made small.
fn lower_chars(v: &Vec<char>, from: usize, to: usize) -> (r: Vec<char>)
    requires
        from <= to <= v@.len(),
    ensures
        r@ == lower_text(v@.subrange(from as int, to as int)),
{
    let mut r: Vec<char> = Vec::new();
    let mut k = from;
    while k < to
        invariant
            from <= k <= to,
            to <= v@.len(),
            r@ == lower_text(v@.subrange(from as int, k as int)),
        decreases to - k,
    {
        r.push(lower_char(v[k]));
        k = k + 1;
        assert(r@ =~= lower_text(v@.subrange(from as int, k as int)));
    }
    r
}

/// A register number (see `parse_index`).
fn index_of(v: &Vec<char>, from: usize) -> (r: Option<u32>)
    requires
        from <= v@.len(),
    ensures
        r == parse_index(v@.subrange(from as int, v@.len() as int)),
{
    let ghost t = v@.subrange(from as int, v@.len() as int);
    if from == v.len() {
        return None;
    }
    let mut acc: u64 = 0;
    let mut k = from;
    while k < v.len()
        invariant
            from <= k <= v@.len(),
            t == v@.subrange(from as int, v@.len() as int),
            all_digits(v@.subrange(from as int, k as int)),
            acc as int == if digits_value(v@.subrange(from as int, k as int)) < 0x2_0000_0000 {
                digits_value(v@.subrange(from as int, k as int)) as int
            } else {
                0x2_0000_0000
            },
        decreases v@.len() - k,
    {
        let c = v[k];
        if !('0' <= c && c <= '9') {
            assert(t[k - from] == c);
            return None;
        }
        let d = (c as u32 - '0' as u32) as u64;
        proof {
            assert(v@.subrange(from as int, k + 1).drop_last() =~= v@.subrange(from as int, k as int));
        }
        acc = if acc * 10 + d < 0x2_0000_0000 { acc * 10 + d } else { 0x2_0000_0000 };
        k = k + 1;
    }
    assert(v@.subrange(from as int, k as int) =~= t);
    if acc <= 0xFFFF_FFFF {
        Some(acc as u32)
    } else {
        None
    }
}

/// A token as the lexer's contract sees it: kind, line, column and text.
pub open spec fn token_view(t: Token) -> (TokenType, int, int, Option<Seq<char>>) {
    (t.t, t.line as int, t.column as int, match t.value { Some(v) => Some(v@), None => None })
}

/// Where the lexer is between two characters: the next character, the place it stands at,
/// whether a minus sign is pending (`pending`) or was just read (`pend`), and the tokens and
/// the places of the errors so far with, beside each, its message where it is stated
/// (`None` for one that holds the `{:?}` text of tokens).
pub struct LexView {
    pub i: int,
    pub line: int,
    pub column: int,
    pub pending: bool,
    pub pend: bool,
    pub tokens: Seq<(TokenType, int, int, Option<Seq<char>>)>,
    pub errors: Seq<(int, int)>,
    pub messages: Seq<Option<Seq<char>>>,
}

/// How far a number after a leading `0` has been read.
#[derive(Copy, Clone, Debug, PartialEq, Eq, Structural)]
pub enum NumberLexState {
    Integer,
    Float,
    FloatDecimal,
    FloatExponent(bool),
    FloatExponentValue,
}

/// The end of the run of blanks from `k`, and the line and column after it: a line break
/// starts a new line at column 1, another blank moves one column on.
pub open spec fn blank_run(s: Seq<char>, k: int, line: int, column: int) -> (int, int, int)
    decreases s.len() - k,
{
    if 0 <= k < s.len() && is_blank(s[k]) {
        if s[k] == '\n' { blank_run(s, k + 1, line + 1, 1) } else { blank_run(s, k + 1, line, column + 1) }
    } else {
        (k, line, column)
    }
}

/// The end of the run of name characters from `k`.
pub open spec fn name_end(s: Seq<char>, k: int) -> int
    decreases s.len() - k,
{
    if 0 <= k < s.len() && is_name_char(s[k]) { name_end(s, k + 1) } else { k }
}

/// Reads the digits, dot and exponent of a number from `k` in `state`: the end, the column
/// after it, the place of an error where a digit is missing (and whether it follows the
/// dot rather than the exponent mark), and the characters read.
pub open spec fn number_run(s: Seq<char>, k: int, state: NumberLexState, value: Seq<char>, line: int, column: int)
    -> (int, int, Option<(int, int, bool)>, Seq<char>)
    decreases s.len() - k,
{
    if k < 0 || k >= s.len() {
        (k, column, None, value)
    } else {
        let c = s[k];
        let digit = '0' <= c <= '9';
        match state {
            NumberLexState::Integer =>
                if digit { number_run(s, k + 1, NumberLexState::Integer, value.push(c), line, column + 1) }
                else if c == '.' { number_run(s, k + 1, NumberLexState::FloatDecimal, value.push(c), line, column + 1) }
                else { (k, column, None, value) },
            NumberLexState::FloatDecimal =>
                if digit { number_run(s, k + 1, NumberLexState::Float, value.push(c), line, column + 1) }
                else { (k, column, Some((line, column, true)), value) },
            NumberLexState::Float =>
                if digit { number_run(s, k + 1, NumberLexState::Float, value.push(c), line, column + 1) }
                else if c == 'e' { number_run(s, k + 1, NumberLexState::FloatExponent(false), value.push(c), line, column + 1) }
                else { (k, column, None, value) },
            NumberLexState::FloatExponent(signed) =>
                if !signed && c == '-' { number_run(s, k + 1, NumberLexState::FloatExponent(true), value.push(c), line, column + 1) }
                else if digit { number_run(s, k + 1, NumberLexState::FloatExponentValue, value.push(c), line, column + 1) }
                else { (k, column, Some((line, column, false)), value) },
            NumberLexState::FloatExponentValue =>
                if digit { number_run(s, k + 1, NumberLexState::FloatExponentValue, value.push(c), line, column + 1) }
                else { (k, column, None, value) },
        }
    }
}

/// The end of a block comment whose text starts at `j`: it stops after a `*` followed by a
/// `/` (the `/` is left), or at the end of the text.
pub open spec fn block_end(s: Seq<char>, j: int) -> int
    decreases s.len() - j,
{
    if j < 0 || j >= s.len() {
        j
    } else if j + 1 >= s.len() {
        j + 1
    } else if s[j] == '*' && s[j + 1] == '/' {
        j + 1
    } else {
        block_end(s, j + 1)
    }
}

/// The end of a line comment whose text starts at `j`: after the next line break, or at the
/// end of the text.
pub open spec fn line_end(s: Seq<char>, j: int) -> int
    decreases s.len() - j,
{
    if j < 0 || j >= s.len() {
        j
    } else if s[j] == '\n' {
        j + 1
    } else {
        line_end(s, j + 1)
    }
}

/// The position of the first dot of `v` from `k`, if any.
pub open spec fn first_dot(v: Seq<char>, k: int) -> Option<int>
    decreases v.len() - k,
{
    if 0 <= k < v.len() {
        if v[k] == '.' { Some(k) } else { first_dot(v, k + 1) }
    } else {
        None
    }
}

/// Whether `v` is a channel suffix: a dot and one of x, y, z, w, r, g, b, a.
pub open spec fn is_channel_suffix(v: Seq<char>) -> bool {
    v.len() == 2 && v[0] == '.' && (v[1] == 'x' || v[1] == 'y' || v[1] == 'z' || v[1] == 'w'
        || v[1] == 'r' || v[1] == 'g' || v[1] == 'b' || v[1] == 'a')
}

/// The token a name `reg` (made small, without its channel suffix) stands for, whether a
/// channel suffix may follow it, and whether a suffix is dropped; `None` where a register
/// prefix is not followed by a number. `word` is the whole name made small.
pub open spec fn classify(reg: Seq<char>, word: Seq<char>) -> Option<(TokenType, bool, bool)> {
    if starts_with(reg, seq!['v', 'l', 'o', 'c', '_']) {
        match parse_index(reg.subrange(5, reg.len() as int)) { Some(n) => Some((TokenType::Register(RegisterName::LocalV(n as u8)), true, false)), None => None }
    } else if starts_with(reg, seq!['s', 'l', 'o', 'c', '_']) {
        match parse_index(reg.subrange(5, reg.len() as int)) { Some(n) => Some((TokenType::Register(RegisterName::LocalS(n as u8)), false, false)), None => None }
    } else if starts_with(reg, seq!['v', 'i', 'n', '_']) {
        match parse_index(reg.subrange(4, reg.len() as int)) { Some(n) => Some((TokenType::Register(RegisterName::InputV(n as u8)), true, false)), None => None }
    } else if starts_with(reg, seq!['s', 'i', 'n', '_']) {
        match parse_index(reg.subrange(4, reg.len() as int)) { Some(n) => Some((TokenType::Register(RegisterName::InputS(n as u8)), false, false)), None => None }
    } else if starts_with(reg, seq!['v', 'o', 'u', 't', '_']) {
        match parse_index(reg.subrange(5, reg.len() as int)) { Some(n) => Some((TokenType::Register(RegisterName::OutputV(n as u8)), true, false)), None => None }
    } else if starts_with(reg, seq!['s', 'o', 'u', 't', '_']) {
        match parse_index(reg.subrange(5, reg.len() as int)) { Some(n) => Some((TokenType::Register(RegisterName::OutputS(n as u8)), false, false)), None => None }
    } else if starts_with(reg, seq!['v', 'c', 'o', 'n', 's', 't', '_']) {
        match parse_index(reg.subrange(7, reg.len() as int)) { Some(n) => Some((TokenType::Register(RegisterName::ConstantV(n as u8)), true, false)), None => None }
    } else if starts_with(reg, seq!['s', 'c', 'o', 'n', 's', 't', '_']) {
        match parse_index(reg.subrange(7, reg.len() as int)) { Some(n) => Some((TokenType::Register(RegisterName::ConstantS(n as u8)), false, false)), None => None }
    } else {
        match spec_keyword(word) {
            Some((t, clear)) => Some((t, false, clear)),
            None => Some((TokenType::Name, true, false)),
        }
    }
}

/// The tokens and error places a name `value` gives, read up to line `line`, column
/// `column`, having started at `tl`, `tc`: its token, then a valid channel suffix as a dot and
/// a name; an error at the end of the name for a channel suffix that is not valid or may
/// not follow, and an error at the start, and no token, for a register prefix without a
/// number.
pub open spec fn name_outcome(value: Seq<char>, line: int, column: int, tl: int, tc: int)
    -> (Seq<(TokenType, int, int, Option<Seq<char>>)>, Seq<(int, int)>)
{
    let dot = first_dot(value, 0);
    let reg = lower_text(match dot { Some(d) => value.subrange(0, d), None => value });
    let suffix = match dot { Some(d) => Some(lower_text(value.subrange(d, value.len() as int))), None => None::<Seq<char>> };
    match classify(reg, lower_text(value)) {
        None => (Seq::empty(), seq![(tl, tc)]),
        Some((t, accepts, clear)) => {
            let main = (t, tl, tc, if t == TokenType::Name { Some(reg) } else { None::<Seq<char>> });
            match suffix {
                Some(cs) if !clear => {
                    if accepts && is_channel_suffix(cs) {
                        (seq![
                            main,
                            (TokenType::Dot, line, column + reg.len(), None::<Seq<char>>),
                            (TokenType::Name, line, column + reg.len() + 1, Some(cs.subrange(1, 2))),
                        ], Seq::empty())
                    } else {
                        (seq![main], seq![(line, column)])
                    }
                },
                _ => (seq![main], Seq::empty()),
            }
        },
    }
}

/// The message of a name whose register prefix is not followed by a number.
pub open spec fn classify_message(reg: Seq<char>) -> Seq<char> {
    if starts_with(reg, seq!['v', 'l', 'o', 'c', '_']) {
        "Expected index after vloc_"@
    } else if starts_with(reg, seq!['s', 'l', 'o', 'c', '_']) {
        "Expected index after sloc_ "@
    } else if starts_with(reg, seq!['v', 'i', 'n', '_']) {
        "Expected index after vin_ - token: "@ + reg + ""@
    } else if starts_with(reg, seq!['s', 'i', 'n', '_']) {
        "Expected index after sin_ "@
    } else if starts_with(reg, seq!['v', 'o', 'u', 't', '_']) {
        "Expected index after vout_, found: "@ + reg + ""@
    } else if starts_with(reg, seq!['s', 'o', 'u', 't', '_']) {
        "Expected index after sout_ "@
    } else if starts_with(reg, seq!['v', 'c', 'o', 'n', 's', 't', '_']) {
        "Expected index after vconst_ "@
    } else {
        "Expected index after sconst_ "@
    }
}

/// The messages of the errors `name_outcome` gives, in order: stated, except for a channel
/// suffix after a name that takes none, whose message holds the `{:?}` text of tokens.
pub open spec fn name_messages(value: Seq<char>) -> Seq<Option<Seq<char>>> {
    let dot = first_dot(value, 0);
    let reg = lower_text(match dot { Some(d) => value.subrange(0, d), None => value });
    let suffix = match dot { Some(d) => Some(lower_text(value.subrange(d, value.len() as int))), None => None::<Seq<char>> };
    match classify(reg, lower_text(value)) {
        None => seq![Some(classify_message(reg))],
        Some((t, accepts, clear)) => match suffix {
            Some(cs) if !clear => {
                if accepts && is_channel_suffix(cs) {
                    Seq::empty()
                } else if accepts {
                    seq![Some("Invalid register component access specifier: "@ + cs + ""@)]
                } else {
                    seq![None]
                }
            },
            _ => Seq::empty(),
        },
    }
}

/// The message of a `0` followed by a base prefix `p` and no digit of that base.
pub open spec fn prefix_message(p: char) -> Seq<char> {
    if p == 'x' || p == 'X' || p == 'h' || p == 'H' {
        "Expected value digits after hexadecimal start sequence"@
    } else if p == 'b' || p == 'B' {
        "Expected value digits after binary start sequence"@
    } else {
        "Expected value digits after octal start sequence"@
    }
}

/// The message of a number missing a digit after its dot (`after_dot`) or its exponent mark.
pub open spec fn number_message(after_dot: bool) -> Seq<char> {
    if after_dot {
        "Expected a numeric digit after dot in float immediate"@
    } else {
        "Expected a numeric digit e in float immediate"@
    }
}

/// The message of a character that starts no token.
pub open spec fn unexpected_text(c: char) -> Seq<char> {
    "Unexpected character '"@ + seq![c] + "'"@
}

/// Whether `c` is a digit of the base a `0x`, `0b` or `0o` prefix (`p`) names.
pub open spec fn prefix_digit(p: char, c: char) -> bool {
    if p == 'x' || p == 'X' || p == 'h' || p == 'H' {
        ('0' <= c <= '9') || ('a' <= c <= 'f') || ('A' <= c <= 'F')
    } else if p == 'b' || p == 'B' {
        '0' <= c <= '1'
    } else {
        '0' <= c <= '7'
    }
}

/// Whether `p` after a `0` names a base.
pub open spec fn is_base_prefix(p: char) -> bool {
    p == 'x' || p == 'X' || p == 'h' || p == 'H' || p == 'b' || p == 'B' || p == 'o' || p == 'O'
}

/// One step of the lexer from `st`, at the character `s[st.i]`: `None` where it would never
/// finish (a base prefix followed by one of its digits) or stops (a number starting with 1
/// to 9).
pub open spec fn lex_step(s: Seq<char>, st: LexView) -> Option<LexView> {
    let c = s[st.i];
    let tl = st.line;
    let tc = st.column;
    let col = st.column + 1;
    let k = st.i + 1;
    let pending = !st.pending && st.pend;
    let errors = if st.pending && st.pend { st.errors.push((tl, tc)) } else { st.errors };
    let messages = if st.pending && st.pend {
        st.messages.push(Some("Unexpected minus sign after minus sign"@))
    } else {
        st.messages
    };
    let base = LexView {
        i: k, line: st.line, column: col, pending: pending, pend: false, tokens: st.tokens, errors: errors, messages: messages,
    };
    if is_blank(c) {
        let line1 = if c == '\n' { st.line + 1 } else { st.line };
        let col1 = if c == '\n' { 1 } else { col };
        let (end, line2, col2) = blank_run(s, k, line1, col1);
        Some(LexView {
            i: end, line: line2, column: col2, pending: false, pend: pending,
            tokens: st.tokens.push((TokenType::Whitespace, tl, tc, None)), errors: errors, messages: messages,
        })
    } else if c == ',' {
        Some(LexView { tokens: st.tokens.push((TokenType::Comma, tl, tc, None)), ..base })
    } else if c == '.' {
        Some(LexView { tokens: st.tokens.push((TokenType::Dot, tl, tc, None)), ..base })
    } else if c == ':' {
        Some(LexView { tokens: st.tokens.push((TokenType::Colon, tl, tc, None)), ..base })
    } else if is_name_start(c) {
        let e = name_end(s, k);
        let col_e = col + (e - k);
        let bang = e < s.len() && s[e] == '!';
        let e2 = if bang { e + 1 } else { e };
        let col2 = if bang { col_e + 1 } else { col_e };
        let (toks, errs) = name_outcome(s.subrange(st.i, e2), st.line, col2, tl, tc);
        Some(LexView {
            i: e2, column: col2, tokens: st.tokens + toks, errors: errors + errs,
            messages: messages + name_messages(s.subrange(st.i, e2)), ..base
        })
    } else if c == '-' {
        Some(LexView { pend: true, ..base })
    } else if c == '0' {
        if k >= s.len() {
            Some(LexView { pending: false, ..base })
        } else if is_base_prefix(s[k]) {
            if k + 1 < s.len() && prefix_digit(s[k], s[k + 1]) {
                None
            } else if k + 1 < s.len() {
                Some(LexView {
                    i: k + 1, column: col + 1, pending: false, errors: errors.push((tl, tc)),
                    messages: messages.push(Some(prefix_message(s[k]))), ..base
                })
            } else {
                Some(LexView { i: k + 1, column: col + 1, pending: false, ..base })
            }
        } else {
            let (end, col_end, err, value) = number_run(s, k, NumberLexState::Integer, Seq::empty(), st.line, col);
            match err {
                Some((el, ec, after_dot)) => Some(LexView {
                    i: end, column: col_end, pending: false, errors: errors.push((el, ec)),
                    messages: messages.push(Some(number_message(after_dot))), ..base
                }),
                None => Some(LexView {
                    i: end, column: col_end, pending: false,
                    tokens: st.tokens.push((TokenType::Number, tl, tc, Some(value))), ..base
                }),
            }
        }
    } else if '1' <= c <= '9' {
        None
    } else if c == '/' {
        if k >= s.len() {
            Some(LexView { errors: errors.push((tl, tc)), messages: messages.push(Some(unexpected_text(c))), ..base })
        } else if s[k] == '*' || s[k] == '/' {
            let j = if k + 1 < s.len() { k + 2 } else { k + 1 };
            let end = if s[k] == '*' { block_end(s, j) } else { line_end(s, j) };
            Some(LexView { i: end, tokens: st.tokens.push((TokenType::Comment, tl, tc, None)), ..base })
        } else {
            Some(LexView { i: k + 1, errors: errors.push((tl, tc)), messages: messages.push(Some(unexpected_text(c))), ..base })
        }
    } else {
        Some(LexView { errors: errors.push((tl, tc)), messages: messages.push(Some(unexpected_text(c))), ..base })
    }
}

/// The lexer run from `st` to the end of `s`; `None` where it would not finish or stops.
pub open spec fn lex_from(s: Seq<char>, st: LexView) -> Option<LexView>
    decreases s.len() - st.i,
{
    if st.i < 0 || st.i >= s.len() {
        Some(st)
    } else {
        match lex_step(s, st) {
            None => None,
            Some(next) => if st.i < next.i <= s.len() { lex_from(s, next) } else { None },
        }
    }
}

/// The lexer's state before the first character.
pub open spec fn lex_start() -> LexView {
    LexView {
        i: 0, line: 1, column: 1, pending: false, pend: false, tokens: Seq::empty(), errors: Seq::empty(), messages: Seq::empty(),
    }
}

/// The lexer's state at the end of `s`, or `None` where it would not finish or stops.
pub open spec fn spec_lex(s: Seq<char>) -> Option<LexView> {
    lex_from(s, lex_start())
}

/// The end of the run of blanks from `k`, and the line and column after it (see `blank_run`).
fn blank_run_exec(s: &Vec<char>, k: usize, line: usize, column: usize) -> (r: (usize, usize, usize))
    requires
        k <= s@.len(),
        s@.len() <= isize::MAX,
        1 <= line,
        1 <= column,
        line + column <= k + 2,
    ensures
        (r.0 as int, r.1 as int, r.2 as int) == blank_run(s@, k as int, line as int, column as int),
        k <= r.0 <= s@.len(),
        1 <= r.1,
        1 <= r.2,
        r.1 + r.2 <= r.0 + 2,
    decreases s@.len() - k,
{
    if k < s.len() && (s[k] == ' ' || s[k] == '\t' || s[k] == '\n') {
        if s[k] == '\n' {
            blank_run_exec(s, k + 1, line + 1, 1)
        } else {
            blank_run_exec(s, k + 1, line, column + 1)
        }
    } else {
        (k, line, column)
    }
}

/// The end of the run of name characters from `k` (see `name_end`).
fn name_end_exec(s: &Vec<char>, k: usize) -> (r: usize)
    requires
        k <= s@.len(),
    ensures
        r == name_end(s@, k as int),
        k <= r <= s@.len(),
    decreases s@.len() - k,
{
    if k < s.len() {
        let c = s[k];
        if ('a' <= c && c <= 'z') || ('A' <= c && c <= 'Z') || c == '_' || ('0' <= c && c <= '9') || c == '.' {
            return name_end_exec(s, k + 1);
        }
    }
    k
}

/// Reads a number from `k` (see `number_run`).
fn number_run_exec(s: &Vec<char>, k: usize, state: NumberLexState, value: Vec<char>, line: usize, column: usize)
    -> (r: (usize, usize, Option<(usize, usize, bool)>, Vec<char>))
    requires
        k <= s@.len(),
        s@.len() <= isize::MAX,
        column <= k + 2,
    ensures
        ({
            let (end, col, err, v) = number_run(s@, k as int, state, value@, line as int, column as int);
            &&& r.0 == end
            &&& r.1 == col
            &&& r.3@ == v
            &&& match err {
                Some((l, c, d)) => r.2 matches Some((a, b, f)) && a == l && b == c && f == d && l == line && c == r.1,
                None => r.2 is None,
            }
        }),
        k <= r.0 <= s@.len(),
        r.1 - column == r.0 - k,
    decreases s@.len() - k,
{
    if k >= s.len() {
        return (k, column, None, value);
    }
    let c = s[k];
    let digit = '0' <= c && c <= '9';
    let mut value = value;
    match state {
        NumberLexState::Integer => {
            if digit {
                value.push(c);
                number_run_exec(s, k + 1, NumberLexState::Integer, value, line, column + 1)
            } else if c == '.' {
                value.push(c);
                number_run_exec(s, k + 1, NumberLexState::FloatDecimal, value, line, column + 1)
            } else {
                (k, column, None, value)
            }
        },
        NumberLexState::FloatDecimal => {
            if digit {
                value.push(c);
                number_run_exec(s, k + 1, NumberLexState::Float, value, line, column + 1)
            } else {
                (k, column, Some((line, column, true)), value)
            }
        },
        NumberLexState::Float => {
            if digit {
                value.push(c);
                number_run_exec(s, k + 1, NumberLexState::Float, value, line, column + 1)
            } else if c == 'e' {
                value.push(c);
                number_run_exec(s, k + 1, NumberLexState::FloatExponent(false), value, line, column + 1)
            } else {
                (k, column, None, value)
            }
        },
        NumberLexState::FloatExponent(signed) => {
            if !signed && c == '-' {
                value.push(c);
                number_run_exec(s, k + 1, NumberLexState::FloatExponent(true), value, line, column + 1)
            } else if digit {
                value.push(c);
                number_run_exec(s, k + 1, NumberLexState::FloatExponentValue, value, line, column + 1)
            } else {
                (k, column, Some((line, column, false)), value)
            }
        },
        NumberLexState::FloatExponentValue => {
            if digit {
                value.push(c);
                number_run_exec(s, k + 1, NumberLexState::FloatExponentValue, value, line, column + 1)
            } else {
                (k, column, None, value)
            }
        },
    }
}

/// The end of a block comment whose text starts at `j` (see `block_end`).
fn block_end_exec(s: &Vec<char>, j: usize) -> (r: usize)
    requires
        j <= s@.len(),
    ensures
        r == block_end(s@, j as int),
        j <= r <= s@.len(),
    decreases s@.len() - j,
{
    if j >= s.len() {
        j
    } else if j + 1 >= s.len() {
        j + 1
    } else if s[j] == '*' && s[j + 1] == '/' {
        j + 1
    } else {
        block_end_exec(s, j + 1)
    }
}

/// The end of a line comment whose text starts at `j` (see `line_end`).
fn line_end_exec(s: &Vec<char>, j: usize) -> (r: usize)
    requires
        j <= s@.len(),
    ensures
        r == line_end(s@, j as int),
        j <= r <= s@.len(),
    decreases s@.len() - j,
{
    if j >= s.len() {
        j
    } else if s[j] == '\n' {
        j + 1
    } else {
        line_end_exec(s, j + 1)
    }
}

/// `"Unexpected channel accessor: "` and the `{:?}` text of `accessor` (`format!`).
#[verifier::external_body]
fn accessor_message(accessor: &Result<[Token; 2], SourceError>) -> String {
    format!("Unexpected channel accessor: {:?}", accessor)
}

/// The place of an error, as the lexer's contract sees it.
pub open spec fn error_view(e: SourceError) -> (int, int) {
    (e.line as int, e.column as int)
}

/// Whether `v` starts with `p`.
fn starts_with_exec(v: &Vec<char>, p: &[char]) -> (r: bool)
    ensures
        r == starts_with(v@, p@),
{
    if v.len() < p.len() {
        return false;
    }
    let mut i: usize = 0;
    while i < p.len()
        invariant
            v@.len() >= p@.len(),
            i <= p@.len(),
            forall|j: int| 0 <= j < i ==> v@[j] == p@[j],
        decreases p@.len() - i,
    {
        if v[i] != p[i] {
            assert(v@.subrange(0, p@.len() as int)[i as int] != p@[i as int]);
            return false;
        }
        i = i + 1;
    }
    assert(v@.subrange(0, p@.len() as int) =~= p@);
    true
}

/// What a name made small (`reg`, without its suffix; `word`, whole) stands for (see
/// `classify`); the error message where a register prefix has no number after it.
fn classify_exec(reg: &Vec<char>, word: &Vec<char>) -> (r: Result<(TokenType, bool, bool), String>)
    ensures
        match classify(reg@, word@) {
            Some(x) => r == Ok::<(TokenType, bool, bool), String>(x),
            None => r matches Err(m) && m@ == classify_message(reg@),
        },
{
    if starts_with_exec(reg, &['v', 'l', 'o', 'c', '_']) {
        match index_of(reg, 5) {
            Some(n) => Ok((TokenType::Register(RegisterName::LocalV(n as u8)), true, false)),
            None => Err(String::from_str("Expected index after vloc_")),
        }
    } else if starts_with_exec(reg, &['s', 'l', 'o', 'c', '_']) {
        match index_of(reg, 5) {
            Some(n) => Ok((TokenType::Register(RegisterName::LocalS(n as u8)), false, false)),
            None => Err(String::from_str("Expected index after sloc_ ")),
        }
    } else if starts_with_exec(reg, &['v', 'i', 'n', '_']) {
        match index_of(reg, 4) {
            Some(n) => Ok((TokenType::Register(RegisterName::InputV(n as u8)), true, false)),
            None => {
                let text = chars_to_string(reg.clone());
                Err(name_message("Expected index after vin_ - token: ", text.as_str(), ""))
            },
        }
    } else if starts_with_exec(reg, &['s', 'i', 'n', '_']) {
        match index_of(reg, 4) {
            Some(n) => Ok((TokenType::Register(RegisterName::InputS(n as u8)), false, false)),
            None => Err(String::from_str("Expected index after sin_ ")),
        }
    } else if starts_with_exec(reg, &['v', 'o', 'u', 't', '_']) {
        match index_of(reg, 5) {
            Some(n) => Ok((TokenType::Register(RegisterName::OutputV(n as u8)), true, false)),
            None => {
                let text = chars_to_string(reg.clone());
                Err(name_message("Expected index after vout_, found: ", text.as_str(), ""))
            },
        }
    } else if starts_with_exec(reg, &['s', 'o', 'u', 't', '_']) {
        match index_of(reg, 5) {
            Some(n) => Ok((TokenType::Register(RegisterName::OutputS(n as u8)), false, false)),
            None => Err(String::from_str("Expected index after sout_ ")),
        }
    } else if starts_with_exec(reg, &['v', 'c', 'o', 'n', 's', 't', '_']) {
        match index_of(reg, 7) {
            Some(n) => Ok((TokenType::Register(RegisterName::ConstantV(n as u8)), true, false)),
            None => Err(String::from_str("Expected index after vconst_ ")),
        }
    } else if starts_with_exec(reg, &['s', 'c', 'o', 'n', 's', 't', '_']) {
        match index_of(reg, 7) {
            Some(n) => Ok((TokenType::Register(RegisterName::ConstantS(n as u8)), false, false)),
            None => Err(String::from_str("Expected index after sconst_ ")),
        }
    } else {
        match keyword(word) {
            Some((t, clear)) => Ok((t, false, clear)),
            None => Ok((TokenType::Name, true, false)),
        }
    }
}

/// The first dot of `v` from `k` is at `d` (or there is none when `d` is the end).
proof fn lemma_first_dot(v: Seq<char>, k: int, d: int)
    requires
        0 <= k <= d <= v.len(),
        forall|j: int| k <= j < d ==> v[j] != '.',
        d == v.len() || v[d] == '.',
    ensures
        first_dot(v, k) == if d < v.len() { Some(d) } else { None::<int> },
    decreases d - k,
{
    if k < d {
        lemma_first_dot(v, k + 1, d);
    }
}

/// Pushes the tokens and errors of the name `s[start..end]` (see `name_outcome`).
fn name_outcome_exec(
    s: &Vec<char>,
    start: usize,
    end: usize,
    line: usize,
    column: usize,
    tl: usize,
    tc: usize,
    tokens: &mut Vec<Token>,
    errors: &mut Vec<SourceError>,
)
    requires
        start < end <= s@.len(),
        s@.len() <= isize::MAX,
        column <= s@.len() + 1,
    ensures
        ({
            let (toks, errs) = name_outcome(s@.subrange(start as int, end as int), line as int, column as int, tl as int, tc as int);
            &&& final(tokens)@.map_values(|t: Token| token_view(t)) == old(tokens)@.map_values(|t: Token| token_view(t)) + toks
            &&& final(errors)@.map_values(|e: SourceError| error_view(e)) == old(errors)@.map_values(|e: SourceError| error_view(e)) + errs
        }),
        final(errors)@.len() == old(errors)@.len() + name_messages(s@.subrange(start as int, end as int)).len(),
        forall|j: int| 0 <= j < old(errors)@.len() ==> #[trigger] final(errors)@[j] == old(errors)@[j],
        forall|j: int| 0 <= j < name_messages(s@.subrange(start as int, end as int)).len()
            ==> (#[trigger] name_messages(s@.subrange(start as int, end as int))[j] matches Some(m)
                ==> final(errors)@[old(errors)@.len() + j].message@ == m),
{
    let ghost value = s@.subrange(start as int, end as int);
    let ghost tokens0 = tokens@.map_values(|t: Token| token_view(t));
    let ghost errors0 = errors@.map_values(|e: SourceError| error_view(e));
    let mut d = start;
    while d < end && s[d] != '.'
        invariant
            start <= d <= end,
            end <= s@.len(),
            forall|j: int| start <= j < d ==> s@[j] != '.',
        decreases end - d,
    {
        d = d + 1;
    }
    proof {
        lemma_first_dot(value, 0, d - start);
    }
    let reg = lower_chars(s, start, d);
    let word = lower_chars(s, start, end);
    proof {
        assert(value.subrange(0, d - start) =~= s@.subrange(start as int, d as int));
        if d == end {
            assert(value =~= s@.subrange(start as int, d as int));
        }
        assert(value.subrange(d - start, value.len() as int) =~= s@.subrange(d as int, end as int));
    }
    let ghost spec_reg = reg@;
    match classify_exec(&reg, &word) {
        Err(message) => {
            errors.push(SourceError { message, line: tl, column: tc });
            assert(errors@.map_values(|e: SourceError| error_view(e)) =~= errors0 + seq![(tl as int, tc as int)]);
            assert(tokens@.map_values(|t: Token| token_view(t)) =~= tokens0 + Seq::empty());
        },
        Ok((t, accepts, clear)) => {
            let is_name = t == TokenType::Name;
            let text = if is_name { Some(chars_to_string(reg.clone())) } else { None };
            tokens.push(Token { t, line: tl, column: tc, value: text });
            let ghost main = (t, tl as int, tc as int, if t == TokenType::Name { Some(spec_reg) } else { None::<Seq<char>> });
            assert(tokens@.map_values(|t: Token| token_view(t)) =~= tokens0.push(main));
            if d < end && !clear {
                let cs = lower_chars(s, d, end);
                let channel = cs.len() == 2 && cs[0] == '.' && (cs[1] == 'x' || cs[1] == 'y' || cs[1] == 'z' || cs[1] == 'w'
                    || cs[1] == 'r' || cs[1] == 'g' || cs[1] == 'b' || cs[1] == 'a');
                let dot_column = column + reg.len();
                if channel {
                    let one = vec![cs[1]];
                    assert(one@ =~= cs@.subrange(1, 2));
                    let comp = chars_to_string(one);
                    let dot = Token { t: TokenType::Dot, line, column: dot_column, value: None };
                    let name = Token { t: TokenType::Name, line, column: dot_column + 1, value: Some(comp) };
                    if accepts {
                        tokens.push(dot);
                        tokens.push(name);
                        assert(tokens@.map_values(|t: Token| token_view(t)) =~= tokens0 + seq![
                            main,
                            (TokenType::Dot, line as int, column + spec_reg.len(), None::<Seq<char>>),
                            (TokenType::Name, line as int, column + spec_reg.len() + 1, Some(cs@.subrange(1, 2))),
                        ]);
                        assert(errors@.map_values(|e: SourceError| error_view(e)) =~= errors0 + Seq::empty());
                    } else {
                        let accessor: Result<[Token; 2], SourceError> = Ok([dot, name]);
                        errors.push(SourceError { message: accessor_message(&accessor), line, column });
                        assert(errors@.map_values(|e: SourceError| error_view(e)) =~= errors0 + seq![(line as int, column as int)]);
                    }
                } else {
                    let text = chars_to_string(cs);
                    let invalid = SourceError {
                        message: name_message("Invalid register component access specifier: ", text.as_str(), ""),
                        line,
                        column,
                    };
                    if accepts {
                        errors.push(invalid);
                    } else {
                        let accessor: Result<[Token; 2], SourceError> = Err(invalid);
                        errors.push(SourceError { message: accessor_message(&accessor), line, column });
                    }
                    assert(errors@.map_values(|e: SourceError| error_view(e)) =~= errors0 + seq![(line as int, column as int)]);
                }
            } else {
                assert(errors@.map_values(|e: SourceError| error_view(e)) =~= errors0 + Seq::empty());
            }
        },
    }
}

/// The lexer's state between two characters.
struct Lexer {
    i: usize,
    line: usize,
    column: usize,
    pending: bool,
    pend: bool,
    tokens: Vec<Token>,
    errors: Vec<SourceError>,
    messages: Ghost<Seq<Option<Seq<char>>>>,
}

impl Lexer {
    /// The state as the contract sees it.
    spec fn state(&self) -> LexView {
        LexView {
            i: self.i as int,
            line: self.line as int,
            column: self.column as int,
            pending: self.pending,
            pend: self.pend,
            tokens: self.tokens@.map_values(|t: Token| token_view(t)),
            errors: self.errors@.map_values(|e: SourceError| error_view(e)),
            messages: self.messages@,
        }
    }

    /// Each error has the message beside it, where one is stated.
    spec fn stated(&self) -> bool {
        &&& self.messages@.len() == self.errors@.len()
        &&& forall|j: int| 0 <= j < self.errors@.len() ==> (#[trigger] self.messages@[j] matches Some(m) ==> self.errors@[j].message@ == m)
    }

    /// The position stays in the text, and lines and columns count from 1 and grow no faster
    /// than the characters read.
    spec fn inv(&self, len: int) -> bool {
        &&& self.i <= len
        &&& 1 <= self.line
        &&& 1 <= self.column
        &&& self.line + self.column <= self.i + 2
        &&& self.stated()
    }

    fn push_token(&mut self, t: TokenType, line: usize, column: usize)
        ensures
            old(self).stated() ==> final(self).stated(),
            final(self).state() == (LexView {
                tokens: old(self).state().tokens.push((t, line as int, column as int, None::<Seq<char>>)),
                ..old(self).state()
            }),
            final(self).i == old(self).i,
            final(self).line == old(self).line,
            final(self).column == old(self).column,
    {
        self.tokens.push(Token { t, line, column, value: None });
        assert(self.state().tokens =~= old(self).state().tokens.push((t, line as int, column as int, None::<Seq<char>>)));
    }

    fn push_error(&mut self, message: String, line: usize, column: usize, Ghost(stated): Ghost<Option<Seq<char>>>)
        requires
            stated matches Some(m) ==> message@ == m,
        ensures
            final(self).state() == (LexView {
                errors: old(self).state().errors.push((line as int, column as int)),
                messages: old(self).state().messages.push(stated),
                ..old(self).state()
            }),
            old(self).stated() ==> final(self).stated(),
            final(self).i == old(self).i,
            final(self).line == old(self).line,
            final(self).column == old(self).column,
    {
        self.errors.push(SourceError { message, line, column });
        proof {
            self.messages@ = self.messages@.push(stated);
        }
        assert(self.state().errors =~= old(self).state().errors.push((line as int, column as int)));
    }

    /// One step of the lexer (see `lex_step`).
    fn step(&mut self, s: &Vec<char>)
        requires
            old(self).inv(s@.len() as int),
            old(self).i < s@.len(),
            s@.len() <= isize::MAX,
            lex_step(s@, old(self).state()) is Some,
        ensures
            final(self).inv(s@.len() as int),
            final(self).state() == lex_step(s@, old(self).state())->Some_0,
            final(self).i > old(self).i,
    {
        let ghost st = self.state();
        let c = s[self.i];
        let tl = self.line;
        let tc = self.column;
        self.column = self.column + 1;
        self.i = self.i + 1;
        let k = self.i;
        if self.pending && self.pend {
            self.push_error(String::from_str("Unexpected minus sign after minus sign"), tl, tc,
                Ghost(Some("Unexpected minus sign after minus sign"@)));
        }
        self.pending = !self.pending && self.pend;
        self.pend = false;
        let ghost base = self.state();
        if c == ' ' || c == '\t' || c == '\n' {
            self.pend = self.pending;
            self.pending = false;
            if c == '\n' {
                self.column = 1;
                self.line = self.line + 1;
            }
            let (end, line2, column2) = blank_run_exec(s, k, self.line, self.column);
            self.i = end;
            self.line = line2;
            self.column = column2;
            self.push_token(TokenType::Whitespace, tl, tc);
            assert(self.state() == lex_step(s@, st)->Some_0);
        } else if c == ',' {
            self.push_token(TokenType::Comma, tl, tc);
            assert(self.state() == lex_step(s@, st)->Some_0);
        } else if c == '.' {
            self.push_token(TokenType::Dot, tl, tc);
            assert(self.state() == lex_step(s@, st)->Some_0);
        } else if c == ':' {
            self.push_token(TokenType::Colon, tl, tc);
            assert(self.state() == lex_step(s@, st)->Some_0);
        } else if ('a' <= c && c <= 'z') || ('A' <= c && c <= 'Z') || c == '_' {
            let e = name_end_exec(s, k);
            let mut e2 = e;
            let mut column2 = self.column + (e - k);
            if e < s.len() && s[e] == '!' {
                e2 = e + 1;
                column2 = column2 + 1;
            }
            let start = k - 1;
            let ghost errors_before = self.errors@;
            let ghost messages_before = self.messages@;
            name_outcome_exec(s, start, e2, self.line, column2, tl, tc, &mut self.tokens, &mut self.errors);
            proof {
                let added = name_messages(s@.subrange(start as int, e2 as int));
                self.messages@ = messages_before + added;
                assert forall|j: int| 0 <= j < self.errors@.len() implies
                    (#[trigger] self.messages@[j] matches Some(m) ==> self.errors@[j].message@ == m) by {
                    if j < errors_before.len() {
                        assert(self.errors@[j] == errors_before[j]);
                        assert(self.messages@[j] == messages_before[j]);
                    } else {
                        assert(self.messages@[j] == added[j - errors_before.len()]);
                    }
                }
            }
            self.i = e2;
            self.column = column2;
            assert(self.state() == lex_step(s@, st)->Some_0);
        } else if c == '-' {
            self.pend = true;
            assert(self.state() == lex_step(s@, st)->Some_0);
        } else if c == '0' {
            self.pending = false;
            if k < s.len() {
                let p = s[k];
                if p == 'x' || p == 'X' || p == 'h' || p == 'H' || p == 'b' || p == 'B' || p == 'o' || p == 'O' {
                    self.i = k + 1;
                    self.column = self.column + 1;
                    if k + 1 < s.len() {
                        let message = if p == 'x' || p == 'X' || p == 'h' || p == 'H' {
                            String::from_str("Expected value digits after hexadecimal start sequence")
                        } else if p == 'b' || p == 'B' {
                            String::from_str("Expected value digits after binary start sequence")
                        } else {
                            String::from_str("Expected value digits after octal start sequence")
                        };
                        self.push_error(message, tl, tc, Ghost(Some(prefix_message(p))));
                    }
                    assert(self.state() == lex_step(s@, st)->Some_0);
                } else {
                    let (end, column2, err, value) = number_run_exec(s, k, NumberLexState::Integer, Vec::new(), self.line, self.column);
                    self.i = end;
                    self.column = column2;
                    match err {
                        Some((l, col, after_dot)) => {
                            let message = if after_dot {
                                String::from_str("Expected a numeric digit after dot in float immediate")
                            } else {
                                String::from_str("Expected a numeric digit e in float immediate")
                            };
                            self.push_error(message, l, col, Ghost(Some(number_message(after_dot))));
                            assert(self.state() == lex_step(s@, st)->Some_0);
                        },
                        None => {
                            let ghost digits = value@;
                            let ghost before = self.state().tokens;
                            let text = chars_to_string(value);
                            self.tokens.push(Token { t: TokenType::Number, line: tl, column: tc, value: Some(text) });
                            assert(self.state().tokens =~= before.push((TokenType::Number, tl as int, tc as int, Some(digits))));
                            assert(self.state() == lex_step(s@, st)->Some_0);
                        },
                    }
                }
            }
        } else if c == '/' {
            if k >= s.len() {
                self.push_error(unexpected_message(c), tl, tc, Ghost(Some(unexpected_text(c))));
            } else if s[k] == '*' || s[k] == '/' {
                let j = if k + 1 < s.len() { k + 2 } else { k + 1 };
                let end = if s[k] == '*' { block_end_exec(s, j) } else { line_end_exec(s, j) };
                self.i = end;
                self.push_token(TokenType::Comment, tl, tc);
                assert(self.state() == lex_step(s@, st)->Some_0);
            } else {
                self.i = k + 1;
                self.push_error(unexpected_message(c), tl, tc, Ghost(Some(unexpected_text(c))));
                assert(self.state() == lex_step(s@, st)->Some_0);
            }
        } else {
            self.push_error(unexpected_message(c), tl, tc, Ghost(Some(unexpected_text(c))));
            assert(self.state() == lex_step(s@, st)->Some_0);
        }
    }
}

/// `Unexpected character '` followed by `c` and `'`.
fn unexpected_message(c: char) -> (r: String)
    ensures
        r@ == "Unexpected character '"@ + seq![c] + "'"@,
{
    let chars = vec![c];
    assert(chars@ =~= seq![c]);
    let text = chars_to_string(chars);
    name_message("Unexpected character '", text.as_str(), "'")
}

/// The tokens of shader assembly source, or the errors met on the way: each with the line
/// and column where it starts (both from 1), and each error with its message wherever
/// `spec_lex` states one. See `spec_lex` for what each character gives;
/// the text must not hold a number starting with 1 to 9, nor a `0x`, `0h`, `0b` or `0o`
/// prefix followed by one of its digits, on which the lexer stops or never finishes.
pub fn run_lexer(input: &str) -> (r: Result<Vec<Token>, Vec<SourceError>>)
    requires
        input@.len() <= isize::MAX,
        spec_lex(input@) is Some,
    ensures
        ({
            let fin = spec_lex(input@)->Some_0;
            match r {
                Ok(tokens) => fin.errors.len() == 0 && tokens@.map_values(|t: Token| token_view(t)) == fin.tokens,
                Err(errors) => {
                    &&& fin.errors.len() > 0
                    &&& errors@.map_values(|e: SourceError| error_view(e)) == fin.errors
                    &&& forall|j: int| 0 <= j < errors@.len() ==> (#[trigger] fin.messages[j] matches Some(m) ==> errors@[j].message@ == m)
                },
            }
        }),
{
    let s = crate::text::str_chars(input);
    let mut lexer = Lexer {
        i: 0, line: 1, column: 1, pending: false, pend: false, tokens: Vec::new(), errors: Vec::new(), messages: Ghost(Seq::empty()),
    };
    assert(lexer.state().tokens =~= Seq::<(TokenType, int, int, Option<Seq<char>>)>::empty());
    assert(lexer.state().errors =~= Seq::<(int, int)>::empty());
    assert(lexer.state() == lex_start());
    while lexer.i < s.len()
        invariant
            lexer.inv(s@.len() as int),
            s@ == input@,
            s@.len() <= isize::MAX,
            spec_lex(s@) is Some,
            lex_from(s@, lexer.state()) == spec_lex(s@),
        decreases s@.len() - lexer.i,
    {
        lexer.step(&s);
    }
    if lexer.errors.len() != 0 {
        Err(lexer.errors)
    } else {
        Ok(lexer.tokens)
    }
}

} // verus!
