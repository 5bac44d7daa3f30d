//! Encoders of shader bytecode: each appends one instruction to the code being assembled, in
//! the format the GPU's shader parser reads.

use vstd::prelude::*;
use super::lexer::{AssemblyMode, Comparison, InstructionType, OpDataType, RegisterName, ScalarBuiltin, Token, VectorBuiltin};
use super::src_error::SourceError;
use crate::text::str_chars;

verus! {

/// Register file byte of a local register.
pub const REGTYPE_LOCAL: u8 = 0x00;
/// Register file byte of an input register.
pub const REGTYPE_INPUT: u8 = 0x01;
/// Register file byte of an output register.
pub const REGTYPE_OUTPUT: u8 = 0x02;
/// Register file byte of a constant register.
pub const REGTYPE_CONSTANT: u8 = 0x03;
/// Register file byte of an absent register.
pub const REGTYPE_NONE: u8 = 0xFF;

/// The register file byte and register number a register is encoded with in `mode`, if it
/// can be named there. Inputs and outputs are numbered after the 16 built-in slots.
pub open spec fn spec_reg_encoding(r: RegisterName, mode: AssemblyMode) -> Option<(u8, int)> {
    match r {
        RegisterName::LocalS(x) | RegisterName::LocalV(x) => Some((REGTYPE_LOCAL, x as int)),
        RegisterName::ConstantS(x) | RegisterName::ConstantV(x) => Some((REGTYPE_CONSTANT, x as int)),
        RegisterName::InputS(x) | RegisterName::InputV(x) => Some((REGTYPE_INPUT, x + 0x10)),
        RegisterName::OutputS(x) | RegisterName::OutputV(x) => Some((REGTYPE_OUTPUT, x + 0x10)),
        RegisterName::BuiltinS(b) => match (mode, b) {
            (AssemblyMode::Vertex, ScalarBuiltin::VertexId) => Some((REGTYPE_INPUT, 0)),
            (AssemblyMode::Vertex, ScalarBuiltin::ProvokingVertex) => Some((REGTYPE_INPUT, 1)),
            (AssemblyMode::Vertex, ScalarBuiltin::Discard) => Some((REGTYPE_OUTPUT, 0)),
            (AssemblyMode::Fragment, ScalarBuiltin::Discard) => Some((REGTYPE_OUTPUT, 0)),
            (AssemblyMode::Fragment, ScalarBuiltin::Depth) => Some((REGTYPE_OUTPUT, 1)),
            _ => None,
        },
        RegisterName::BuiltinV(b) => match (mode, b) {
            (AssemblyMode::Vertex, VectorBuiltin::VertexPosition) => Some((REGTYPE_OUTPUT, 0)),
            (AssemblyMode::Fragment, VectorBuiltin::VertexPosition) => Some((REGTYPE_INPUT, 0)),
            (AssemblyMode::Fragment, VectorBuiltin::Barycentric) => Some((REGTYPE_INPUT, 1)),
            (AssemblyMode::Fragment, VectorBuiltin::Linear) => Some((REGTYPE_INPUT, 2)),
            (AssemblyMode::Fragment, VectorBuiltin::VertexIds) => Some((REGTYPE_INPUT, 3)),
            _ => None,
        },
    }
}

/// Whether `r` can be encoded in `mode`: it names a register there, with a number below 256.
pub open spec fn spec_reg_legal(r: RegisterName, mode: AssemblyMode) -> bool {
    match spec_reg_encoding(r, mode) {
        Some((_, n)) => 0 <= n <= 0xFF,
        None => false,
    }
}

/// The two bytes of a register: its file, then its number.
pub open spec fn spec_reg_bytes(r: RegisterName, mode: AssemblyMode) -> Seq<u8> {
    let e = spec_reg_encoding(r, mode).unwrap();
    seq![e.0, e.1 as u8]
}

/// Appends the encoding of register `r`.
pub fn write_register(bytes: &mut Vec<u8>, r: RegisterName, assembly_mode: AssemblyMode)
    requires
        spec_reg_legal(r, assembly_mode),
    ensures
        final(bytes)@ == old(bytes)@ + spec_reg_bytes(r, assembly_mode),
{
    let (regnum, regtype): (u8, u8) = match r {
        RegisterName::LocalS(x) | RegisterName::LocalV(x) => (x, REGTYPE_LOCAL),
        RegisterName::ConstantS(x) | RegisterName::ConstantV(x) => (x, REGTYPE_CONSTANT),
        RegisterName::InputS(x) | RegisterName::InputV(x) => (x + 0x10, REGTYPE_INPUT),
        RegisterName::OutputS(x) | RegisterName::OutputV(x) => (x + 0x10, REGTYPE_OUTPUT),
        RegisterName::BuiltinS(b) => match (assembly_mode, b) {
            (AssemblyMode::Vertex, ScalarBuiltin::VertexId) => (0x00, REGTYPE_INPUT),
            (AssemblyMode::Vertex, ScalarBuiltin::ProvokingVertex) => (0x01, REGTYPE_INPUT),
            (AssemblyMode::Vertex, ScalarBuiltin::Discard) => (0x00, REGTYPE_OUTPUT),
            (AssemblyMode::Fragment, ScalarBuiltin::Discard) => (0x00, REGTYPE_OUTPUT),
            _ => (0x01, REGTYPE_OUTPUT),
        },
        RegisterName::BuiltinV(b) => match (assembly_mode, b) {
            (AssemblyMode::Vertex, VectorBuiltin::VertexPosition) => (0x00, REGTYPE_OUTPUT),
            (AssemblyMode::Fragment, VectorBuiltin::VertexPosition) => (0x00, REGTYPE_INPUT),
            (AssemblyMode::Fragment, VectorBuiltin::Barycentric) => (0x01, REGTYPE_INPUT),
            (AssemblyMode::Fragment, VectorBuiltin::Linear) => (0x02, REGTYPE_INPUT),
            _ => (0x03, REGTYPE_INPUT),
        },
    };
    bytes.push(regtype);
    bytes.push(regnum);
    proof { assert(final(bytes)@ =~= old(bytes)@ + spec_reg_bytes(r, assembly_mode)); }
}

/// Appends an absent register: the file byte 0xFF and a zero.
pub fn write_none(bytes: &mut Vec<u8>)
    ensures
        final(bytes)@ == old(bytes)@ + seq![REGTYPE_NONE, 0u8],
{
    bytes.push(REGTYPE_NONE);
    bytes.push(0x00);
    proof { assert(final(bytes)@ =~= old(bytes)@ + seq![REGTYPE_NONE, 0u8]); }
}

/// Appends a 32-bit value, least significant byte first.
pub fn write_offset_u32(bytes: &mut Vec<u8>, offset: u32)
    ensures
        final(bytes)@ == old(bytes)@ + crate::sdk::command_list::spec_u32_bytes(offset),
{
    let b = crate::sdk::command_list::command_u32_bytes(offset);
    bytes.push(b[0]);
    bytes.push(b[1]);
    bytes.push(b[2]);
    bytes.push(b[3]);
    proof { assert(final(bytes)@ =~= old(bytes)@ + crate::sdk::command_list::spec_u32_bytes(offset)); }
}

/// An error reported at `token`.
fn error_at(message: &str, token: &Token) -> (r: SourceError)
    ensures
        r.line == token.line,
        r.column == token.column,
{
    SourceError { message: String::from_str(message), line: token.line, column: token.column }
}

/// The text of a token, or nothing.
pub open spec fn spec_token_text(t: &Token) -> Seq<char> {
    match t.value {
        Some(s) => s@,
        None => Seq::empty(),
    }
}

/// The channel byte a component name stands for: x or r 0, y or g 1, z or b 2, w or a 3.
pub open spec fn spec_component(text: Seq<char>) -> Option<u8> {
    if text == seq!['x'] || text == seq!['r'] {
        Some(0u8)
    } else if text == seq!['y'] || text == seq!['g'] {
        Some(1u8)
    } else if text == seq!['z'] || text == seq!['b'] {
        Some(2u8)
    } else if text == seq!['w'] || text == seq!['a'] {
        Some(3u8)
    } else {
        None
    }
}

/// The channel byte of a component token; an error at the token if it names none.
fn component_from_token(t: &Token) -> (r: Result<u8, SourceError>)
    ensures
        match spec_component(spec_token_text(t)) {
            Some(c) => r == Ok::<u8, SourceError>(c),
            None => r is Err && r->Err_0.line == t.line && r->Err_0.column == t.column,
        },
{
    let chars: Vec<char> = match &t.value {
        Some(s) => str_chars(s.as_str()),
        None => Vec::new(),
    };
    proof {
        assert(chars@ == spec_token_text(t));
    }
    if chars.len() == 1 {
        let c = chars[0];
        proof {
            assert(chars@ =~= seq![c]);
            assert(forall|d: char| seq![c] == seq![d] ==> c == d) by {
                assert forall|d: char| seq![c] == seq![d] implies c == d by {
                    assert(seq![c][0] == seq![d][0]);
                }
            }
        }
        if c == 'x' || c == 'r' {
            return Ok(0);
        } else if c == 'y' || c == 'g' {
            return Ok(1);
        } else if c == 'z' || c == 'b' {
            return Ok(2);
        } else if c == 'w' || c == 'a' {
            return Ok(3);
        }
    }
    Err(error_at("Expected component name", t))
}

/// The name of a register kind in messages.
fn bool_to_type_name(x: bool) -> (r: &'static str)
    ensures
        r@ == (if x { "vector"@ } else { "scalar"@ }),
{
    if x {
        "vector"
    } else {
        "scalar"
    }
}

/// The `{:?}` text of an instruction mnemonic (`format!`).
#[verifier::external_body]
fn debug_text(op: InstructionType) -> String {
    format!("{:?}", op)
}

/// What `write_push` appends to `before`, giving `after`, and what it returns.
pub open spec fn spec_push_written(before: Seq<u8>, after: Seq<u8>, r: Result<(), SourceError>, src: RegisterName, assembly_mode: AssemblyMode) -> bool {
    &&& (r is Ok)
    &&& (after == before + seq![if src.spec_is_vector() { 0x00u8 } else { 0x01u8 }] + spec_reg_bytes(src, assembly_mode))
}

/// Appends a push: opcode 0x00 for a vector register, 0x01 for a scalar one, then the register.
pub fn write_push(bytes: &mut Vec<u8>, src: RegisterName, _src_token: &Token, assembly_mode: AssemblyMode) -> (r: Result<(), SourceError>)
    requires
        spec_reg_legal(src, assembly_mode),
    ensures
        spec_push_written(old(bytes)@, final(bytes)@, r, src, assembly_mode),
{
    bytes.push(if src.is_vector() { 0x00 } else { 0x01 });
    write_register(bytes, src, assembly_mode);
    proof {
        assert(bytes@ =~= old(bytes)@ + seq![if src.spec_is_vector() { 0x00u8 } else { 0x01u8 }] + spec_reg_bytes(src, assembly_mode));
    }
    Ok(())
}

/// What `write_pop` appends to `before`, giving `after`, and what it returns.
pub open spec fn spec_pop_written(before: Seq<u8>, after: Seq<u8>, r: Result<(), SourceError>, dst: RegisterName, assembly_mode: AssemblyMode) -> bool {
    &&& (r is Ok)
    &&& (after == before + seq![if dst.spec_is_vector() { 0x02u8 } else { 0x03u8 }] + spec_reg_bytes(dst, assembly_mode))
}

/// Appends a pop: opcode 0x02 for a vector register, 0x03 for a scalar one, then the register.
pub fn write_pop(bytes: &mut Vec<u8>, dst: RegisterName, _dst_token: &Token, assembly_mode: AssemblyMode) -> (r: Result<(), SourceError>)
    requires
        spec_reg_legal(dst, assembly_mode),
    ensures
        spec_pop_written(old(bytes)@, final(bytes)@, r, dst, assembly_mode),
{
    bytes.push(if dst.is_vector() { 0x02 } else { 0x03 });
    write_register(bytes, dst, assembly_mode);
    proof {
        assert(bytes@ =~= old(bytes)@ + seq![if dst.spec_is_vector() { 0x02u8 } else { 0x03u8 }] + spec_reg_bytes(dst, assembly_mode));
    }
    Ok(())
}

/// Opcode of a two-operand instruction whose operands are all vector registers.
pub open spec fn spec_binary_opcode_first(op: InstructionType) -> Option<u8> {
    match op {
        InstructionType::Add(OpDataType::F32) => Some(0x13u8),
        InstructionType::Add(OpDataType::I32) => Some(0x18u8),
        InstructionType::Sub(OpDataType::F32) => Some(0x14u8),
        InstructionType::Sub(OpDataType::I32) => Some(0x19u8),
        InstructionType::Mul(OpDataType::F32) => Some(0x15u8),
        InstructionType::Mul(OpDataType::I32) => Some(0x1Au8),
        InstructionType::Div(OpDataType::F32) => Some(0x16u8),
        InstructionType::Div(OpDataType::I32) => Some(0x1Bu8),
        InstructionType::Mod(OpDataType::F32) => Some(0x17u8),
        InstructionType::Mod(OpDataType::I32) => Some(0x1Cu8),
        InstructionType::Atan2 => Some(0x49u8),
        InstructionType::And => Some(0x4Au8),
        InstructionType::AndN => Some(0x4Bu8),
        InstructionType::Or => Some(0x4Cu8),
        InstructionType::Xor => Some(0x4Du8),
        _ => None,
    }
}

/// Opcode of a two-operand instruction whose operands are all vector registers.
fn binary_opcode_first(op: InstructionType) -> (r: Option<u8>)
    ensures
        r == spec_binary_opcode_first(op),
{
    match op {
        InstructionType::Add(OpDataType::F32) => Some(0x13u8),
        InstructionType::Add(OpDataType::I32) => Some(0x18u8),
        InstructionType::Sub(OpDataType::F32) => Some(0x14u8),
        InstructionType::Sub(OpDataType::I32) => Some(0x19u8),
        InstructionType::Mul(OpDataType::F32) => Some(0x15u8),
        InstructionType::Mul(OpDataType::I32) => Some(0x1Au8),
        InstructionType::Div(OpDataType::F32) => Some(0x16u8),
        InstructionType::Div(OpDataType::I32) => Some(0x1Bu8),
        InstructionType::Mod(OpDataType::F32) => Some(0x17u8),
        InstructionType::Mod(OpDataType::I32) => Some(0x1Cu8),
        InstructionType::Atan2 => Some(0x49u8),
        InstructionType::And => Some(0x4Au8),
        InstructionType::AndN => Some(0x4Bu8),
        InstructionType::Or => Some(0x4Cu8),
        InstructionType::Xor => Some(0x4Du8),
        _ => None,
    }
}

/// Opcode of a two-operand instruction whose operands are all scalar registers.
pub open spec fn spec_binary_opcode_second(op: InstructionType) -> Option<u8> {
    match op {
        InstructionType::Add(OpDataType::F32) => Some(0x1Du8),
        InstructionType::Add(OpDataType::I32) => Some(0x22u8),
        InstructionType::Sub(OpDataType::F32) => Some(0x1Eu8),
        InstructionType::Sub(OpDataType::I32) => Some(0x23u8),
        InstructionType::Mul(OpDataType::F32) => Some(0x1Fu8),
        InstructionType::Mul(OpDataType::I32) => Some(0x24u8),
        InstructionType::Div(OpDataType::F32) => Some(0x20u8),
        InstructionType::Div(OpDataType::I32) => Some(0x25u8),
        InstructionType::Mod(OpDataType::F32) => Some(0x21u8),
        InstructionType::Mod(OpDataType::I32) => Some(0x26u8),
        InstructionType::Atan2 => Some(0x4Eu8),
        InstructionType::And => Some(0x4Fu8),
        InstructionType::AndN => Some(0x50u8),
        InstructionType::Or => Some(0x51u8),
        InstructionType::Xor => Some(0x52u8),
        InstructionType::Cross => Some(0x5Cu8),
        _ => None,
    }
}

/// Opcode of a two-operand instruction whose operands are all scalar registers.
fn binary_opcode_second(op: InstructionType) -> (r: Option<u8>)
    ensures
        r == spec_binary_opcode_second(op),
{
    match op {
        InstructionType::Add(OpDataType::F32) => Some(0x1Du8),
        InstructionType::Add(OpDataType::I32) => Some(0x22u8),
        InstructionType::Sub(OpDataType::F32) => Some(0x1Eu8),
        InstructionType::Sub(OpDataType::I32) => Some(0x23u8),
        InstructionType::Mul(OpDataType::F32) => Some(0x1Fu8),
        InstructionType::Mul(OpDataType::I32) => Some(0x24u8),
        InstructionType::Div(OpDataType::F32) => Some(0x20u8),
        InstructionType::Div(OpDataType::I32) => Some(0x25u8),
        InstructionType::Mod(OpDataType::F32) => Some(0x21u8),
        InstructionType::Mod(OpDataType::I32) => Some(0x26u8),
        InstructionType::Atan2 => Some(0x4Eu8),
        InstructionType::And => Some(0x4Fu8),
        InstructionType::AndN => Some(0x50u8),
        InstructionType::Or => Some(0x51u8),
        InstructionType::Xor => Some(0x52u8),
        InstructionType::Cross => Some(0x5Cu8),
        _ => None,
    }
}

/// Opcode of a one-operand instruction on scalar registers.
pub open spec fn spec_unary_opcode_scalar(op: InstructionType) -> Option<u8> {
    match op {
        InstructionType::ConvertF32ToI32 => Some(0x27u8),
        InstructionType::ConvertF32ToU32 => Some(0x28u8),
        InstructionType::ConvertI32ToF32 => Some(0x2Au8),
        InstructionType::ConvertU32ToF32 => Some(0x29u8),
        InstructionType::Neg(OpDataType::F32) => Some(0x2Bu8),
        InstructionType::Neg(OpDataType::I32) => Some(0x2Cu8),
        InstructionType::Sign(OpDataType::F32) => Some(0x2Du8),
        InstructionType::Sign(OpDataType::I32) => Some(0x2Eu8),
        InstructionType::Recip => Some(0x2Fu8),
        InstructionType::Sin => Some(0x30u8),
        InstructionType::Cos => Some(0x31u8),
        InstructionType::Tan => Some(0x32u8),
        InstructionType::ASin => Some(0x33u8),
        InstructionType::ACos => Some(0x34u8),
        InstructionType::Atan => Some(0x35u8),
        InstructionType::Ln => Some(0x36u8),
        InstructionType::Exp => Some(0x37u8),
        _ => None,
    }
}

/// Opcode of a one-operand instruction on scalar registers.
fn unary_opcode_scalar(op: InstructionType) -> (r: Option<u8>)
    ensures
        r == spec_unary_opcode_scalar(op),
{
    match op {
        InstructionType::ConvertF32ToI32 => Some(0x27u8),
        InstructionType::ConvertF32ToU32 => Some(0x28u8),
        InstructionType::ConvertI32ToF32 => Some(0x2Au8),
        InstructionType::ConvertU32ToF32 => Some(0x29u8),
        InstructionType::Neg(OpDataType::F32) => Some(0x2Bu8),
        InstructionType::Neg(OpDataType::I32) => Some(0x2Cu8),
        InstructionType::Sign(OpDataType::F32) => Some(0x2Du8),
        InstructionType::Sign(OpDataType::I32) => Some(0x2Eu8),
        InstructionType::Recip => Some(0x2Fu8),
        InstructionType::Sin => Some(0x30u8),
        InstructionType::Cos => Some(0x31u8),
        InstructionType::Tan => Some(0x32u8),
        InstructionType::ASin => Some(0x33u8),
        InstructionType::ACos => Some(0x34u8),
        InstructionType::Atan => Some(0x35u8),
        InstructionType::Ln => Some(0x36u8),
        InstructionType::Exp => Some(0x37u8),
        _ => None,
    }
}

/// Opcode of a one-operand instruction on vector registers.
pub open spec fn spec_unary_opcode_vector(op: InstructionType) -> Option<u8> {
    match op {
        InstructionType::ConvertF32ToI32 => Some(0x38u8),
        InstructionType::ConvertF32ToU32 => Some(0x39u8),
        InstructionType::ConvertI32ToF32 => Some(0x3Bu8),
        InstructionType::ConvertU32ToF32 => Some(0x3Au8),
        InstructionType::Neg(OpDataType::F32) => Some(0x3Cu8),
        InstructionType::Neg(OpDataType::I32) => Some(0x3Du8),
        InstructionType::Sign(OpDataType::F32) => Some(0x3Eu8),
        InstructionType::Sign(OpDataType::I32) => Some(0x3Fu8),
        InstructionType::Recip => Some(0x40u8),
        InstructionType::Sin => Some(0x41u8),
        InstructionType::Cos => Some(0x42u8),
        InstructionType::Tan => Some(0x43u8),
        InstructionType::ASin => Some(0x44u8),
        InstructionType::ACos => Some(0x45u8),
        InstructionType::Atan => Some(0x46u8),
        InstructionType::Ln => Some(0x47u8),
        InstructionType::Exp => Some(0x48u8),
        InstructionType::Norm2 => Some(0x53u8),
        InstructionType::Norm3 => Some(0x54u8),
        InstructionType::Norm4 => Some(0x55u8),
        _ => None,
    }
}

/// Opcode of a one-operand instruction on vector registers.
fn unary_opcode_vector(op: InstructionType) -> (r: Option<u8>)
    ensures
        r == spec_unary_opcode_vector(op),
{
    match op {
        InstructionType::ConvertF32ToI32 => Some(0x38u8),
        InstructionType::ConvertF32ToU32 => Some(0x39u8),
        InstructionType::ConvertI32ToF32 => Some(0x3Bu8),
        InstructionType::ConvertU32ToF32 => Some(0x3Au8),
        InstructionType::Neg(OpDataType::F32) => Some(0x3Cu8),
        InstructionType::Neg(OpDataType::I32) => Some(0x3Du8),
        InstructionType::Sign(OpDataType::F32) => Some(0x3Eu8),
        InstructionType::Sign(OpDataType::I32) => Some(0x3Fu8),
        InstructionType::Recip => Some(0x40u8),
        InstructionType::Sin => Some(0x41u8),
        InstructionType::Cos => Some(0x42u8),
        InstructionType::Tan => Some(0x43u8),
        InstructionType::ASin => Some(0x44u8),
        InstructionType::ACos => Some(0x45u8),
        InstructionType::Atan => Some(0x46u8),
        InstructionType::Ln => Some(0x47u8),
        InstructionType::Exp => Some(0x48u8),
        InstructionType::Norm2 => Some(0x53u8),
        InstructionType::Norm3 => Some(0x54u8),
        InstructionType::Norm4 => Some(0x55u8),
        _ => None,
    }
}

/// Opcode of an instruction from a vector register to a scalar one.
pub open spec fn spec_unary_opcode_vector_to_scalar(op: InstructionType) -> Option<u8> {
    match op {
        InstructionType::Mag2 => Some(0x56u8),
        InstructionType::Mag3 => Some(0x57u8),
        InstructionType::Mag4 => Some(0x58u8),
        InstructionType::SqMag2 => Some(0x59u8),
        InstructionType::SqMag3 => Some(0x5Au8),
        InstructionType::SqMag4 => Some(0x5Bu8),
        _ => None,
    }
}

/// Opcode of an instruction from a vector register to a scalar one.
fn unary_opcode_vector_to_scalar(op: InstructionType) -> (r: Option<u8>)
    ensures
        r == spec_unary_opcode_vector_to_scalar(op),
{
    match op {
        InstructionType::Mag2 => Some(0x56u8),
        InstructionType::Mag3 => Some(0x57u8),
        InstructionType::Mag4 => Some(0x58u8),
        InstructionType::SqMag2 => Some(0x59u8),
        InstructionType::SqMag3 => Some(0x5Au8),
        InstructionType::SqMag4 => Some(0x5Bu8),
        _ => None,
    }
}

/// Whether `op` is one of the two-operand instructions.
pub open spec fn spec_is_binary(op: InstructionType) -> bool {
    match op {
        InstructionType::Add(_) | InstructionType::Sub(_) | InstructionType::Mul(_) | InstructionType::Div(_) | InstructionType::Mod(_) | InstructionType::Atan2 | InstructionType::And | InstructionType::AndN | InstructionType::Or | InstructionType::Xor | InstructionType::Cross => true,
        _ => false,
    }
}

/// What `write_mov` appends to `before`, giving `after`, and what it returns.
pub open spec fn spec_mov_written(before: Seq<u8>, after: Seq<u8>, r: Result<(), SourceError>, mov_token: &Token, dst: RegisterName, dst_component: Option<&Token>, src: RegisterName, src_component: Option<&Token>, assembly_mode: AssemblyMode) -> bool {
    &&& (r is Err ==> after == before)
    &&& (match (dst.spec_is_vector(), dst_component, src.spec_is_vector(), src_component) {
                (true, None, true, None) => r is Ok && after == before + seq![0x04u8] + spec_reg_bytes(dst, assembly_mode) + spec_reg_bytes(src, assembly_mode),
                (false, None, false, None) => r is Ok && after == before + seq![0x05u8] + spec_reg_bytes(dst, assembly_mode) + spec_reg_bytes(src, assembly_mode),
                (false, None, true, Some(t)) => match spec_component(spec_token_text(t)) {
                    Some(ch) => r is Ok && after == before + seq![0x06u8] + spec_reg_bytes(dst, assembly_mode) + spec_reg_bytes(src, assembly_mode) + seq![ch],
                    None => spec_error_at(r, *t),
                },
                (true, Some(t), false, None) => match spec_component(spec_token_text(t)) {
                    Some(ch) => r is Ok && after == before + seq![0x07u8] + spec_reg_bytes(dst, assembly_mode) + seq![ch] + spec_reg_bytes(src, assembly_mode),
                    None => spec_error_at(r, *t),
                },
                (false, None, true, None) | (true, None, false, None) => spec_error_at(r, *mov_token),
                (false, Some(t), _, _) => spec_error_at(r, *t),
                (_, _, false, Some(t)) => spec_error_at(r, *t),
                (true, Some(t), true, _) => spec_error_at(r, *t),
                (true, _, true, Some(t)) => spec_error_at(r, *t),
            })
}

/// Whether `op` is one of the one-operand instructions.
pub open spec fn spec_is_unary(op: InstructionType) -> bool {
    match op {
        InstructionType::ConvertF32ToI32 | InstructionType::ConvertF32ToU32 | InstructionType::ConvertI32ToF32 | InstructionType::ConvertU32ToF32 | InstructionType::Neg(_) | InstructionType::Sign(_) | InstructionType::Recip | InstructionType::Sin | InstructionType::Cos | InstructionType::Tan | InstructionType::ASin | InstructionType::ACos | InstructionType::Atan | InstructionType::Ln | InstructionType::Exp | InstructionType::Norm2 | InstructionType::Norm3 | InstructionType::Norm4 | InstructionType::Mag2 | InstructionType::Mag3 | InstructionType::Mag4 | InstructionType::SqMag2 | InstructionType::SqMag3 | InstructionType::SqMag4 => true,
        _ => false,
    }
}
/// Appends a move: plain copies (0x04 vector, 0x05 scalar), a vector component
/// to a scalar (0x06: dst, src, channel), a scalar to a vector component (0x07: dst,
/// channel, src). Operands of kinds or components that do not fit are an error, and nothing
/// is appended then.
pub fn write_mov(bytes: &mut Vec<u8>, mov_token: &Token, dst: RegisterName, dst_component: Option<&Token>, src: RegisterName, src_component: Option<&Token>, assembly_mode: AssemblyMode) -> (r: Result<(), SourceError>)
    requires
        spec_reg_legal(dst, assembly_mode),
        spec_reg_legal(src, assembly_mode),
    ensures
        spec_mov_written(old(bytes)@, final(bytes)@, r, mov_token, dst, dst_component, src, src_component, assembly_mode),
{
    let ghost before = bytes@;
    match (dst.is_vector(), dst_component, src.is_vector(), src_component) {
        (true, None, true, None) => {
            bytes.push(0x04);
            write_register(bytes, dst, assembly_mode);
            write_register(bytes, src, assembly_mode);
            proof { assert(bytes@ =~= before + seq![0x04u8] + spec_reg_bytes(dst, assembly_mode) + spec_reg_bytes(src, assembly_mode)); }
            Ok(())
        },
        (false, None, false, None) => {
            bytes.push(0x05);
            write_register(bytes, dst, assembly_mode);
            write_register(bytes, src, assembly_mode);
            proof { assert(bytes@ =~= before + seq![0x05u8] + spec_reg_bytes(dst, assembly_mode) + spec_reg_bytes(src, assembly_mode)); }
            Ok(())
        },
        (false, None, true, Some(component)) => {
            let ch = match component_from_token(component) {
                Ok(c) => c,
                Err(e) => { return Err(e); },
            };
            bytes.push(0x06);
            write_register(bytes, dst, assembly_mode);
            write_register(bytes, src, assembly_mode);
            bytes.push(ch);
            proof { assert(bytes@ =~= before + seq![0x06u8] + spec_reg_bytes(dst, assembly_mode) + spec_reg_bytes(src, assembly_mode) + seq![ch]); }
            Ok(())
        },
        (true, Some(component), false, None) => {
            let ch = match component_from_token(component) {
                Ok(c) => c,
                Err(e) => { return Err(e); },
            };
            bytes.push(0x07);
            write_register(bytes, dst, assembly_mode);
            bytes.push(ch);
            write_register(bytes, src, assembly_mode);
            proof { assert(bytes@ =~= before + seq![0x07u8] + spec_reg_bytes(dst, assembly_mode) + seq![ch] + spec_reg_bytes(src, assembly_mode)); }
            Ok(())
        },
        (false, None, true, None) | (true, None, false, None) => {
            Err(error_at("Type mismatch between dst and src", mov_token))
        },
        (false, Some(component), _, _) | (_, _, false, Some(component)) => {
            Err(error_at("Scalar registers don't have components", component))
        },
        (true, Some(component), true, _) | (true, _, true, Some(component)) => {
            Err(error_at("No mov instruction exists for two vector components", component))
        },
    }
}

/// What `write_cmov` appends to `before`, giving `after`, and what it returns.
pub open spec fn spec_cmov_written(before: Seq<u8>, after: Seq<u8>, r: Result<(), SourceError>, mov_token: &Token, cond: RegisterName, dst: RegisterName, dst_component: Option<&Token>, src: RegisterName, src_component: Option<&Token>, assembly_mode: AssemblyMode) -> bool {
    &&& (r is Err ==> after == before)
    &&& (match (dst.spec_is_vector(), dst_component, src.spec_is_vector(), src_component) {
                (true, None, true, None) => r is Ok && after == before + seq![0x08u8] + spec_reg_bytes(cond, assembly_mode) + spec_reg_bytes(dst, assembly_mode) + spec_reg_bytes(src, assembly_mode),
                (false, None, false, None) => r is Ok && after == before + seq![0x09u8] + spec_reg_bytes(cond, assembly_mode) + spec_reg_bytes(dst, assembly_mode) + spec_reg_bytes(src, assembly_mode),
                (false, None, true, Some(t)) => match spec_component(spec_token_text(t)) {
                    Some(ch) => r is Ok && after == before + seq![0x0au8] + spec_reg_bytes(cond, assembly_mode) + spec_reg_bytes(dst, assembly_mode) + spec_reg_bytes(src, assembly_mode) + seq![ch],
                    None => spec_error_at(r, *t),
                },
                (true, Some(t), false, None) => match spec_component(spec_token_text(t)) {
                    Some(ch) => r is Ok && after == before + seq![0x0bu8] + spec_reg_bytes(cond, assembly_mode) + spec_reg_bytes(dst, assembly_mode) + seq![ch] + spec_reg_bytes(src, assembly_mode),
                    None => spec_error_at(r, *t),
                },
                (false, None, true, None) | (true, None, false, None) => spec_error_at(r, *mov_token),
                (false, Some(t), _, _) => spec_error_at(r, *t),
                (_, _, false, Some(t)) => spec_error_at(r, *t),
                (true, Some(t), true, _) => spec_error_at(r, *t),
                (true, _, true, Some(t)) => spec_error_at(r, *t),
            })
}

/// Appends a conditional move (the condition register follows the opcode): plain copies (0x08 vector, 0x09 scalar), a vector component
/// to a scalar (0x0a: dst, src, channel), a scalar to a vector component (0x0b: dst,
/// channel, src). Operands of kinds or components that do not fit are an error, and nothing
/// is appended then.
pub fn write_cmov(bytes: &mut Vec<u8>, mov_token: &Token, cond: RegisterName, dst: RegisterName, dst_component: Option<&Token>, src: RegisterName, src_component: Option<&Token>, assembly_mode: AssemblyMode) -> (r: Result<(), SourceError>)
    requires
        spec_reg_legal(cond, assembly_mode),
        spec_reg_legal(dst, assembly_mode),
        spec_reg_legal(src, assembly_mode),
    ensures
        spec_cmov_written(old(bytes)@, final(bytes)@, r, mov_token, cond, dst, dst_component, src, src_component, assembly_mode),
{
    let ghost before = bytes@;
    match (dst.is_vector(), dst_component, src.is_vector(), src_component) {
        (true, None, true, None) => {
            bytes.push(0x08);
            write_register(bytes, cond, assembly_mode);
            write_register(bytes, dst, assembly_mode);
            write_register(bytes, src, assembly_mode);
            proof { assert(bytes@ =~= before + seq![0x08u8] + spec_reg_bytes(cond, assembly_mode) + spec_reg_bytes(dst, assembly_mode) + spec_reg_bytes(src, assembly_mode)); }
            Ok(())
        },
        (false, None, false, None) => {
            bytes.push(0x09);
            write_register(bytes, cond, assembly_mode);
            write_register(bytes, dst, assembly_mode);
            write_register(bytes, src, assembly_mode);
            proof { assert(bytes@ =~= before + seq![0x09u8] + spec_reg_bytes(cond, assembly_mode) + spec_reg_bytes(dst, assembly_mode) + spec_reg_bytes(src, assembly_mode)); }
            Ok(())
        },
        (false, None, true, Some(component)) => {
            let ch = match component_from_token(component) {
                Ok(c) => c,
                Err(e) => { return Err(e); },
            };
            bytes.push(0x0a);
            write_register(bytes, cond, assembly_mode);
            write_register(bytes, dst, assembly_mode);
            write_register(bytes, src, assembly_mode);
            bytes.push(ch);
            proof { assert(bytes@ =~= before + seq![0x0au8] + spec_reg_bytes(cond, assembly_mode) + spec_reg_bytes(dst, assembly_mode) + spec_reg_bytes(src, assembly_mode) + seq![ch]); }
            Ok(())
        },
        (true, Some(component), false, None) => {
            let ch = match component_from_token(component) {
                Ok(c) => c,
                Err(e) => { return Err(e); },
            };
            bytes.push(0x0b);
            write_register(bytes, cond, assembly_mode);
            write_register(bytes, dst, assembly_mode);
            bytes.push(ch);
            write_register(bytes, src, assembly_mode);
            proof { assert(bytes@ =~= before + seq![0x0bu8] + spec_reg_bytes(cond, assembly_mode) + spec_reg_bytes(dst, assembly_mode) + seq![ch] + spec_reg_bytes(src, assembly_mode)); }
            Ok(())
        },
        (false, None, true, None) | (true, None, false, None) => {
            Err(error_at("Type mismatch between dst and src", mov_token))
        },
        (false, Some(component), _, _) | (_, _, false, Some(component)) => {
            Err(error_at("Scalar registers don't have components", component))
        },
        (true, Some(component), true, _) | (true, _, true, Some(component)) => {
            Err(error_at("No cmov instruction exists for two vector components", component))
        },
    }
}

/// Whether `r` is an error reported at `t`.
pub open spec fn spec_error_at(r: Result<(), SourceError>, t: Token) -> bool {
    r is Err && r->Err_0.line == t.line && r->Err_0.column == t.column
}

/// The byte a comparison is encoded with.
pub open spec fn spec_comparison_byte(c: Comparison) -> u8 {
    match c {
        Comparison::Eq => 0x00,
        Comparison::Neq => 0x01,
        Comparison::Lt => 0x02,
        Comparison::Lte => 0x03,
    }
}

/// The byte a comparison is encoded with.
fn comparison_byte(c: Comparison) -> (r: u8)
    ensures
        r == spec_comparison_byte(c),
{
    match c {
        Comparison::Eq => 0x00,
        Comparison::Neq => 0x01,
        Comparison::Lt => 0x02,
        Comparison::Lte => 0x03,
    }
}

/// The error for three operands of kinds that do not fit the instruction.
fn operand_types_error3(token: &Token, dst: RegisterName, a: RegisterName, b: RegisterName) -> (r: SourceError)
    ensures
        r.line == token.line,
        r.column == token.column,
{
    let mut message = String::from_str("Invalid operand types - dst: ");
    message.append(bool_to_type_name(dst.is_vector()));
    message.append(", a: ");
    message.append(bool_to_type_name(a.is_vector()));
    message.append(", b: ");
    message.append(bool_to_type_name(b.is_vector()));
    SourceError { message, line: token.line, column: token.column }
}

/// What `write_fcmp` appends to `before`, giving `after`, and what it returns.
pub open spec fn spec_fcmp_written(before: Seq<u8>, after: Seq<u8>, r: Result<(), SourceError>, cmp_token: &Token, dst: RegisterName, a: RegisterName, b: RegisterName, comparison: Comparison, assembly_mode: AssemblyMode) -> bool {
    &&& (({
                let all_v = a.spec_is_vector() && b.spec_is_vector() && dst.spec_is_vector();
                let all_s = !a.spec_is_vector() && !b.spec_is_vector() && !dst.spec_is_vector();
                &&& (all_v || all_s) ==> r is Ok && after == before + seq![if all_v { 0x0du8 } else { 0x0cu8 }]
                    + spec_reg_bytes(dst, assembly_mode) + spec_reg_bytes(a, assembly_mode) + spec_reg_bytes(b, assembly_mode)
                    + seq![spec_comparison_byte(comparison)]
                &&& !(all_v || all_s) ==> spec_error_at(r, *cmp_token) && after == before
            }))
}

/// Appends a floating-point compare: opcode 0x0c on scalar registers or 0x0d on vector ones,
/// then dst, a, b and the comparison byte. Operands of mixed kinds are an error at the
/// instruction, and nothing is appended then.
pub fn write_fcmp(bytes: &mut Vec<u8>, cmp_token: &Token, dst: RegisterName, a: RegisterName, b: RegisterName, comparison: Comparison, assembly_mode: AssemblyMode) -> (r: Result<(), SourceError>)
    requires
        spec_reg_legal(dst, assembly_mode),
        spec_reg_legal(a, assembly_mode),
        spec_reg_legal(b, assembly_mode),
    ensures
        spec_fcmp_written(old(bytes)@, final(bytes)@, r, cmp_token, dst, a, b, comparison, assembly_mode),
{
    let opcode: u8 = match (a.is_vector(), b.is_vector(), dst.is_vector()) {
        (true, true, true) => 0x0d,
        (false, false, false) => 0x0c,
        _ => {
            return Err(operand_types_error3(cmp_token, dst, a, b));
        },
    };
    let ghost before = bytes@;
    bytes.push(opcode);
    write_register(bytes, dst, assembly_mode);
    write_register(bytes, a, assembly_mode);
    write_register(bytes, b, assembly_mode);
    bytes.push(comparison_byte(comparison));
    proof {
        assert(bytes@ =~= before + seq![opcode] + spec_reg_bytes(dst, assembly_mode) + spec_reg_bytes(a, assembly_mode)
            + spec_reg_bytes(b, assembly_mode) + seq![spec_comparison_byte(comparison)]);
    }
    Ok(())
}

/// What `write_cmp` appends to `before`, giving `after`, and what it returns.
pub open spec fn spec_cmp_written(before: Seq<u8>, after: Seq<u8>, r: Result<(), SourceError>, cmp_token: &Token, dst: RegisterName, a: RegisterName, b: RegisterName, comparison: Comparison, assembly_mode: AssemblyMode) -> bool {
    &&& (({
                let all_v = a.spec_is_vector() && b.spec_is_vector() && dst.spec_is_vector();
                let all_s = !a.spec_is_vector() && !b.spec_is_vector() && !dst.spec_is_vector();
                &&& (all_v || all_s) ==> r is Ok && after == before + seq![if all_v { 0x0fu8 } else { 0x0eu8 }]
                    + spec_reg_bytes(dst, assembly_mode) + spec_reg_bytes(a, assembly_mode) + spec_reg_bytes(b, assembly_mode)
                    + seq![spec_comparison_byte(comparison)]
                &&& !(all_v || all_s) ==> spec_error_at(r, *cmp_token) && after == before
            }))
}

/// Appends a signed integer compare: opcode 0x0e on scalar registers or 0x0f on vector ones,
/// then dst, a, b and the comparison byte. Operands of mixed kinds are an error at the
/// instruction, and nothing is appended then.
pub fn write_cmp(bytes: &mut Vec<u8>, cmp_token: &Token, dst: RegisterName, a: RegisterName, b: RegisterName, comparison: Comparison, assembly_mode: AssemblyMode) -> (r: Result<(), SourceError>)
    requires
        spec_reg_legal(dst, assembly_mode),
        spec_reg_legal(a, assembly_mode),
        spec_reg_legal(b, assembly_mode),
    ensures
        spec_cmp_written(old(bytes)@, final(bytes)@, r, cmp_token, dst, a, b, comparison, assembly_mode),
{
    let opcode: u8 = match (a.is_vector(), b.is_vector(), dst.is_vector()) {
        (true, true, true) => 0x0f,
        (false, false, false) => 0x0e,
        _ => {
            return Err(operand_types_error3(cmp_token, dst, a, b));
        },
    };
    let ghost before = bytes@;
    bytes.push(opcode);
    write_register(bytes, dst, assembly_mode);
    write_register(bytes, a, assembly_mode);
    write_register(bytes, b, assembly_mode);
    bytes.push(comparison_byte(comparison));
    proof {
        assert(bytes@ =~= before + seq![opcode] + spec_reg_bytes(dst, assembly_mode) + spec_reg_bytes(a, assembly_mode)
            + spec_reg_bytes(b, assembly_mode) + seq![spec_comparison_byte(comparison)]);
    }
    Ok(())
}

/// What `write_ucmp` appends to `before`, giving `after`, and what it returns.
pub open spec fn spec_ucmp_written(before: Seq<u8>, after: Seq<u8>, r: Result<(), SourceError>, cmp_token: &Token, dst: RegisterName, a: RegisterName, b: RegisterName, comparison: Comparison, assembly_mode: AssemblyMode) -> bool {
    &&& (({
                let all_v = a.spec_is_vector() && b.spec_is_vector() && dst.spec_is_vector();
                let all_s = !a.spec_is_vector() && !b.spec_is_vector() && !dst.spec_is_vector();
                &&& (all_v || all_s) ==> r is Ok && after == before + seq![if all_v { 0x11u8 } else { 0x10u8 }]
                    + spec_reg_bytes(dst, assembly_mode) + spec_reg_bytes(a, assembly_mode) + spec_reg_bytes(b, assembly_mode)
                    + seq![spec_comparison_byte(comparison)]
                &&& !(all_v || all_s) ==> spec_error_at(r, *cmp_token) && after == before
            }))
}

/// Appends an unsigned integer compare: opcode 0x10 on scalar registers or 0x11 on vector ones,
/// then dst, a, b and the comparison byte. Operands of mixed kinds are an error at the
/// instruction, and nothing is appended then.
pub fn write_ucmp(bytes: &mut Vec<u8>, cmp_token: &Token, dst: RegisterName, a: RegisterName, b: RegisterName, comparison: Comparison, assembly_mode: AssemblyMode) -> (r: Result<(), SourceError>)
    requires
        spec_reg_legal(dst, assembly_mode),
        spec_reg_legal(a, assembly_mode),
        spec_reg_legal(b, assembly_mode),
    ensures
        spec_ucmp_written(old(bytes)@, final(bytes)@, r, cmp_token, dst, a, b, comparison, assembly_mode),
{
    let opcode: u8 = match (a.is_vector(), b.is_vector(), dst.is_vector()) {
        (true, true, true) => 0x11,
        (false, false, false) => 0x10,
        _ => {
            return Err(operand_types_error3(cmp_token, dst, a, b));
        },
    };
    let ghost before = bytes@;
    bytes.push(opcode);
    write_register(bytes, dst, assembly_mode);
    write_register(bytes, a, assembly_mode);
    write_register(bytes, b, assembly_mode);
    bytes.push(comparison_byte(comparison));
    proof {
        assert(bytes@ =~= before + seq![opcode] + spec_reg_bytes(dst, assembly_mode) + spec_reg_bytes(a, assembly_mode)
            + spec_reg_bytes(b, assembly_mode) + seq![spec_comparison_byte(comparison)]);
    }
    Ok(())
}

/// What `write_mul_m44_v4` appends to `before`, giving `after`, and what it returns.
pub open spec fn spec_mul_m44_v4_written(before: Seq<u8>, after: Seq<u8>, r: Result<(), SourceError>, mul_token: &Token, dst: RegisterName, a0: RegisterName, a1: RegisterName, a2: RegisterName, a3: RegisterName, x: RegisterName, assembly_mode: AssemblyMode) -> bool {
    &&& (({
                let all_v = dst.spec_is_vector() && a0.spec_is_vector() && a1.spec_is_vector() && a2.spec_is_vector()
                    && a3.spec_is_vector() && x.spec_is_vector();
                &&& all_v ==> r is Ok && after == before + seq![0x12u8] + spec_reg_bytes(dst, assembly_mode)
                    + spec_reg_bytes(a0, assembly_mode) + spec_reg_bytes(a1, assembly_mode) + spec_reg_bytes(a2, assembly_mode)
                    + spec_reg_bytes(a3, assembly_mode) + spec_reg_bytes(x, assembly_mode)
                &&& !all_v ==> spec_error_at(r, *mul_token) && after == before
            }))
}

/// Appends a 4x4 matrix times vector product: opcode 0x12, then dst, the four rows and x.
/// Any scalar operand is an error at the instruction, and nothing is appended then.
pub fn write_mul_m44_v4(bytes: &mut Vec<u8>, mul_token: &Token, dst: RegisterName, a0: RegisterName, a1: RegisterName, a2: RegisterName, a3: RegisterName, x: RegisterName, assembly_mode: AssemblyMode) -> (r: Result<(), SourceError>)
    requires
        spec_reg_legal(dst, assembly_mode),
        spec_reg_legal(a0, assembly_mode),
        spec_reg_legal(a1, assembly_mode),
        spec_reg_legal(a2, assembly_mode),
        spec_reg_legal(a3, assembly_mode),
        spec_reg_legal(x, assembly_mode),
    ensures
        spec_mul_m44_v4_written(old(bytes)@, final(bytes)@, r, mul_token, dst, a0, a1, a2, a3, x, assembly_mode),
{
    if !(dst.is_vector() && a0.is_vector() && a1.is_vector() && a2.is_vector() && a3.is_vector() && x.is_vector()) {
        let mut message = String::from_str("Invalid operand types - dst: ");
        message.append(bool_to_type_name(dst.is_vector()));
        message.append(", a0: ");
        message.append(bool_to_type_name(a0.is_vector()));
        message.append(", a1: ");
        message.append(bool_to_type_name(a1.is_vector()));
        message.append(", a2: ");
        message.append(bool_to_type_name(a2.is_vector()));
        message.append(", a3: ");
        message.append(bool_to_type_name(a3.is_vector()));
        message.append(", x: ");
        message.append(bool_to_type_name(x.is_vector()));
        return Err(SourceError { message, line: mul_token.line, column: mul_token.column });
    }
    let ghost before = bytes@;
    bytes.push(0x12);
    write_register(bytes, dst, assembly_mode);
    write_register(bytes, a0, assembly_mode);
    write_register(bytes, a1, assembly_mode);
    write_register(bytes, a2, assembly_mode);
    write_register(bytes, a3, assembly_mode);
    write_register(bytes, x, assembly_mode);
    proof {
        assert(bytes@ =~= before + seq![0x12u8] + spec_reg_bytes(dst, assembly_mode)
            + spec_reg_bytes(a0, assembly_mode) + spec_reg_bytes(a1, assembly_mode) + spec_reg_bytes(a2, assembly_mode)
            + spec_reg_bytes(a3, assembly_mode) + spec_reg_bytes(x, assembly_mode));
    }
    Ok(())
}

/// The opcode of a two-operand instruction whose dst, a and b are vector registers when
/// `vector` holds (the first table) or scalar registers otherwise (the second table); the
/// tables are taken in this order as the instruction kinds are matched.
pub open spec fn spec_binary_opcode(op: InstructionType, dst_v: bool, a_v: bool, b_v: bool) -> Option<u8> {
    if dst_v && a_v && b_v {
        spec_binary_opcode_first(op)
    } else if !dst_v && !a_v && !b_v {
        spec_binary_opcode_second(op)
    } else {
        None
    }
}

/// What `write_binary_op` appends to `before`, giving `after`, and what it returns.
pub open spec fn spec_binary_op_written(before: Seq<u8>, after: Seq<u8>, r: Result<(), SourceError>, op_token: &Token, op: InstructionType, dst: RegisterName, a: RegisterName, b: RegisterName, assembly_mode: AssemblyMode) -> bool {
    &&& (match spec_binary_opcode(op, dst.spec_is_vector(), a.spec_is_vector(), b.spec_is_vector()) {
                Some(opcode) => r is Ok && after == before + seq![opcode] + spec_reg_bytes(dst, assembly_mode)
                    + spec_reg_bytes(a, assembly_mode) + spec_reg_bytes(b, assembly_mode),
                None => spec_error_at(r, *op_token) && after == before,
            })
}

/// Appends a two-operand instruction: its opcode (see `spec_binary_opcode`), then dst, a, b.
/// An instruction without an opcode for its operands' kinds is an error at the instruction,
/// and nothing is appended then.
pub fn write_binary_op(bytes: &mut Vec<u8>, op_token: &Token, op: InstructionType, dst: RegisterName, a: RegisterName, b: RegisterName, assembly_mode: AssemblyMode) -> (r: Result<(), SourceError>)
    requires
        spec_is_binary(op),
        spec_reg_legal(dst, assembly_mode),
        spec_reg_legal(a, assembly_mode),
        spec_reg_legal(b, assembly_mode),
    ensures
        spec_binary_op_written(old(bytes)@, final(bytes)@, r, op_token, op, dst, a, b, assembly_mode),
{
    let dv = dst.is_vector();
    let av = a.is_vector();
    let bv = b.is_vector();
    let found = if dv && av && bv {
        binary_opcode_first(op)
    } else if !dv && !av && !bv {
        binary_opcode_second(op)
    } else {
        None
    };
    let opcode = match found {
        Some(o) => o,
        None => {
            let mut message = String::from_str("Invalid operand types for instruction: ");
            message.append(debug_text(op).as_str());
            message.append(": ");
            message.append(bool_to_type_name(dv));
            message.append(", ");
            message.append(bool_to_type_name(av));
            message.append(", ");
            message.append(bool_to_type_name(bv));
            return Err(SourceError { message, line: op_token.line, column: op_token.column });
        },
    };
    let ghost before = bytes@;
    bytes.push(opcode);
    write_register(bytes, dst, assembly_mode);
    write_register(bytes, a, assembly_mode);
    write_register(bytes, b, assembly_mode);
    proof {
        assert(bytes@ =~= before + seq![opcode] + spec_reg_bytes(dst, assembly_mode)
            + spec_reg_bytes(a, assembly_mode) + spec_reg_bytes(b, assembly_mode));
    }
    Ok(())
}

/// The opcode of a one-operand instruction from `src` to `dst`: both scalar, both vector, or
/// a vector to a scalar.
pub open spec fn spec_unary_opcode(op: InstructionType, dst_v: bool, src_v: bool) -> Option<u8> {
    if !dst_v && !src_v {
        spec_unary_opcode_scalar(op)
    } else if dst_v && src_v {
        spec_unary_opcode_vector(op)
    } else if !dst_v && src_v {
        spec_unary_opcode_vector_to_scalar(op)
    } else {
        None
    }
}

/// What `write_unary_op` appends to `before`, giving `after`, and what it returns.
pub open spec fn spec_unary_op_written(before: Seq<u8>, after: Seq<u8>, r: Result<(), SourceError>, op_token: &Token, op: InstructionType, dst: RegisterName, src: RegisterName, assembly_mode: AssemblyMode) -> bool {
    &&& (match spec_unary_opcode(op, dst.spec_is_vector(), src.spec_is_vector()) {
                Some(opcode) => r is Ok && after == before + seq![opcode] + spec_reg_bytes(dst, assembly_mode)
                    + spec_reg_bytes(src, assembly_mode),
                None => spec_error_at(r, *op_token) && after == before,
            })
}

/// Appends a one-operand instruction: its opcode (see `spec_unary_opcode`), then dst and
/// src. An instruction without an opcode for its operands' kinds is an error at the
/// instruction, and nothing is appended then.
pub fn write_unary_op(bytes: &mut Vec<u8>, op_token: &Token, op: InstructionType, dst: RegisterName, src: RegisterName, assembly_mode: AssemblyMode) -> (r: Result<(), SourceError>)
    requires
        spec_is_unary(op),
        spec_reg_legal(dst, assembly_mode),
        spec_reg_legal(src, assembly_mode),
    ensures
        spec_unary_op_written(old(bytes)@, final(bytes)@, r, op_token, op, dst, src, assembly_mode),
{
    let dv = dst.is_vector();
    let sv = src.is_vector();
    let found = if !dv && !sv {
        unary_opcode_scalar(op)
    } else if dv && sv {
        unary_opcode_vector(op)
    } else if !dv && sv {
        unary_opcode_vector_to_scalar(op)
    } else {
        None
    };
    let opcode = match found {
        Some(o) => o,
        None => {
            let mut message = String::from_str("Invalid operand types for instruction: ");
            message.append(debug_text(op).as_str());
            message.append(": ");
            message.append(bool_to_type_name(dv));
            message.append(", ");
            message.append(bool_to_type_name(sv));
            return Err(SourceError { message, line: op_token.line, column: op_token.column });
        },
    };
    let ghost before = bytes@;
    bytes.push(opcode);
    write_register(bytes, dst, assembly_mode);
    write_register(bytes, src, assembly_mode);
    proof {
        assert(bytes@ =~= before + seq![opcode] + spec_reg_bytes(dst, assembly_mode) + spec_reg_bytes(src, assembly_mode));
    }
    Ok(())
}

/// What `write_ternary_op` appends to `before`, giving `after`, and what it returns.
pub open spec fn spec_ternary_op_written(before: Seq<u8>, after: Seq<u8>, r: Result<(), SourceError>, op_token: &Token, op: InstructionType, dst: RegisterName, src_a: RegisterName, src_b: RegisterName, src_c: RegisterName, assembly_mode: AssemblyMode) -> bool {
    &&& (spec_error_at(r, *op_token))
    &&& (after == before)
}

/// Appends a three-operand instruction. No encoding of `fma` exists yet: the only input
/// handled is an `fma` whose operands are neither all scalar nor all vector, which is an error
/// at the instruction; nothing is appended.
pub fn write_ternary_op(bytes: &mut Vec<u8>, op_token: &Token, op: InstructionType, dst: RegisterName, src_a: RegisterName, src_b: RegisterName, src_c: RegisterName, assembly_mode: AssemblyMode) -> (r: Result<(), SourceError>)
    requires
        op is Fma,
        !(dst.spec_is_vector() && src_a.spec_is_vector() && src_b.spec_is_vector() && src_c.spec_is_vector()),
        !(!dst.spec_is_vector() && !src_a.spec_is_vector() && !src_b.spec_is_vector() && !src_c.spec_is_vector()),
    ensures
        spec_ternary_op_written(old(bytes)@, final(bytes)@, r, op_token, op, dst, src_a, src_b, src_c, assembly_mode),
{
    let mut message = String::from_str("Invalid operand types for fma - dst: ");
    message.append(bool_to_type_name(dst.is_vector()));
    message.append(", src_a: ");
    message.append(bool_to_type_name(src_a.is_vector()));
    message.append(", src_b: ");
    message.append(bool_to_type_name(src_b.is_vector()));
    message.append(", src_c: ");
    message.append(bool_to_type_name(src_c.is_vector()));
    Err(SourceError { message, line: op_token.line, column: op_token.column })
}

} // verus!
