//! What the GPU's shader parser reads from the bytes the assembler writes.

use vstd::prelude::*;
use core::marker::PhantomData;
use super::lexer::{AssemblyMode, Comparison, InstructionType, OpDataType as AsmDataType, RegisterName};
use super::instructions::{
    spec_binary_op_written, spec_binary_opcode, spec_cmp_written, spec_comparison_byte, spec_fcmp_written,
    spec_pop_written, spec_push_written, spec_reg_bytes, spec_reg_encoding, spec_reg_legal, spec_ucmp_written,
    spec_unary_op_written, spec_unary_opcode,
};
use super::lexer::Token;
use super::src_error::SourceError;
use crate::gpu::shader::{
    Comparison as ShaderComparison, OpDataType, OpDataTypeConversion, RegisterAddress, RegisterType, Scalar,
    ScalarBinaryOp, ScalarUnaryOp, ShaderInstruction, Vector,
};
use crate::gpu::shader_parser::{
    is_scalar_compare_opcode, is_vector_compare_opcode, spec_compare_op, spec_decode, spec_register, ShaderParseError,
};

verus! {

/// The register the parser reads where the assembler wrote `r`.
pub open spec fn spec_reg_address<T: RegisterType>(r: RegisterName, mode: AssemblyMode) -> RegisterAddress<T> {
    let (file, n) = spec_reg_encoding(r, mode).unwrap();
    if file == 0 {
        RegisterAddress::Local(n as u8, PhantomData)
    } else if file == 1 {
        RegisterAddress::Input(n as u8, PhantomData)
    } else if file == 2 {
        RegisterAddress::Output(n as u8, PhantomData)
    } else {
        RegisterAddress::Constant(n as u8, PhantomData)
    }
}

/// The parser reads a register where the assembler wrote one.
pub proof fn lemma_register_read_back<T: RegisterType>(code: Seq<u8>, p: int, r: RegisterName, mode: AssemblyMode)
    requires
        spec_reg_legal(r, mode),
        0 <= p,
        p + 2 <= code.len(),
        code.subrange(p, p + 2) == spec_reg_bytes(r, mode),
    ensures
        spec_register::<T>(code, p) == Ok::<(RegisterAddress<T>, int), ShaderParseError>((spec_reg_address::<T>(r, mode), p + 2)),
{
    assert(code[p] == code.subrange(p, p + 2)[0]);
    assert(code[p + 1] == code.subrange(p, p + 2)[1]);
}

/// The shader data type an assembler data type stands for.
pub open spec fn spec_data_type(t: AsmDataType) -> OpDataType {
    match t {
        AsmDataType::F32 => OpDataType::F32,
        AsmDataType::I32 => OpDataType::I32,
    }
}

/// The shader operation a two-operand instruction stands for.
pub open spec fn spec_binary_meaning(op: InstructionType) -> ScalarBinaryOp {
    match op {
        InstructionType::Add(t) => ScalarBinaryOp::Add(spec_data_type(t)),
        InstructionType::Sub(t) => ScalarBinaryOp::Subtract(spec_data_type(t)),
        InstructionType::Mul(t) => ScalarBinaryOp::Multiply(spec_data_type(t)),
        InstructionType::Div(t) => ScalarBinaryOp::Divide(spec_data_type(t)),
        InstructionType::Mod(t) => ScalarBinaryOp::Modulo(spec_data_type(t)),
        InstructionType::Atan2 => ScalarBinaryOp::Atan2,
        InstructionType::And => ScalarBinaryOp::And,
        InstructionType::AndN => ScalarBinaryOp::AndNot,
        InstructionType::Or => ScalarBinaryOp::Or,
        _ => ScalarBinaryOp::Xor,
    }
}

/// The shader operation a one-operand instruction stands for.
pub open spec fn spec_unary_meaning(op: InstructionType) -> ScalarUnaryOp {
    match op {
        InstructionType::ConvertF32ToI32 => ScalarUnaryOp::Convert(OpDataTypeConversion::F32ToI32),
        InstructionType::ConvertF32ToU32 => ScalarUnaryOp::Convert(OpDataTypeConversion::F32ToU32),
        InstructionType::ConvertI32ToF32 => ScalarUnaryOp::Convert(OpDataTypeConversion::I32ToF32),
        InstructionType::ConvertU32ToF32 => ScalarUnaryOp::Convert(OpDataTypeConversion::U32ToF32),
        InstructionType::Neg(t) => ScalarUnaryOp::Negative(spec_data_type(t)),
        InstructionType::Sign(t) => ScalarUnaryOp::Sign(spec_data_type(t)),
        InstructionType::Recip => ScalarUnaryOp::Reciporocal,
        InstructionType::Sin => ScalarUnaryOp::Sin,
        InstructionType::Cos => ScalarUnaryOp::Cos,
        InstructionType::Tan => ScalarUnaryOp::Tan,
        InstructionType::ASin => ScalarUnaryOp::ASin,
        InstructionType::ACos => ScalarUnaryOp::ACos,
        InstructionType::Atan => ScalarUnaryOp::Atan,
        InstructionType::Ln => ScalarUnaryOp::Ln,
        _ => ScalarUnaryOp::Exp,
    }
}

/// A pushed register is read back as a push of that register.
pub proof fn law_push_read_back(prefix: Seq<u8>, r: RegisterName, mode: AssemblyMode, rest: Seq<u8>)
    requires
        spec_reg_legal(r, mode),
    ensures
        ({
            let code = prefix + seq![if r.spec_is_vector() { 0x00u8 } else { 0x01u8 }] + spec_reg_bytes(r, mode) + rest;
            spec_decode(code, prefix.len() as int) == Ok::<(ShaderInstruction, int), ShaderParseError>((
                if r.spec_is_vector() {
                    ShaderInstruction::PushVector(spec_reg_address::<Vector>(r, mode))
                } else {
                    ShaderInstruction::PushScalar(spec_reg_address::<Scalar>(r, mode))
                },
                prefix.len() as int + 3,
            ))
        }),
{
    reveal(spec_decode);
    let p = prefix.len() as int;
    let code = prefix + seq![if r.spec_is_vector() { 0x00u8 } else { 0x01u8 }] + spec_reg_bytes(r, mode) + rest;
    assert(code.subrange(p + 1, p + 3) =~= spec_reg_bytes(r, mode));
    assert(code[p] == (if r.spec_is_vector() { 0x00u8 } else { 0x01u8 }));
    lemma_register_read_back::<Vector>(code, p + 1, r, mode);
    lemma_register_read_back::<Scalar>(code, p + 1, r, mode);
}

/// A popped register is read back as a pop into that register.
pub proof fn law_pop_read_back(prefix: Seq<u8>, r: RegisterName, mode: AssemblyMode, rest: Seq<u8>)
    requires
        spec_reg_legal(r, mode),
    ensures
        ({
            let code = prefix + seq![if r.spec_is_vector() { 0x02u8 } else { 0x03u8 }] + spec_reg_bytes(r, mode) + rest;
            spec_decode(code, prefix.len() as int) == Ok::<(ShaderInstruction, int), ShaderParseError>((
                if r.spec_is_vector() {
                    ShaderInstruction::PopVector(spec_reg_address::<Vector>(r, mode))
                } else {
                    ShaderInstruction::PopScalar(spec_reg_address::<Scalar>(r, mode))
                },
                prefix.len() as int + 3,
            ))
        }),
{
    reveal(spec_decode);
    let p = prefix.len() as int;
    let code = prefix + seq![if r.spec_is_vector() { 0x02u8 } else { 0x03u8 }] + spec_reg_bytes(r, mode) + rest;
    assert(code.subrange(p + 1, p + 3) =~= spec_reg_bytes(r, mode));
    assert(code[p] == (if r.spec_is_vector() { 0x02u8 } else { 0x03u8 }));
    lemma_register_read_back::<Vector>(code, p + 1, r, mode);
    lemma_register_read_back::<Scalar>(code, p + 1, r, mode);
}

/// A move between two vector registers is read back as a copy from src to dst.
pub proof fn law_vector_mov_read_back(prefix: Seq<u8>, dst: RegisterName, src: RegisterName, mode: AssemblyMode, rest: Seq<u8>)
    requires
        spec_reg_legal(dst, mode),
        spec_reg_legal(src, mode),
    ensures
        ({
            let code = prefix + seq![0x04u8] + spec_reg_bytes(dst, mode) + spec_reg_bytes(src, mode) + rest;
            spec_decode(code, prefix.len() as int) == Ok::<(ShaderInstruction, int), ShaderParseError>((
                ShaderInstruction::CopyVectorRegister {
                    from: spec_reg_address::<Vector>(src, mode),
                    to: spec_reg_address::<Vector>(dst, mode),
                },
                prefix.len() as int + 5,
            ))
        }),
{
    reveal(spec_decode);
    let p = prefix.len() as int;
    let code = prefix + seq![0x04u8] + spec_reg_bytes(dst, mode) + spec_reg_bytes(src, mode) + rest;
    assert(code.subrange(p + 1, p + 3) =~= spec_reg_bytes(dst, mode));
    assert(code.subrange(p + 3, p + 5) =~= spec_reg_bytes(src, mode));
    assert(code[p] == 0x04u8);
    lemma_register_read_back::<Vector>(code, p + 1, dst, mode);
    lemma_register_read_back::<Vector>(code, p + 3, src, mode);
}

/// A move between two scalar registers is read back as a copy from src to dst.
pub proof fn law_scalar_mov_read_back(prefix: Seq<u8>, dst: RegisterName, src: RegisterName, mode: AssemblyMode, rest: Seq<u8>)
    requires
        spec_reg_legal(dst, mode),
        spec_reg_legal(src, mode),
    ensures
        ({
            let code = prefix + seq![0x05u8] + spec_reg_bytes(dst, mode) + spec_reg_bytes(src, mode) + rest;
            spec_decode(code, prefix.len() as int) == Ok::<(ShaderInstruction, int), ShaderParseError>((
                ShaderInstruction::CopyScalarRegister {
                    from: spec_reg_address::<Scalar>(src, mode),
                    to: spec_reg_address::<Scalar>(dst, mode),
                },
                prefix.len() as int + 5,
            ))
        }),
{
    reveal(spec_decode);
    let p = prefix.len() as int;
    let code = prefix + seq![0x05u8] + spec_reg_bytes(dst, mode) + spec_reg_bytes(src, mode) + rest;
    assert(code.subrange(p + 1, p + 3) =~= spec_reg_bytes(dst, mode));
    assert(code.subrange(p + 3, p + 5) =~= spec_reg_bytes(src, mode));
    assert(code[p] == 0x05u8);
    lemma_register_read_back::<Scalar>(code, p + 1, dst, mode);
    lemma_register_read_back::<Scalar>(code, p + 3, src, mode);
}

/// A two-operand instruction on vector registers is read back as that scalar operation of
/// the same registers, and one on scalar registers as that operation done componentwise on
/// vector registers: the opcode tables of the assembler are taken in the opposite order of
/// the operands' kinds. The cross product has no instruction the parser reads.
pub proof fn law_binary_read_back(prefix: Seq<u8>, op: InstructionType, dst: RegisterName, a: RegisterName, b: RegisterName, mode: AssemblyMode, rest: Seq<u8>)
    requires
        spec_reg_legal(dst, mode),
        spec_reg_legal(a, mode),
        spec_reg_legal(b, mode),
        spec_binary_opcode(op, dst.spec_is_vector(), a.spec_is_vector(), b.spec_is_vector()) is Some,
        op != InstructionType::Cross,
    ensures
        ({
            let opcode = spec_binary_opcode(op, dst.spec_is_vector(), a.spec_is_vector(), b.spec_is_vector()).unwrap();
            let code = prefix + seq![opcode] + spec_reg_bytes(dst, mode) + spec_reg_bytes(a, mode) + spec_reg_bytes(b, mode) + rest;
            spec_decode(code, prefix.len() as int) == Ok::<(ShaderInstruction, int), ShaderParseError>((
                if dst.spec_is_vector() {
                    ShaderInstruction::ScalarBinaryOp {
                        src_a: spec_reg_address::<Scalar>(a, mode),
                        src_b: spec_reg_address::<Scalar>(b, mode),
                        dst: spec_reg_address::<Scalar>(dst, mode),
                        op: spec_binary_meaning(op),
                    }
                } else {
                    ShaderInstruction::VectorComponentwiseScalarBinaryOp {
                        src_a: spec_reg_address::<Vector>(a, mode),
                        src_b: spec_reg_address::<Vector>(b, mode),
                        dst: spec_reg_address::<Vector>(dst, mode),
                        op: spec_binary_meaning(op),
                    }
                },
                prefix.len() as int + 7,
            ))
        }),
{
    reveal(spec_decode);
    let opcode = spec_binary_opcode(op, dst.spec_is_vector(), a.spec_is_vector(), b.spec_is_vector()).unwrap();
    let p = prefix.len() as int;
    let code = prefix + seq![opcode] + spec_reg_bytes(dst, mode) + spec_reg_bytes(a, mode) + spec_reg_bytes(b, mode) + rest;
    assert(code.subrange(p + 1, p + 3) =~= spec_reg_bytes(dst, mode));
    assert(code.subrange(p + 3, p + 5) =~= spec_reg_bytes(a, mode));
    assert(code.subrange(p + 5, p + 7) =~= spec_reg_bytes(b, mode));
    assert(code[p] == opcode);
    lemma_register_read_back::<Scalar>(code, p + 1, dst, mode);
    lemma_register_read_back::<Scalar>(code, p + 3, a, mode);
    lemma_register_read_back::<Scalar>(code, p + 5, b, mode);
    lemma_register_read_back::<Vector>(code, p + 1, dst, mode);
    lemma_register_read_back::<Vector>(code, p + 3, a, mode);
    lemma_register_read_back::<Vector>(code, p + 5, b, mode);
}

/// A one-operand instruction between scalar registers is read back as that operation of the
/// same registers, and one between vector registers as that operation done componentwise.
pub proof fn law_unary_read_back(prefix: Seq<u8>, op: InstructionType, dst: RegisterName, src: RegisterName, mode: AssemblyMode, rest: Seq<u8>)
    requires
        spec_reg_legal(dst, mode),
        spec_reg_legal(src, mode),
        dst.spec_is_vector() == src.spec_is_vector(),
        spec_unary_opcode(op, dst.spec_is_vector(), src.spec_is_vector()) is Some,
        !(op is Norm2 || op is Norm3 || op is Norm4),
    ensures
        ({
            let opcode = spec_unary_opcode(op, dst.spec_is_vector(), src.spec_is_vector()).unwrap();
            let code = prefix + seq![opcode] + spec_reg_bytes(dst, mode) + spec_reg_bytes(src, mode) + rest;
            spec_decode(code, prefix.len() as int) == Ok::<(ShaderInstruction, int), ShaderParseError>((
                if dst.spec_is_vector() {
                    ShaderInstruction::VectorComponentwiseScalarUnaryOp {
                        src: spec_reg_address::<Vector>(src, mode),
                        dst: spec_reg_address::<Vector>(dst, mode),
                        op: spec_unary_meaning(op),
                    }
                } else {
                    ShaderInstruction::ScalarUnaryOp {
                        src: spec_reg_address::<Scalar>(src, mode),
                        dst: spec_reg_address::<Scalar>(dst, mode),
                        op: spec_unary_meaning(op),
                    }
                },
                prefix.len() as int + 5,
            ))
        }),
{
    reveal(spec_decode);
    let opcode = spec_unary_opcode(op, dst.spec_is_vector(), src.spec_is_vector()).unwrap();
    let p = prefix.len() as int;
    let code = prefix + seq![opcode] + spec_reg_bytes(dst, mode) + spec_reg_bytes(src, mode) + rest;
    assert(code.subrange(p + 1, p + 3) =~= spec_reg_bytes(dst, mode));
    assert(code.subrange(p + 3, p + 5) =~= spec_reg_bytes(src, mode));
    assert(code[p] == opcode);
    lemma_register_read_back::<Scalar>(code, p + 1, dst, mode);
    lemma_register_read_back::<Scalar>(code, p + 3, src, mode);
    lemma_register_read_back::<Vector>(code, p + 1, dst, mode);
    lemma_register_read_back::<Vector>(code, p + 3, src, mode);
}

/// The comparison the parser reads for the byte of a comparison: `lt` is written as 2, which
/// the parser reads as "greater than".
pub open spec fn spec_comparison_meaning(c: Comparison) -> ShaderComparison {
    match c {
        Comparison::Eq => ShaderComparison::Equal,
        Comparison::Neq => ShaderComparison::NotEqual,
        Comparison::Lt => ShaderComparison::GreaterThan,
        Comparison::Lte => ShaderComparison::LessThanOrEqual,
    }
}

/// A signed integer compare of scalar registers is read back as that comparison of the same
/// registers.
pub proof fn law_integer_compare_read_back(prefix: Seq<u8>, dst: RegisterName, a: RegisterName, b: RegisterName, c: Comparison, mode: AssemblyMode, rest: Seq<u8>)
    requires
        spec_reg_legal(dst, mode),
        spec_reg_legal(a, mode),
        spec_reg_legal(b, mode),
    ensures
        ({
            let code = prefix + seq![0x0Eu8] + spec_reg_bytes(dst, mode) + spec_reg_bytes(a, mode) + spec_reg_bytes(b, mode)
                + seq![spec_comparison_byte(c)] + rest;
            spec_decode(code, prefix.len() as int) == Ok::<(ShaderInstruction, int), ShaderParseError>((
                ShaderInstruction::ScalarBinaryOp {
                    src_a: spec_reg_address::<Scalar>(a, mode),
                    src_b: spec_reg_address::<Scalar>(b, mode),
                    dst: spec_reg_address::<Scalar>(dst, mode),
                    op: ScalarBinaryOp::Compare(OpDataType::I32, spec_comparison_meaning(c)),
                },
                prefix.len() as int + 8,
            ))
        }),
{
    reveal(spec_decode);
    let p = prefix.len() as int;
    let code = prefix + seq![0x0Eu8] + spec_reg_bytes(dst, mode) + spec_reg_bytes(a, mode) + spec_reg_bytes(b, mode)
        + seq![spec_comparison_byte(c)] + rest;
    assert(code.subrange(p + 1, p + 3) =~= spec_reg_bytes(dst, mode));
    assert(code.subrange(p + 3, p + 5) =~= spec_reg_bytes(a, mode));
    assert(code.subrange(p + 5, p + 7) =~= spec_reg_bytes(b, mode));
    assert(code[p] == 0x0Eu8);
    assert(code[p + 7] == spec_comparison_byte(c));
    lemma_register_read_back::<Scalar>(code, p + 1, dst, mode);
    lemma_register_read_back::<Scalar>(code, p + 3, a, mode);
    lemma_register_read_back::<Scalar>(code, p + 5, b, mode);
}

/// A scalar compare instruction of any compare opcode is read back as the comparison that
/// opcode names, of the same registers.
proof fn lemma_scalar_compare_read_back(prefix: Seq<u8>, opcode: u8, dst: RegisterName, a: RegisterName, b: RegisterName, c: Comparison, mode: AssemblyMode, rest: Seq<u8>)
    requires
        spec_reg_legal(dst, mode),
        spec_reg_legal(a, mode),
        spec_reg_legal(b, mode),
        is_scalar_compare_opcode(opcode),
    ensures
        ({
            let code = prefix + seq![opcode] + spec_reg_bytes(dst, mode) + spec_reg_bytes(a, mode) + spec_reg_bytes(b, mode)
                + seq![spec_comparison_byte(c)] + rest;
            spec_decode(code, prefix.len() as int) == Ok::<(ShaderInstruction, int), ShaderParseError>((
                ShaderInstruction::ScalarBinaryOp {
                    src_a: spec_reg_address::<Scalar>(a, mode),
                    src_b: spec_reg_address::<Scalar>(b, mode),
                    dst: spec_reg_address::<Scalar>(dst, mode),
                    op: spec_compare_op(opcode, spec_comparison_meaning(c)),
                },
                prefix.len() as int + 8,
            ))
        }),
{
    reveal(spec_decode);
    let p = prefix.len() as int;
    let code = prefix + seq![opcode] + spec_reg_bytes(dst, mode) + spec_reg_bytes(a, mode) + spec_reg_bytes(b, mode)
        + seq![spec_comparison_byte(c)] + rest;
    assert(code.subrange(p + 1, p + 3) =~= spec_reg_bytes(dst, mode));
    assert(code.subrange(p + 3, p + 5) =~= spec_reg_bytes(a, mode));
    assert(code.subrange(p + 5, p + 7) =~= spec_reg_bytes(b, mode));
    assert(code[p] == opcode);
    assert(code[p + 7] == spec_comparison_byte(c));
    lemma_register_read_back::<Scalar>(code, p + 1, dst, mode);
    lemma_register_read_back::<Scalar>(code, p + 3, a, mode);
    lemma_register_read_back::<Scalar>(code, p + 5, b, mode);
}

/// Whether the three operands are all scalar registers.
pub open spec fn all_scalar(dst: RegisterName, a: RegisterName, b: RegisterName) -> bool {
    !dst.spec_is_vector() && !a.spec_is_vector() && !b.spec_is_vector()
}

/// Whether the three operands are all vector registers.
pub open spec fn all_vector(dst: RegisterName, a: RegisterName, b: RegisterName) -> bool {
    dst.spec_is_vector() && a.spec_is_vector() && b.spec_is_vector()
}

/// What the GPU reads back of a compare the assembler wrote: on scalar registers, `op` of the
/// same registers with the comparison `c` stands for; on vector registers, an instruction the
/// parser stops at whose opcode is the one after a scalar compare of the same kind.
pub open spec fn compare_reads_back(
    before: Seq<u8>,
    after: Seq<u8>,
    rest: Seq<u8>,
    dst: RegisterName,
    a: RegisterName,
    b: RegisterName,
    c: Comparison,
    mode: AssemblyMode,
    op: ScalarBinaryOp,
    kind: spec_fn(ShaderComparison) -> ScalarBinaryOp,
) -> bool {
    let p = before.len() as int;
    &&& all_scalar(dst, a, b) ==> spec_decode(after + rest, p) == Ok::<(ShaderInstruction, int), ShaderParseError>((
        ShaderInstruction::ScalarBinaryOp {
            src_a: spec_reg_address::<Scalar>(a, mode),
            src_b: spec_reg_address::<Scalar>(b, mode),
            dst: spec_reg_address::<Scalar>(dst, mode),
            op,
        },
        p + 8,
    ))
    &&& all_vector(dst, a, b) ==> {
        &&& is_vector_compare_opcode(after[p])
        &&& forall|x: ShaderComparison| #[trigger] spec_compare_op((after[p] - 1) as u8, x) == kind(x)
    }
}

/// A compare written as `sop` on scalar registers and `vop` on vector ones reads back as
/// `compare_reads_back` says, when `sop` names `op` (and `kind`) in the parser's table and
/// `vop` is the opcode after it.
proof fn lemma_compare_reads_back(
    before: Seq<u8>,
    after: Seq<u8>,
    rest: Seq<u8>,
    dst: RegisterName,
    a: RegisterName,
    b: RegisterName,
    c: Comparison,
    mode: AssemblyMode,
    sop: u8,
    vop: u8,
    op: ScalarBinaryOp,
    kind: spec_fn(ShaderComparison) -> ScalarBinaryOp,
)
    requires
        spec_reg_legal(dst, mode),
        spec_reg_legal(a, mode),
        spec_reg_legal(b, mode),
        is_scalar_compare_opcode(sop),
        vop == sop + 1,
        op == spec_compare_op(sop, spec_comparison_meaning(c)),
        forall|x: ShaderComparison| #[trigger] spec_compare_op(sop, x) == kind(x),
        all_scalar(dst, a, b) ==> after == before + seq![sop] + spec_reg_bytes(dst, mode) + spec_reg_bytes(a, mode)
            + spec_reg_bytes(b, mode) + seq![spec_comparison_byte(c)],
        all_vector(dst, a, b) ==> after == before + seq![vop] + spec_reg_bytes(dst, mode) + spec_reg_bytes(a, mode)
            + spec_reg_bytes(b, mode) + seq![spec_comparison_byte(c)],
    ensures
        compare_reads_back(before, after, rest, dst, a, b, c, mode, op, kind),
{
    let p = before.len() as int;
    if all_scalar(dst, a, b) {
        lemma_scalar_compare_read_back(before, sop, dst, a, b, c, mode, rest);
        assert(after + rest =~= before + seq![sop] + spec_reg_bytes(dst, mode) + spec_reg_bytes(a, mode) + spec_reg_bytes(b, mode)
            + seq![spec_comparison_byte(c)] + rest);
    }
    if all_vector(dst, a, b) {
        assert(after[p] == vop);
        assert((vop - 1) as u8 == sop);
    }
}

/// An unsigned compare is read back as an unsigned comparison (`CompareUnsigned`) of the
/// same registers; its vector form is the vector twin of the unsigned scalar compare.
pub proof fn law_unsigned_compare_read_back(before: Seq<u8>, after: Seq<u8>, r: Result<(), SourceError>, t: &Token, dst: RegisterName, a: RegisterName, b: RegisterName, c: Comparison, mode: AssemblyMode, rest: Seq<u8>)
    requires
        spec_reg_legal(dst, mode),
        spec_reg_legal(a, mode),
        spec_reg_legal(b, mode),
        spec_ucmp_written(before, after, r, t, dst, a, b, c, mode),
    ensures
        compare_reads_back(before, after, rest, dst, a, b, c, mode,
            ScalarBinaryOp::CompareUnsigned(spec_comparison_meaning(c)), |x: ShaderComparison| ScalarBinaryOp::CompareUnsigned(x)),
        !all_scalar(dst, a, b) && !all_vector(dst, a, b) ==> r is Err && after == before,
{
    lemma_compare_reads_back(before, after, rest, dst, a, b, c, mode, 0x10u8, 0x11u8,
        ScalarBinaryOp::CompareUnsigned(spec_comparison_meaning(c)), |x: ShaderComparison| ScalarBinaryOp::CompareUnsigned(x));
}

/// A signed integer compare is read back as a comparison of the same registers read as
/// signed integers; its vector form is the vector twin of the signed scalar compare.
pub proof fn law_signed_compare_read_back(before: Seq<u8>, after: Seq<u8>, r: Result<(), SourceError>, t: &Token, dst: RegisterName, a: RegisterName, b: RegisterName, c: Comparison, mode: AssemblyMode, rest: Seq<u8>)
    requires
        spec_reg_legal(dst, mode),
        spec_reg_legal(a, mode),
        spec_reg_legal(b, mode),
        spec_cmp_written(before, after, r, t, dst, a, b, c, mode),
    ensures
        compare_reads_back(before, after, rest, dst, a, b, c, mode,
            ScalarBinaryOp::Compare(OpDataType::I32, spec_comparison_meaning(c)), |x: ShaderComparison| ScalarBinaryOp::Compare(OpDataType::I32, x)),
        !all_scalar(dst, a, b) && !all_vector(dst, a, b) ==> r is Err && after == before,
{
    lemma_compare_reads_back(before, after, rest, dst, a, b, c, mode, 0x0Eu8, 0x0Fu8,
        ScalarBinaryOp::Compare(OpDataType::I32, spec_comparison_meaning(c)), |x: ShaderComparison| ScalarBinaryOp::Compare(OpDataType::I32, x));
}

/// A floating-point compare is read back as a comparison of the same registers read as
/// `f32`; its vector form is the vector twin of the float scalar compare.
pub proof fn law_float_compare_read_back(before: Seq<u8>, after: Seq<u8>, r: Result<(), SourceError>, t: &Token, dst: RegisterName, a: RegisterName, b: RegisterName, c: Comparison, mode: AssemblyMode, rest: Seq<u8>)
    requires
        spec_reg_legal(dst, mode),
        spec_reg_legal(a, mode),
        spec_reg_legal(b, mode),
        spec_fcmp_written(before, after, r, t, dst, a, b, c, mode),
    ensures
        compare_reads_back(before, after, rest, dst, a, b, c, mode,
            ScalarBinaryOp::Compare(OpDataType::F32, spec_comparison_meaning(c)), |x: ShaderComparison| ScalarBinaryOp::Compare(OpDataType::F32, x)),
        !all_scalar(dst, a, b) && !all_vector(dst, a, b) ==> r is Err && after == before,
{
    lemma_compare_reads_back(before, after, rest, dst, a, b, c, mode, 0x0Cu8, 0x0Du8,
        ScalarBinaryOp::Compare(OpDataType::F32, spec_comparison_meaning(c)), |x: ShaderComparison| ScalarBinaryOp::Compare(OpDataType::F32, x));
}

/// What `write_push` appends is read back as a push of the same register.
pub proof fn law_push_written_read_back(before: Seq<u8>, after: Seq<u8>, r: Result<(), SourceError>, src: RegisterName, mode: AssemblyMode, rest: Seq<u8>)
    requires
        spec_reg_legal(src, mode),
        spec_push_written(before, after, r, src, mode),
    ensures
        spec_decode(after + rest, before.len() as int) == Ok::<(ShaderInstruction, int), ShaderParseError>((
            if src.spec_is_vector() {
                ShaderInstruction::PushVector(spec_reg_address::<Vector>(src, mode))
            } else {
                ShaderInstruction::PushScalar(spec_reg_address::<Scalar>(src, mode))
            },
            before.len() as int + 3,
        )),
{
    law_push_read_back(before, src, mode, rest);
    assert(after + rest =~= before + seq![if src.spec_is_vector() { 0x00u8 } else { 0x01u8 }] + spec_reg_bytes(src, mode) + rest);
}

/// What `write_pop` appends is read back as a pop into the same register.
pub proof fn law_pop_written_read_back(before: Seq<u8>, after: Seq<u8>, r: Result<(), SourceError>, dst: RegisterName, mode: AssemblyMode, rest: Seq<u8>)
    requires
        spec_reg_legal(dst, mode),
        spec_pop_written(before, after, r, dst, mode),
    ensures
        spec_decode(after + rest, before.len() as int) == Ok::<(ShaderInstruction, int), ShaderParseError>((
            if dst.spec_is_vector() {
                ShaderInstruction::PopVector(spec_reg_address::<Vector>(dst, mode))
            } else {
                ShaderInstruction::PopScalar(spec_reg_address::<Scalar>(dst, mode))
            },
            before.len() as int + 3,
        )),
{
    law_pop_read_back(before, dst, mode, rest);
    assert(after + rest =~= before + seq![if dst.spec_is_vector() { 0x02u8 } else { 0x03u8 }] + spec_reg_bytes(dst, mode) + rest);
}

/// What `write_binary_op` appends, when it succeeds, is read back as the operation the
/// instruction stands for, of the same registers (see `law_binary_read_back`).
pub proof fn law_binary_written_read_back(before: Seq<u8>, after: Seq<u8>, r: Result<(), SourceError>, t: &Token, op: InstructionType, dst: RegisterName, a: RegisterName, b: RegisterName, mode: AssemblyMode, rest: Seq<u8>)
    requires
        spec_reg_legal(dst, mode),
        spec_reg_legal(a, mode),
        spec_reg_legal(b, mode),
        op != InstructionType::Cross,
        spec_binary_op_written(before, after, r, t, op, dst, a, b, mode),
        r is Ok,
    ensures
        spec_decode(after + rest, before.len() as int) == Ok::<(ShaderInstruction, int), ShaderParseError>((
            if dst.spec_is_vector() {
                ShaderInstruction::ScalarBinaryOp {
                    src_a: spec_reg_address::<Scalar>(a, mode),
                    src_b: spec_reg_address::<Scalar>(b, mode),
                    dst: spec_reg_address::<Scalar>(dst, mode),
                    op: spec_binary_meaning(op),
                }
            } else {
                ShaderInstruction::VectorComponentwiseScalarBinaryOp {
                    src_a: spec_reg_address::<Vector>(a, mode),
                    src_b: spec_reg_address::<Vector>(b, mode),
                    dst: spec_reg_address::<Vector>(dst, mode),
                    op: spec_binary_meaning(op),
                }
            },
            before.len() as int + 7,
        )),
{
    let opcode = spec_binary_opcode(op, dst.spec_is_vector(), a.spec_is_vector(), b.spec_is_vector()).unwrap();
    law_binary_read_back(before, op, dst, a, b, mode, rest);
    assert(after + rest =~= before + seq![opcode] + spec_reg_bytes(dst, mode) + spec_reg_bytes(a, mode) + spec_reg_bytes(b, mode) + rest);
}

/// What `write_unary_op` appends between registers of one kind, when it succeeds, is read
/// back as the operation the instruction stands for, of the same registers.
pub proof fn law_unary_written_read_back(before: Seq<u8>, after: Seq<u8>, r: Result<(), SourceError>, t: &Token, op: InstructionType, dst: RegisterName, src: RegisterName, mode: AssemblyMode, rest: Seq<u8>)
    requires
        spec_reg_legal(dst, mode),
        spec_reg_legal(src, mode),
        dst.spec_is_vector() == src.spec_is_vector(),
        !(op is Norm2 || op is Norm3 || op is Norm4),
        spec_unary_op_written(before, after, r, t, op, dst, src, mode),
        r is Ok,
    ensures
        spec_decode(after + rest, before.len() as int) == Ok::<(ShaderInstruction, int), ShaderParseError>((
            if dst.spec_is_vector() {
                ShaderInstruction::VectorComponentwiseScalarUnaryOp {
                    src: spec_reg_address::<Vector>(src, mode),
                    dst: spec_reg_address::<Vector>(dst, mode),
                    op: spec_unary_meaning(op),
                }
            } else {
                ShaderInstruction::ScalarUnaryOp {
                    src: spec_reg_address::<Scalar>(src, mode),
                    dst: spec_reg_address::<Scalar>(dst, mode),
                    op: spec_unary_meaning(op),
                }
            },
            before.len() as int + 5,
        )),
{
    let opcode = spec_unary_opcode(op, dst.spec_is_vector(), src.spec_is_vector()).unwrap();
    law_unary_read_back(before, op, dst, src, mode, rest);
    assert(after + rest =~= before + seq![opcode] + spec_reg_bytes(dst, mode) + spec_reg_bytes(src, mode) + rest);
}

} // verus!
