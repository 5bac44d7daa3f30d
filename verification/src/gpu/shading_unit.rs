//! The shading unit: register files, stacks, and the instructions on integers and on moving
//! data between registers, run on `n` lanes at once.
//!
//! Every register file is held lane after lane: lane `i` of register `r` is element
//! `r * CORE_COUNT + i`. Constant registers are uniform: one value for all lanes.

use vstd::prelude::*;
use super::shader::{
    read_bytes_u16, read_bytes_u32, read_bytes_u8, spec_read_bytes_u16, spec_read_bytes_u32, spec_read_bytes_u8,
    BufferReadType, BufferWriteType, Comparison, OpDataType, RegisterAddress, ResourceMap, Scalar, ScalarBinaryOp,
    ScalarUnaryOp, ShaderInstruction, TextureLoadType, Vector, VectorBufferReadType, VectorBufferWriteType, VectorChannel, CONST_COUNT,
    CORE_COUNT, INPUT_OUTPUT_COUNT, LOCAL_COUNT, STACK_SIZE,
};
use super::slots::native_word;
use super::texture::{be_value, layout_channel_bytes, layout_channels, le_value, texel_in_bounds, TextureModule};
use super::types::PixelDataLayout;
use crate::spu::envelope::{div_i32, trunc_div};

verus! {

/// The constant registers.
pub struct ShadingUnitConstantArray {
    pub scalar_constant_array: Vec<u32>,
    pub vector_constant_array: Vec<[u32; 4]>,
}

impl ShadingUnitConstantArray {
    /// One value per constant register.
    pub open spec fn wf(&self) -> bool {
        &&& self.scalar_constant_array@.len() == CONST_COUNT
        &&& self.vector_constant_array@.len() == CONST_COUNT
    }

    /// Constant registers all zero.
    pub fn new() -> (r: Self)
        ensures
            r.wf(),
            forall|k: int| 0 <= k < CONST_COUNT ==> r.scalar_constant_array@[k] == 0,
            forall|k: int| 0 <= k < CONST_COUNT ==> r.vector_constant_array@[k] == zero_vector(),
    {
        Self { scalar_constant_array: zeros(CONST_COUNT), vector_constant_array: zero_vectors(CONST_COUNT) }
    }
}

/// The vector of four zeros.
pub open spec fn zero_vector() -> [u32; 4] {
    [0u32, 0, 0, 0]
}

/// `n` zeros.
fn zeros(n: usize) -> (r: Vec<u32>)
    ensures
        r@.len() == n,
        forall|k: int| 0 <= k < n ==> r@[k] == 0,
{
    let mut v: Vec<u32> = Vec::with_capacity(n);
    while v.len() < n
        invariant
            v@.len() <= n,
            forall|k: int| 0 <= k < v@.len() ==> v@[k] == 0,
        decreases n - v@.len(),
    {
        v.push(0);
    }
    v
}

/// `n` zero vectors.
fn zero_vectors(n: usize) -> (r: Vec<[u32; 4]>)
    ensures
        r@.len() == n,
        forall|k: int| 0 <= k < n ==> r@[k] == zero_vector(),
{
    let mut v: Vec<[u32; 4]> = Vec::with_capacity(n);
    while v.len() < n
        invariant
            v@.len() <= n,
            forall|k: int| 0 <= k < v@.len() ==> v@[k] == zero_vector(),
        decreases n - v@.len(),
    {
        v.push([0u32, 0, 0, 0]);
    }
    v
}

/// The input or the output registers of all lanes.
pub struct ShadingUnitIOArray {
    pub scalar_array: Vec<u32>,
    pub vector_array: Vec<[u32; 4]>,
}

impl ShadingUnitIOArray {
    /// One value per register and lane.
    pub open spec fn wf(&self) -> bool {
        &&& self.scalar_array@.len() == INPUT_OUTPUT_COUNT * CORE_COUNT
        &&& self.vector_array@.len() == INPUT_OUTPUT_COUNT * CORE_COUNT
    }

    /// Registers all zero.
    pub fn new() -> (r: Self)
        ensures
            r.wf(),
            forall|k: int| 0 <= k < INPUT_OUTPUT_COUNT * CORE_COUNT ==> r.scalar_array@[k] == 0,
            forall|k: int| 0 <= k < INPUT_OUTPUT_COUNT * CORE_COUNT ==> r.vector_array@[k] == zero_vector(),
    {
        Self {
            scalar_array: zeros(INPUT_OUTPUT_COUNT * CORE_COUNT),
            vector_array: zero_vectors(INPUT_OUTPUT_COUNT * CORE_COUNT),
        }
    }
}

/// The registers a shader run reads and writes besides its own: constants, inputs, outputs.
pub struct ShadingUnitRunContext {
    pub constants: ShadingUnitConstantArray,
    pub input: ShadingUnitIOArray,
    pub output: ShadingUnitIOArray,
}

impl ShadingUnitRunContext {
    /// All three register files are whole.
    pub open spec fn wf(&self) -> bool {
        self.constants.wf() && self.input.wf() && self.output.wf()
    }

    /// The run context of a shader run.
    pub fn new(constant_array: ShadingUnitConstantArray, input_array: ShadingUnitIOArray, output_array: ShadingUnitIOArray) -> (r: Self)
        ensures
            r.constants == constant_array,
            r.input == input_array,
            r.output == output_array,
    {
        Self { constants: constant_array, input: input_array, output: output_array }
    }
}

/// A shading unit's own state: its two stacks and its local registers.
pub struct ShadingUnitContext {
    pub scalar_stack_array: Vec<u32>,
    pub scalar_stack_size: usize,
    pub vector_stack_array: Vec<[u32; 4]>,
    pub vector_stack_size: usize,
    pub scalar_locals: Vec<u32>,
    pub vector_locals: Vec<[u32; 4]>,
}

/// Where lane `i` of register `k` is kept.
pub open spec fn slot(k: int, i: int) -> int {
    k * CORE_COUNT + i
}

impl ShadingUnitContext {
    /// Stacks of `STACK_SIZE` slots and `LOCAL_COUNT` local registers, of all lanes.
    pub open spec fn wf(&self) -> bool {
        &&& self.scalar_stack_array@.len() == STACK_SIZE * CORE_COUNT
        &&& self.vector_stack_array@.len() == STACK_SIZE * CORE_COUNT
        &&& self.scalar_locals@.len() == LOCAL_COUNT * CORE_COUNT
        &&& self.vector_locals@.len() == LOCAL_COUNT * CORE_COUNT
    }

    /// A unit with empty stacks and all registers zero.
    pub fn new() -> (r: Self)
        ensures
            r.wf(),
            r.scalar_stack_size == 0,
            r.vector_stack_size == 0,
            forall|k: int| 0 <= k < STACK_SIZE * CORE_COUNT ==> r.scalar_stack_array@[k] == 0,
            forall|k: int| 0 <= k < STACK_SIZE * CORE_COUNT ==> r.vector_stack_array@[k] == zero_vector(),
            forall|k: int| 0 <= k < LOCAL_COUNT * CORE_COUNT ==> r.scalar_locals@[k] == 0,
            forall|k: int| 0 <= k < LOCAL_COUNT * CORE_COUNT ==> r.vector_locals@[k] == zero_vector(),
    {
        Self {
            scalar_stack_array: zeros(STACK_SIZE * CORE_COUNT),
            scalar_stack_size: 0,
            vector_stack_array: zero_vectors(STACK_SIZE * CORE_COUNT),
            vector_stack_size: 0,
            scalar_locals: zeros(LOCAL_COUNT * CORE_COUNT),
            vector_locals: zero_vectors(LOCAL_COUNT * CORE_COUNT),
        }
    }
}

/// Whether a scalar register exists: local registers are fewer than the others.
pub open spec fn scalar_reg_ok(a: RegisterAddress<Scalar>) -> bool {
    match a {
        RegisterAddress::Local(k, _) => (k as int) < LOCAL_COUNT,
        _ => true,
    }
}

/// Whether a vector register exists.
pub open spec fn vector_reg_ok(a: RegisterAddress<Vector>) -> bool {
    match a {
        RegisterAddress::Local(k, _) => (k as int) < LOCAL_COUNT,
        _ => true,
    }
}

/// Lane `i` of a scalar register.
pub open spec fn scalar_lane(u: &ShadingUnitContext, rc: &ShadingUnitRunContext, a: RegisterAddress<Scalar>, i: int) -> u32 {
    match a {
        RegisterAddress::Constant(k, _) => rc.constants.scalar_constant_array@[k as int],
        RegisterAddress::Input(k, _) => rc.input.scalar_array@[slot(k as int, i)],
        RegisterAddress::Local(k, _) => u.scalar_locals@[slot(k as int, i)],
        RegisterAddress::Output(k, _) => rc.output.scalar_array@[slot(k as int, i)],
    }
}

/// Lane `i` of a vector register.
pub open spec fn vector_lane(u: &ShadingUnitContext, rc: &ShadingUnitRunContext, a: RegisterAddress<Vector>, i: int) -> [u32; 4] {
    match a {
        RegisterAddress::Constant(k, _) => rc.constants.vector_constant_array@[k as int],
        RegisterAddress::Input(k, _) => rc.input.vector_array@[slot(k as int, i)],
        RegisterAddress::Local(k, _) => u.vector_locals@[slot(k as int, i)],
        RegisterAddress::Output(k, _) => rc.output.vector_array@[slot(k as int, i)],
    }
}

/// Whether a register can be written: locals and outputs.
pub open spec fn writable<T: super::shader::RegisterType>(a: RegisterAddress<T>) -> bool {
    a is Local || a is Output
}

/// `before` with lanes `0..vals.len()` of the register starting at `base` replaced by `vals`.
pub open spec fn with_lanes<T>(before: Seq<T>, base: int, vals: Seq<T>) -> Seq<T> {
    Seq::new(before.len(), |j: int| if base <= j < base + vals.len() { vals[j - base] } else { before[j] })
}

/// The registers after the first lanes of scalar register `dst` take the values `vals`; the
/// stack depths are not spoken of.
pub open spec fn scalar_written(u0: ShadingUnitContext, rc0: ShadingUnitRunContext, u1: ShadingUnitContext, rc1: ShadingUnitRunContext, dst: RegisterAddress<Scalar>, vals: Seq<u32>) -> bool {
    &&& u1.scalar_stack_array == u0.scalar_stack_array
    &&& u1.vector_stack_array == u0.vector_stack_array
    &&& u1.vector_locals == u0.vector_locals
    &&& rc1.constants == rc0.constants
    &&& rc1.input == rc0.input
    &&& rc1.output.vector_array == rc0.output.vector_array
    &&& match dst {
        RegisterAddress::Local(k, _) => u1.scalar_locals@ == with_lanes(u0.scalar_locals@, slot(k as int, 0), vals)
            && rc1.output.scalar_array == rc0.output.scalar_array,
        RegisterAddress::Output(k, _) => rc1.output.scalar_array@ == with_lanes(rc0.output.scalar_array@, slot(k as int, 0), vals)
            && u1.scalar_locals == u0.scalar_locals,
        _ => false,
    }
}

/// The registers after the first lanes of vector register `dst` take the values `vals`; the
/// stack depths are not spoken of.
pub open spec fn vector_written(u0: ShadingUnitContext, rc0: ShadingUnitRunContext, u1: ShadingUnitContext, rc1: ShadingUnitRunContext, dst: RegisterAddress<Vector>, vals: Seq<[u32; 4]>) -> bool {
    &&& u1.scalar_stack_array == u0.scalar_stack_array
    &&& u1.vector_stack_array == u0.vector_stack_array
    &&& u1.scalar_locals == u0.scalar_locals
    &&& rc1.constants == rc0.constants
    &&& rc1.input == rc0.input
    &&& rc1.output.scalar_array == rc0.output.scalar_array
    &&& match dst {
        RegisterAddress::Local(k, _) => u1.vector_locals@ == with_lanes(u0.vector_locals@, slot(k as int, 0), vals)
            && rc1.output.vector_array == rc0.output.vector_array,
        RegisterAddress::Output(k, _) => rc1.output.vector_array@ == with_lanes(rc0.output.vector_array@, slot(k as int, 0), vals)
            && u1.vector_locals == u0.vector_locals,
        _ => false,
    }
}

/// `x` read as a signed 32-bit value.
pub open spec fn signed(x: u32) -> int {
    (x as i32) as int
}

/// A comparison of two values as the operation reads them: 1 when it holds, 0 otherwise.
pub open spec fn spec_compare(c: Comparison, a: int, b: int) -> u32 {
    if match c {
        Comparison::Equal => a == b,
        Comparison::NotEqual => a != b,
        Comparison::GreaterThan => a > b,
        Comparison::LessThanOrEqual => a <= b,
    } { 1 } else { 0 }
}

/// What a two-operand operation gives on one lane, for the operations on integers;
/// `None` for those on floating-point values.
pub open spec fn spec_int_binary(op: ScalarBinaryOp, a: u32, b: u32) -> Option<u32> {
    match op {
        ScalarBinaryOp::Compare(OpDataType::I32, c) => Some(spec_compare(c, signed(a), signed(b))),
        ScalarBinaryOp::CompareUnsigned(c) => Some(spec_compare(c, a as int, b as int)),
        ScalarBinaryOp::And => Some(a & b),
        ScalarBinaryOp::AndNot => Some(a & !b),
        ScalarBinaryOp::Or => Some(a | b),
        ScalarBinaryOp::Xor => Some(a ^ b),
        ScalarBinaryOp::Add(OpDataType::I32) => Some(a.wrapping_add(b)),
        ScalarBinaryOp::Subtract(OpDataType::I32) => Some(a.wrapping_sub(b)),
        ScalarBinaryOp::Multiply(OpDataType::I32) => Some(a.wrapping_mul(b)),
        ScalarBinaryOp::Divide(OpDataType::I32) => Some(trunc_div(signed(a), signed(b)) as u32),
        ScalarBinaryOp::Modulo(OpDataType::I32) => Some((signed(a) - signed(b) * trunc_div(signed(a), signed(b))) as u32),
        _ => None,
    }
}

/// Bit `i` of `x` is set.
pub open spec fn bit_set(x: u32, i: u32) -> bool {
    (x >> i) & 1 == 1
}

/// The bitwise operations work bit by bit: bit `i` of the result of `And` is set when it is
/// set in both operands, of `AndNot` when it is set in the first and not the second, of `Or`
/// when it is set in either, and of `Xor` when it is set in exactly one.
pub proof fn law_bitwise_lanes(a: u32, b: u32, i: u32)
    requires
        i < 32,
    ensures
        spec_int_binary(ScalarBinaryOp::And, a, b) matches Some(r) && bit_set(r, i) == (bit_set(a, i) && bit_set(b, i)),
        spec_int_binary(ScalarBinaryOp::AndNot, a, b) matches Some(r) && bit_set(r, i) == (bit_set(a, i) && !bit_set(b, i)),
        spec_int_binary(ScalarBinaryOp::Or, a, b) matches Some(r) && bit_set(r, i) == (bit_set(a, i) || bit_set(b, i)),
        spec_int_binary(ScalarBinaryOp::Xor, a, b) matches Some(r) && bit_set(r, i) == (bit_set(a, i) != bit_set(b, i)),
{
    assert({
        &&& (((a & b) >> i) & 1 == 1) == (((a >> i) & 1 == 1) && ((b >> i) & 1 == 1))
        &&& (((a & !b) >> i) & 1 == 1) == (((a >> i) & 1 == 1) && !((b >> i) & 1 == 1))
        &&& (((a | b) >> i) & 1 == 1) == (((a >> i) & 1 == 1) || ((b >> i) & 1 == 1))
        &&& (((a ^ b) >> i) & 1 == 1) == (((a >> i) & 1 == 1) != ((b >> i) & 1 == 1))
    }) by (bit_vector) requires i < 32;
}

/// Integer addition, subtraction and multiplication wrap around 2^32: the sum and product
/// are the true ones modulo 2^32, and adding the second operand back to a difference gives the
/// first.
pub proof fn law_arithmetic_lanes(a: u32, b: u32)
    ensures
        spec_int_binary(ScalarBinaryOp::Add(OpDataType::I32), a, b) matches Some(r) && r as int == (a + b) % 0x1_0000_0000,
        spec_int_binary(ScalarBinaryOp::Subtract(OpDataType::I32), a, b) matches Some(r) && (r + b) % 0x1_0000_0000 == a as int,
        spec_int_binary(ScalarBinaryOp::Multiply(OpDataType::I32), a, b) matches Some(r) && r as int == (a * b) % 0x1_0000_0000,
{
    assert(a.wrapping_add(b) as int == (a + b) % 0x1_0000_0000);
    assert((a.wrapping_sub(b) + b) % 0x1_0000_0000 == a as int);
    assert(a.wrapping_mul(b) as int == (a * b) % 0x1_0000_0000);
}

/// Comparisons give 1 when they hold and 0 otherwise; `Compare` on integers reads the words
/// as signed two's complement values, `CompareUnsigned` as unsigned ones.
pub proof fn law_compare_lanes(a: u32, b: u32)
    ensures
        spec_int_binary(ScalarBinaryOp::Compare(OpDataType::I32, Comparison::GreaterThan), a, b)
            == Some(if (a as i32) > (b as i32) { 1u32 } else { 0u32 }),
        spec_int_binary(ScalarBinaryOp::Compare(OpDataType::I32, Comparison::LessThanOrEqual), a, b)
            == Some(if (a as i32) <= (b as i32) { 1u32 } else { 0u32 }),
        spec_int_binary(ScalarBinaryOp::Compare(OpDataType::I32, Comparison::Equal), a, b) == Some(if a == b { 1u32 } else { 0u32 }),
        spec_int_binary(ScalarBinaryOp::Compare(OpDataType::I32, Comparison::NotEqual), a, b) == Some(if a != b { 1u32 } else { 0u32 }),
        spec_int_binary(ScalarBinaryOp::CompareUnsigned(Comparison::GreaterThan), a, b) == Some(if a > b { 1u32 } else { 0u32 }),
        spec_int_binary(ScalarBinaryOp::CompareUnsigned(Comparison::LessThanOrEqual), a, b) == Some(if a <= b { 1u32 } else { 0u32 }),
        spec_int_binary(ScalarBinaryOp::CompareUnsigned(Comparison::Equal), a, b) == Some(if a == b { 1u32 } else { 0u32 }),
        spec_int_binary(ScalarBinaryOp::CompareUnsigned(Comparison::NotEqual), a, b) == Some(if a != b { 1u32 } else { 0u32 }),
{
    assert(((a as i32) == (b as i32)) == (a == b)) by (bit_vector);
}

/// Whether a two-operand integer operation is defined on the lane: no division by zero, no
/// remainder of the least value by -1.
pub open spec fn spec_int_binary_defined(op: ScalarBinaryOp, a: u32, b: u32) -> bool {
    match op {
        ScalarBinaryOp::Divide(OpDataType::I32) => b != 0,
        ScalarBinaryOp::Modulo(OpDataType::I32) => b != 0 && !(a == 0x8000_0000 && b == 0xFFFF_FFFF),
        _ => true,
    }
}

/// Whether `op` is an operation on integers.
pub open spec fn spec_is_int_binary(op: ScalarBinaryOp) -> bool {
    spec_int_binary(op, 0, 1) is Some
}

/// What a one-operand operation gives on one lane, for the operations on integers.
pub open spec fn spec_int_unary(op: ScalarUnaryOp, x: u32) -> Option<u32> {
    match op {
        ScalarUnaryOp::Negative(OpDataType::I32) => Some((0 - signed(x)) as u32),
        ScalarUnaryOp::Sign(OpDataType::I32) => Some(if signed(x) > 0 { 1u32 } else if signed(x) < 0 { 0xFFFF_FFFFu32 } else { 0u32 }),
        _ => None,
    }
}

/// Whether `op` is an operation on integers.
pub open spec fn spec_is_int_unary(op: ScalarUnaryOp) -> bool {
    spec_int_unary(op, 0) is Some
}

/// Whether a one-operand integer operation is defined on the lane: the least value has no
/// negation.
pub open spec fn spec_int_unary_defined(op: ScalarUnaryOp, x: u32) -> bool {
    op == ScalarUnaryOp::Negative(OpDataType::I32) ==> x != 0x8000_0000
}

/// How a word reads as a signed value at the edges that division and negation care about.
proof fn lemma_signed_edges(x: u32)
    ensures
        (x as i32 == 0) == (x == 0),
        (x as i32 == i32::MIN) == (x == 0x8000_0000),
        (x as i32 == -1) == (x == 0xFFFF_FFFF),
{
    assert((x as i32 == 0) == (x == 0) && (x as i32 == i32::MIN) == (x == 0x8000_0000)
        && (x as i32 == -1) == (x == 0xFFFF_FFFF)) by (bit_vector);
}

/// A value in the signed 32-bit range, stored as a word, reads back as itself.
proof fn lemma_signed_round_trip(v: int)
    requires
        i32::MIN <= v <= i32::MAX,
    ensures
        signed(v as u32) == v,
{
    let x = v as i32;
    assert(x as int == v);
    assert((x as u32) as i32 == x) by (bit_vector);
    assert(v as u32 == x as u32);
}

/// Integer division and remainder fit together as in Rust's `/` and `%` on `i32`: the first
/// operand is the quotient times the second plus the remainder, the remainder is smaller
/// than the second operand in size, and it is 0 or has the first operand's sign.
pub proof fn law_divide_and_modulo_lanes(a: u32, b: u32)
    requires
        b != 0,
        !(a == 0x8000_0000 && b == 0xFFFF_FFFF),
    ensures
        spec_int_binary(ScalarBinaryOp::Divide(OpDataType::I32), a, b) matches Some(q)
            && spec_int_binary(ScalarBinaryOp::Modulo(OpDataType::I32), a, b) matches Some(m)
            && signed(a) == signed(q) * signed(b) + signed(m)
            && (if signed(m) < 0 { -signed(m) } else { signed(m) }) < (if signed(b) < 0 { -signed(b) } else { signed(b) })
            && (signed(m) == 0 || (signed(m) < 0) == (signed(a) < 0)),
{
    let x = signed(a);
    let y = signed(b);
    lemma_signed_edges(a);
    lemma_signed_edges(b);
    assert(y != 0);
    let ax = if x < 0 { -x } else { x };
    let ay = if y < 0 { -y } else { y };
    let d = ax / ay;
    let r = ax % ay;
    assert(ax == d * ay + r && 0 <= r < ay && 0 <= d <= ax) by (nonlinear_arith)
        requires ax >= 0, ay >= 1, d == ax / ay, r == ax % ay;
    let q = trunc_div(x, y);
    assert(q == if (x >= 0) == (y > 0) || x == 0 { d } else { -d });
    assert(x == q * y + (x - y * q)) by (nonlinear_arith);
    let m = x - y * q;
    if x >= 0 && y > 0 {
        assert(m == r) by (nonlinear_arith) requires q == d, m == x - y * q, ax == x, ay == y, ax == d * ay + r;
    } else if x >= 0 {
        if x == 0 {
            assert(d == 0 && r == 0) by (nonlinear_arith) requires ax == 0, ay >= 1, ax == d * ay + r, 0 <= r < ay, d >= 0;
            assert(m == r) by (nonlinear_arith) requires q == d, d == 0, m == x - y * q, x == 0, r == 0;
        } else {
            assert(m == r) by (nonlinear_arith) requires q == -d, m == x - y * q, ax == x, ay == -y, ax == d * ay + r;
        }
    } else if y > 0 {
        assert(m == -r) by (nonlinear_arith) requires q == -d, m == x - y * q, ax == -x, ay == y, ax == d * ay + r;
    } else {
        assert(m == -r) by (nonlinear_arith) requires q == d, m == x - y * q, ax == -x, ay == -y, ax == d * ay + r;
    }
    assert(-0x8000_0000 <= q <= 0x7FFF_FFFF) by (nonlinear_arith)
        requires
            0 <= d <= ax,
            q == (if (x >= 0) == (y > 0) || x == 0 { d } else { -d }),
            -0x8000_0000 <= x <= 0x7FFF_FFFF,
            ax == (if x < 0 { -x } else { x }),
            ay == (if y < 0 { -y } else { y }),
            ay >= 1,
            ax == d * ay + r, 0 <= r,
            !(x == -0x8000_0000 && y == -1);
    lemma_signed_round_trip(q);
    lemma_signed_round_trip(m);
}

/// Integer negation gives the value that adds to the operand to make 0; the sign of an
/// integer is -1, 0 or 1, and times the operand's size gives the operand back.
pub proof fn law_negate_and_sign_lanes(x: u32)
    ensures
        x != 0x8000_0000 ==> (spec_int_unary(ScalarUnaryOp::Negative(OpDataType::I32), x) matches Some(r)
            && signed(r) + signed(x) == 0),
        spec_int_unary(ScalarUnaryOp::Sign(OpDataType::I32), x) matches Some(r)
            && -1 <= signed(r) <= 1
            && (signed(r) == 0) == (signed(x) == 0)
            && signed(r) * (if signed(x) < 0 { -signed(x) } else { signed(x) }) == signed(x),
{
    lemma_signed_edges(x);
    lemma_signed_edges(0xFFFF_FFFF);
    lemma_signed_edges(0);
    lemma_signed_round_trip(1);
    assert(signed(1u32) == 1 && signed(0u32) == 0 && signed(0xFFFF_FFFFu32) == -1);
    let r = spec_int_unary(ScalarUnaryOp::Sign(OpDataType::I32), x).unwrap();
    let v = signed(x);
    if v > 0 {
        assert(r == 1u32);
        assert(signed(r) * v == v);
    } else if v < 0 {
        assert(r == 0xFFFF_FFFFu32);
        assert(signed(r) * (-v) == v);
    } else {
        assert(r == 0u32);
    }
    if x != 0x8000_0000 {
        lemma_signed_round_trip(0 - signed(x));
    }
}

/// One lane of a two-operand integer operation.
pub fn int_binary_lane(op: ScalarBinaryOp, a: u32, b: u32) -> (r: u32)
    requires
        spec_is_int_binary(op),
        spec_int_binary_defined(op, a, b),
    ensures
        Some(r) == spec_int_binary(op, a, b),
{
    match op {
        ScalarBinaryOp::Compare(_, c) => {
            let x = a as i32;
            let y = b as i32;
            let holds = match c {
                Comparison::Equal => x == y,
                Comparison::NotEqual => x != y,
                Comparison::GreaterThan => x > y,
                Comparison::LessThanOrEqual => x <= y,
            };
            if holds { 1 } else { 0 }
        },
        ScalarBinaryOp::CompareUnsigned(c) => {
            let holds = match c {
                Comparison::Equal => a == b,
                Comparison::NotEqual => a != b,
                Comparison::GreaterThan => a > b,
                Comparison::LessThanOrEqual => a <= b,
            };
            if holds { 1 } else { 0 }
        },
        ScalarBinaryOp::And => a & b,
        ScalarBinaryOp::AndNot => a & !b,
        ScalarBinaryOp::Or => a | b,
        ScalarBinaryOp::Xor => a ^ b,
        ScalarBinaryOp::Add(_) => a.wrapping_add(b),
        ScalarBinaryOp::Subtract(_) => a.wrapping_sub(b),
        ScalarBinaryOp::Multiply(_) => a.wrapping_mul(b),
        ScalarBinaryOp::Divide(_) => {
            let x = a as i32;
            let y = b as i32;
            proof {
                lemma_signed_edges(a);
                lemma_signed_edges(b);
            }
            if x == i32::MIN && y == -1 {
                proof {
                    assert(signed(a) == -0x8000_0000 && signed(b) == -1);
                    assert(trunc_div(-0x8000_0000, -1) == 0x8000_0000);
                }
                0x8000_0000u32
            } else {
                div_i32(x, y) as u32
            }
        },
        _ => {
            let x = a as i32;
            let y = b as i32;
            proof {
                lemma_signed_edges(a);
                lemma_signed_edges(b);
            }
            let q = div_i32(x, y);
            proof {
                assert(-0x8000_0000 <= x - y * q <= 0x7FFF_FFFF) by (nonlinear_arith)
                    requires
                        q == trunc_div(x as int, y as int),
                        y != 0,
                        -0x8000_0000 <= x <= 0x7FFF_FFFF,
                        -0x8000_0000 <= y <= 0x7FFF_FFFF;
            }
            let r = (x as i64) - (y as i64) * (q as i64);
            (r as i32) as u32
        },
    }
}

/// One lane of a one-operand integer operation.
pub fn int_unary_lane(op: ScalarUnaryOp, x: u32) -> (r: u32)
    requires
        spec_is_int_unary(op),
        spec_int_unary_defined(op, x),
    ensures
        Some(r) == spec_int_unary(op, x),
{
    let v = x as i32;
    proof {
        lemma_signed_edges(x);
    }
    match op {
        ScalarUnaryOp::Negative(_) => (-v) as u32,
        _ => {
            if v > 0 {
                1
            } else if v < 0 {
                0xFFFF_FFFF
            } else {
                0
            }
        },
    }
}

/// Lane `i` of a scalar register, read.
fn read_scalar(u: &ShadingUnitContext, rc: &ShadingUnitRunContext, a: RegisterAddress<Scalar>, i: usize) -> (r: u32)
    requires
        u.wf(),
        rc.wf(),
        scalar_reg_ok(a),
        i < CORE_COUNT,
    ensures
        r == scalar_lane(u, rc, a, i as int),
{
    match a {
        RegisterAddress::Constant(k, _) => rc.constants.scalar_constant_array[k as usize],
        RegisterAddress::Input(k, _) => rc.input.scalar_array[k as usize * CORE_COUNT + i],
        RegisterAddress::Local(k, _) => u.scalar_locals[k as usize * CORE_COUNT + i],
        RegisterAddress::Output(k, _) => rc.output.scalar_array[k as usize * CORE_COUNT + i],
    }
}

/// Lane `i` of a vector register, read.
fn read_vector(u: &ShadingUnitContext, rc: &ShadingUnitRunContext, a: RegisterAddress<Vector>, i: usize) -> (r: [u32; 4])
    requires
        u.wf(),
        rc.wf(),
        vector_reg_ok(a),
        i < CORE_COUNT,
    ensures
        r == vector_lane(u, rc, a, i as int),
{
    match a {
        RegisterAddress::Constant(k, _) => rc.constants.vector_constant_array[k as usize],
        RegisterAddress::Input(k, _) => rc.input.vector_array[k as usize * CORE_COUNT + i],
        RegisterAddress::Local(k, _) => u.vector_locals[k as usize * CORE_COUNT + i],
        RegisterAddress::Output(k, _) => rc.output.vector_array[k as usize * CORE_COUNT + i],
    }
}

/// Puts `vals` into `dst` from position `base` on.
fn write_lanes<T: Copy>(dst: &mut Vec<T>, base: usize, vals: &Vec<T>)
    requires
        base + vals@.len() <= old(dst)@.len(),
    ensures
        final(dst)@ == with_lanes(old(dst)@, base as int, vals@),
{
    let ghost d0 = dst@;
    let len0 = dst.len();
    let mut j: usize = 0;
    while j < vals.len()
        invariant
            j <= vals@.len(),
            base + vals@.len() <= d0.len(),
            dst@.len() == d0.len(),
            d0.len() == len0,
            dst@ == with_lanes(d0, base as int, vals@.take(j as int)),
        decreases vals@.len() - j,
    {
        dst.set(base + j, vals[j]);
        j += 1;
        assert(dst@ =~= with_lanes(d0, base as int, vals@.take(j as int)));
    }
    assert(vals@.take(vals@.len() as int) =~= vals@);
}

/// Writes the first lanes of a writable scalar register.
fn write_scalar(u: &mut ShadingUnitContext, rc: &mut ShadingUnitRunContext, dst: RegisterAddress<Scalar>, vals: &Vec<u32>)
    requires
        old(u).wf(),
        old(rc).wf(),
        writable(dst),
        scalar_reg_ok(dst),
        vals@.len() <= CORE_COUNT,
    ensures
        final(u).wf(),
        final(rc).wf(),
        final(u).scalar_stack_size == old(u).scalar_stack_size,
        final(u).vector_stack_size == old(u).vector_stack_size,
        scalar_written(*old(u), *old(rc), *final(u), *final(rc), dst, vals@),
{
    match dst {
        RegisterAddress::Local(k, _) => write_lanes(&mut u.scalar_locals, k as usize * CORE_COUNT, vals),
        RegisterAddress::Output(k, _) => write_lanes(&mut rc.output.scalar_array, k as usize * CORE_COUNT, vals),
        _ => {},
    }
}

/// Writes the first lanes of a writable vector register.
fn write_vector(u: &mut ShadingUnitContext, rc: &mut ShadingUnitRunContext, dst: RegisterAddress<Vector>, vals: &Vec<[u32; 4]>)
    requires
        old(u).wf(),
        old(rc).wf(),
        writable(dst),
        vector_reg_ok(dst),
        vals@.len() <= CORE_COUNT,
    ensures
        final(u).wf(),
        final(rc).wf(),
        final(u).scalar_stack_size == old(u).scalar_stack_size,
        final(u).vector_stack_size == old(u).vector_stack_size,
        vector_written(*old(u), *old(rc), *final(u), *final(rc), dst, vals@),
{
    match dst {
        RegisterAddress::Local(k, _) => write_lanes(&mut u.vector_locals, k as usize * CORE_COUNT, vals),
        RegisterAddress::Output(k, _) => write_lanes(&mut rc.output.vector_array, k as usize * CORE_COUNT, vals),
        _ => {},
    }
}

/// Whether two registers are the same one: same kind and same number.
pub open spec fn same_register<T: super::shader::RegisterType>(a: RegisterAddress<T>, b: RegisterAddress<T>) -> bool {
    match (a, b) {
        (RegisterAddress::Local(x, _), RegisterAddress::Local(y, _)) => x == y,
        (RegisterAddress::Constant(x, _), RegisterAddress::Constant(y, _)) => x == y,
        (RegisterAddress::Input(x, _), RegisterAddress::Input(y, _)) => x == y,
        (RegisterAddress::Output(x, _), RegisterAddress::Output(y, _)) => x == y,
        _ => false,
    }
}

/// Whether two registers are the same one.
pub fn is_same_register<T: super::shader::RegisterType>(a: &RegisterAddress<T>, b: &RegisterAddress<T>) -> (r: bool)
    ensures
        r == same_register(*a, *b),
{
    match (a, b) {
        (RegisterAddress::Local(x, _), RegisterAddress::Local(y, _)) => *x == *y,
        (RegisterAddress::Constant(x, _), RegisterAddress::Constant(y, _)) => *x == *y,
        (RegisterAddress::Input(x, _), RegisterAddress::Input(y, _)) => *x == *y,
        (RegisterAddress::Output(x, _), RegisterAddress::Output(y, _)) => *x == *y,
        _ => false,
    }
}

/// Whether a register can be written.
pub fn is_writable<T: super::shader::RegisterType>(a: &RegisterAddress<T>) -> (r: bool)
    ensures
        r == writable(*a),
{
    match a {
        RegisterAddress::Local(..) => true,
        RegisterAddress::Output(..) => true,
        _ => false,
    }
}

/// `v` with component `c` replaced by `x`.
pub open spec fn with_component(v: [u32; 4], c: int, x: u32) -> [u32; 4] {
    [
        if c == 0 { x } else { v[0] },
        if c == 1 { x } else { v[1] },
        if c == 2 { x } else { v[2] },
        if c == 3 { x } else { v[3] },
    ]
}

/// `v` with the components whose bit is set in `mask` replaced by `x`.
pub open spec fn with_masked(v: [u32; 4], mask: u8, x: u32) -> [u32; 4] {
    [
        if mask & 1 != 0 { x } else { v[0] },
        if mask & 2 != 0 { x } else { v[1] },
        if mask & 4 != 0 { x } else { v[2] },
        if mask & 8 != 0 { x } else { v[3] },
    ]
}

/// A one-operand integer operation on each component.
pub open spec fn unary4(op: ScalarUnaryOp, v: [u32; 4]) -> [u32; 4] {
    [
        spec_int_unary(op, v[0]).unwrap(),
        spec_int_unary(op, v[1]).unwrap(),
        spec_int_unary(op, v[2]).unwrap(),
        spec_int_unary(op, v[3]).unwrap(),
    ]
}

/// A one-operand integer operation on the components whose bit is set in `mask`; the others
/// are taken from `dst`.
pub open spec fn unary4_masked(op: ScalarUnaryOp, v: [u32; 4], dst: [u32; 4], mask: u8) -> [u32; 4] {
    [
        if mask & 1 != 0 { spec_int_unary(op, v[0]).unwrap() } else { dst[0] },
        if mask & 2 != 0 { spec_int_unary(op, v[1]).unwrap() } else { dst[1] },
        if mask & 4 != 0 { spec_int_unary(op, v[2]).unwrap() } else { dst[2] },
        if mask & 8 != 0 { spec_int_unary(op, v[3]).unwrap() } else { dst[3] },
    ]
}

/// A two-operand integer operation on each pair of components.
pub open spec fn binary4(op: ScalarBinaryOp, a: [u32; 4], b: [u32; 4]) -> [u32; 4] {
    [
        spec_int_binary(op, a[0], b[0]).unwrap(),
        spec_int_binary(op, a[1], b[1]).unwrap(),
        spec_int_binary(op, a[2], b[2]).unwrap(),
        spec_int_binary(op, a[3], b[3]).unwrap(),
    ]
}

/// Multiply-add on 32-bit words, each step wrapping.
pub open spec fn spec_fma(a: u32, b: u32, c: u32) -> u32 {
    a.wrapping_mul(b).wrapping_add(c)
}

/// Multiply-add on each triple of components.
pub open spec fn fma4(a: [u32; 4], b: [u32; 4], c: [u32; 4]) -> [u32; 4] {
    [spec_fma(a[0], b[0], c[0]), spec_fma(a[1], b[1], c[1]), spec_fma(a[2], b[2], c[2]), spec_fma(a[3], b[3], c[3])]
}

/// An element of width `t` at `off` in `bytes`, zero-extended; 0 when it does not fit.
pub open spec fn spec_buffer_element(t: BufferReadType, bytes: Seq<u8>, off: int) -> u32 {
    match t {
        BufferReadType::D8 => spec_read_bytes_u8(bytes, off) as u32,
        BufferReadType::D16 => spec_read_bytes_u16(bytes, off) as u32,
        BufferReadType::D32 => spec_read_bytes_u32(bytes, off),
    }
}

/// The width in bytes of an element.
pub open spec fn element_width(t: BufferReadType) -> int {
    match t {
        BufferReadType::D8 => 1,
        BufferReadType::D16 => 2,
        BufferReadType::D32 => 4,
    }
}

/// The vector read at `off` in `bytes`: one to four consecutive elements, the missing
/// components zero.
pub open spec fn spec_buffer_vector(t: VectorBufferReadType, bytes: Seq<u8>, off: int) -> [u32; 4] {
    match t {
        VectorBufferReadType::Scalar(e) => [spec_buffer_element(e, bytes, off), 0, 0, 0],
        VectorBufferReadType::V2(e) => [
            spec_buffer_element(e, bytes, off),
            spec_buffer_element(e, bytes, off + element_width(e)),
            0,
            0,
        ],
        VectorBufferReadType::V3(e) => [
            spec_buffer_element(e, bytes, off),
            spec_buffer_element(e, bytes, off + element_width(e)),
            spec_buffer_element(e, bytes, off + 2 * element_width(e)),
            0,
        ],
        VectorBufferReadType::V4(e) => [
            spec_buffer_element(e, bytes, off),
            spec_buffer_element(e, bytes, off + element_width(e)),
            spec_buffer_element(e, bytes, off + 2 * element_width(e)),
            spec_buffer_element(e, bytes, off + 3 * element_width(e)),
        ],
    }
}

/// The byte address lane `i` reads at: the offset, plus the lane's value of the address
/// register when there is one.
pub open spec fn read_address(
    u: ShadingUnitContext,
    rc: ShadingUnitRunContext,
    offset: u32,
    addr: Option<RegisterAddress<Scalar>>,
    i: int,
) -> int {
    offset + match addr {
        Some(a) => scalar_lane(&u, &rc, a, i) as int,
        None => 0,
    }
}

/// The bytes of the buffer that buffer number `b` maps to.
pub open spec fn mapped_buffer(buffers: Seq<Vec<u8>>, rm: ResourceMap, b: u8) -> Seq<u8> {
    buffers[rm.buffer@[b as int] as int]@
}

/// Whether a buffer format is written without conversion from floating point.
pub open spec fn write_is_int(t: BufferWriteType) -> bool {
    !(t is INorm8 || t is INorm16 || t is INorm32 || t is UNorm8 || t is UNorm16 || t is UNorm32)
}

/// The bytes of one element of a buffer format.
pub open spec fn write_width(t: BufferWriteType) -> int {
    match t {
        BufferWriteType::I8 | BufferWriteType::U8 | BufferWriteType::INorm8 | BufferWriteType::UNorm8 => 1,
        BufferWriteType::I16 | BufferWriteType::U16 | BufferWriteType::INorm16 | BufferWriteType::UNorm16 => 2,
        _ => 4,
    }
}

/// The element format of a vector write.
pub open spec fn vector_write_element(t: VectorBufferWriteType) -> BufferWriteType {
    match t {
        VectorBufferWriteType::Scalar(e) => e,
        VectorBufferWriteType::V2(e) => e,
        VectorBufferWriteType::V3(e) => e,
        VectorBufferWriteType::V4(e) => e,
    }
}

/// How many components a vector write stores.
pub open spec fn vector_write_count(t: VectorBufferWriteType) -> int {
    match t {
        VectorBufferWriteType::Scalar(_) => 1,
        VectorBufferWriteType::V2(_) => 2,
        VectorBufferWriteType::V3(_) => 3,
        VectorBufferWriteType::V4(_) => 4,
    }
}

/// How many bytes a store of `count` elements of width `w` changes: one per element for bytes,
/// two per element otherwise (a 32-bit element keeps only its lowest and highest byte, at two
/// consecutive places).
pub open spec fn store_span(w: int, count: int) -> int {
    if w == 1 { count } else { 2 * count }
}

/// Byte `d` of a store of `vals`, elements of width `w`.
pub open spec fn store_byte(w: int, vals: Seq<u32>, d: int) -> u8 {
    if w == 1 {
        vals[d] as u8
    } else if d % 2 == 0 {
        vals[d / 2] as u8
    } else if w == 2 {
        (vals[d / 2] >> 8u32) as u8
    } else {
        (vals[d / 2] >> 24u32) as u8
    }
}

/// The bytes `to` after a store of `vals`, elements of width `w`, at `off`; nothing changes
/// unless the elements end strictly before the end of the buffer.
pub open spec fn spec_store(w: int, vals: Seq<u32>, to: Seq<u8>, off: int) -> Seq<u8> {
    if off + w * vals.len() < to.len() {
        Seq::new(to.len(), |j: int| if off <= j < off + store_span(w, vals.len() as int) {
            store_byte(w, vals, j - off)
        } else {
            to[j]
        })
    } else {
        to
    }
}

/// The buffer number an instruction writes, for buffer writes.
pub open spec fn write_target(ins: ShaderInstruction) -> Option<u8> {
    match ins {
        ShaderInstruction::WriteScalarToBuffer { buffer, .. } => Some(buffer),
        ShaderInstruction::WriteVectorToBuffer { buffer, .. } => Some(buffer),
        _ => None,
    }
}

/// The bytes of a buffer after a buffer write's first `k` lanes, lane after lane.
pub open spec fn spec_buffer_after(u: ShadingUnitContext, rc: ShadingUnitRunContext, ins: ShaderInstruction, bytes: Seq<u8>, k: int) -> Seq<u8>
    decreases k,
{
    if k <= 0 {
        bytes
    } else {
        let before = spec_buffer_after(u, rc, ins, bytes, k - 1);
        match ins {
            ShaderInstruction::WriteScalarToBuffer { data_type, scalar, offset, addr_dst_u32, .. } => spec_store(
                write_width(data_type),
                seq![scalar_lane(&u, &rc, scalar, k - 1)],
                before,
                read_address(u, rc, offset, addr_dst_u32, k - 1),
            ),
            ShaderInstruction::WriteVectorToBuffer { data_type, src, offset, addr_src_u32, .. } => spec_store(
                write_width(vector_write_element(data_type)),
                vector_lane(&u, &rc, src, k - 1)@.take(vector_write_count(data_type)),
                before,
                read_address(u, rc, offset, addr_src_u32, k - 1),
            ),
            _ => before,
        }
    }
}

/// What one instruction does to the unit, the run's registers and the buffers, with `ok`
/// whether it was carried out. A refused instruction changes nothing; a buffer write changes
/// the one buffer its number maps to, lane after lane.
pub open spec fn spec_step(
    u0: ShadingUnitContext,
    rc0: ShadingUnitRunContext,
    buffers: Seq<Vec<u8>>,
    rm: ResourceMap,
    n: int,
    ins: ShaderInstruction,
    u1: ShadingUnitContext,
    rc1: ShadingUnitRunContext,
    buffers1: Seq<Vec<u8>>,
    ok: bool,
) -> bool {
    &&& spec_register_step(u0, rc0, buffers, rm, n, ins, u1, rc1, ok)
    &&& match write_target(ins) {
        Some(b) => {
            let k = rm.buffer@[b as int] as int;
            &&& buffers1.len() == buffers.len()
            &&& forall|j: int| 0 <= j < buffers.len() && j != k ==> buffers1[j] == buffers[j]
            &&& buffers1[k]@ == spec_buffer_after(u0, rc0, ins, buffers[k]@, n)
        },
        None => buffers1 == buffers,
    }
}

/// The scalar register an instruction writes, for those that write one.
pub open spec fn scalar_dest(ins: ShaderInstruction) -> Option<RegisterAddress<Scalar>> {
    match ins {
        ShaderInstruction::CopyScalarRegister { to, .. } => Some(to),
        ShaderInstruction::ConditionallyCopyScalarRegister { to, .. } => Some(to),
        ShaderInstruction::CopyVectorComponentToScalar { to, .. } => Some(to),
        ShaderInstruction::ConditionallyCopyVectorComponentToScalar { to, .. } => Some(to),
        ShaderInstruction::ScalarUnaryOp { dst, .. } => Some(dst),
        ShaderInstruction::ScalarBinaryOp { dst, .. } => Some(dst),
        ShaderInstruction::ReadBufferToScalar { scalar, .. } => Some(scalar),
        _ => None,
    }
}

/// The vector register an instruction writes, for those that write one.
pub open spec fn vector_dest(ins: ShaderInstruction) -> Option<RegisterAddress<Vector>> {
    match ins {
        ShaderInstruction::CopyVectorRegister { to, .. } => Some(to),
        ShaderInstruction::ConditionallyCopyVectorRegister { to, .. } => Some(to),
        ShaderInstruction::CopyScalarToVectorComponent { to, .. } => Some(to),
        ShaderInstruction::ConditionallyCopyScalarToVectorComponent { to, .. } => Some(to),
        ShaderInstruction::CopyScalarToVectorComponentsMasked { to, .. } => Some(to),
        ShaderInstruction::VectorComponentwiseScalarUnaryOp { dst, .. } => Some(dst),
        ShaderInstruction::VectorComponentwiseScalarBinaryOp { dst, .. } => Some(dst),
        ShaderInstruction::VectorComponentwiseScalarTernaryOp { dst, .. } => Some(dst),
        ShaderInstruction::VectorComponentwiseScalarUnaryOpMasked { dst, .. } => Some(dst),
        ShaderInstruction::ReadBufferToVector { vector, .. } => Some(vector),
        _ => None,
    }
}

/// The instructions this unit runs besides texture loads (see `load_runs`): stack and copy
/// instructions, operations on integers, and reads and plain writes of buffers. The others
/// work on floating-point values (normalized buffer formats among them).
pub open spec fn spec_handled(ins: ShaderInstruction) -> bool {
    match ins {
        ShaderInstruction::Nop => true,
        ShaderInstruction::PushVector(..) => true,
        ShaderInstruction::PushScalar(..) => true,
        ShaderInstruction::PopVector(..) => true,
        ShaderInstruction::PopScalar(..) => true,
        ShaderInstruction::ScalarUnaryOp { op, .. } => spec_is_int_unary(op),
        ShaderInstruction::ScalarBinaryOp { op, .. } => spec_is_int_binary(op),
        ShaderInstruction::VectorComponentwiseScalarUnaryOp { op, .. } => spec_is_int_unary(op),
        ShaderInstruction::VectorComponentwiseScalarBinaryOp { op, .. } => spec_is_int_binary(op),
        ShaderInstruction::VectorComponentwiseScalarTernaryOp { op, .. } => op == super::shader::ScalarTernaryOp::Fma(OpDataType::I32),
        ShaderInstruction::VectorComponentwiseScalarUnaryOpMasked { op, .. } => spec_is_int_unary(op),
        ShaderInstruction::WriteScalarToBuffer { data_type, .. } => write_is_int(data_type),
        ShaderInstruction::WriteVectorToBuffer { data_type, .. } => write_is_int(vector_write_element(data_type)),
        _ => scalar_dest(ins) is Some || vector_dest(ins) is Some,
    }
}

/// Whether every register an instruction names exists.
pub open spec fn spec_registers_ok(ins: ShaderInstruction) -> bool {
    match ins {
        ShaderInstruction::PushVector(a) => vector_reg_ok(a),
        ShaderInstruction::PushScalar(a) => scalar_reg_ok(a),
        ShaderInstruction::PopVector(a) => vector_reg_ok(a),
        ShaderInstruction::PopScalar(a) => scalar_reg_ok(a),
        ShaderInstruction::CopyVectorRegister { from, to } => vector_reg_ok(from) && vector_reg_ok(to),
        ShaderInstruction::CopyScalarRegister { from, to } => scalar_reg_ok(from) && scalar_reg_ok(to),
        ShaderInstruction::ConditionallyCopyVectorRegister { cond, from, to } =>
            scalar_reg_ok(cond) && vector_reg_ok(from) && vector_reg_ok(to),
        ShaderInstruction::ConditionallyCopyScalarRegister { cond, from, to } =>
            scalar_reg_ok(cond) && scalar_reg_ok(from) && scalar_reg_ok(to),
        ShaderInstruction::CopyVectorComponentToScalar { from, to, .. } => vector_reg_ok(from) && scalar_reg_ok(to),
        ShaderInstruction::ConditionallyCopyVectorComponentToScalar { cond, from, to, .. } =>
            scalar_reg_ok(cond) && vector_reg_ok(from) && scalar_reg_ok(to),
        ShaderInstruction::CopyScalarToVectorComponent { from, to, .. } => scalar_reg_ok(from) && vector_reg_ok(to),
        ShaderInstruction::ConditionallyCopyScalarToVectorComponent { cond, from, to, .. } =>
            scalar_reg_ok(cond) && scalar_reg_ok(from) && vector_reg_ok(to),
        ShaderInstruction::CopyScalarToVectorComponentsMasked { from, to, .. } => scalar_reg_ok(from) && vector_reg_ok(to),
        ShaderInstruction::ScalarUnaryOp { src, dst, .. } => scalar_reg_ok(src) && scalar_reg_ok(dst),
        ShaderInstruction::ScalarBinaryOp { src_a, src_b, dst, .. } =>
            scalar_reg_ok(src_a) && scalar_reg_ok(src_b) && scalar_reg_ok(dst),
        ShaderInstruction::VectorComponentwiseScalarUnaryOp { src, dst, .. } => vector_reg_ok(src) && vector_reg_ok(dst),
        ShaderInstruction::VectorComponentwiseScalarBinaryOp { src_a, src_b, dst, .. } =>
            vector_reg_ok(src_a) && vector_reg_ok(src_b) && vector_reg_ok(dst),
        ShaderInstruction::VectorComponentwiseScalarTernaryOp { src_a, src_b, src_c, dst, .. } =>
            vector_reg_ok(src_a) && vector_reg_ok(src_b) && vector_reg_ok(src_c) && vector_reg_ok(dst),
        ShaderInstruction::VectorComponentwiseScalarUnaryOpMasked { src, dst, .. } => vector_reg_ok(src) && vector_reg_ok(dst),
        ShaderInstruction::ReadBufferToScalar { scalar, addr_src_u32, .. } =>
            scalar_reg_ok(scalar) && (addr_src_u32 matches Some(a) ==> scalar_reg_ok(a)),
        ShaderInstruction::ReadBufferToVector { vector, addr_src_u32, .. } =>
            vector_reg_ok(vector) && (addr_src_u32 matches Some(a) ==> scalar_reg_ok(a)),
        ShaderInstruction::WriteScalarToBuffer { scalar, addr_dst_u32, .. } =>
            scalar_reg_ok(scalar) && (addr_dst_u32 matches Some(a) ==> scalar_reg_ok(a)),
        ShaderInstruction::WriteVectorToBuffer { src, addr_src_u32, .. } =>
            vector_reg_ok(src) && (addr_src_u32 matches Some(a) ==> scalar_reg_ok(a)),
        _ => true,
    }
}

/// Whether the instruction copies a register onto itself, which is refused.
pub open spec fn copies_onto_itself(ins: ShaderInstruction) -> bool {
    match ins {
        ShaderInstruction::CopyVectorRegister { from, to } => same_register(from, to),
        ShaderInstruction::CopyScalarRegister { from, to } => same_register(from, to),
        ShaderInstruction::ConditionallyCopyVectorRegister { from, to, .. } => same_register(from, to),
        ShaderInstruction::ConditionallyCopyScalarRegister { from, to, .. } => same_register(from, to),
        _ => false,
    }
}

/// Whether the unit refuses the instruction and changes nothing: a copy of a register onto
/// itself, or a destination that cannot be written.
pub open spec fn spec_refused(ins: ShaderInstruction) -> bool {
    ||| copies_onto_itself(ins)
    ||| (scalar_dest(ins) matches Some(d) && !writable(d))
    ||| (vector_dest(ins) matches Some(d) && !writable(d))
    ||| (ins matches ShaderInstruction::PopVector(d) && !writable(d))
    ||| (ins matches ShaderInstruction::PopScalar(d) && !writable(d))
}

/// Whether all four components satisfy a one-operand operation's domain.
pub open spec fn unary4_defined(op: ScalarUnaryOp, v: [u32; 4]) -> bool {
    spec_int_unary_defined(op, v[0]) && spec_int_unary_defined(op, v[1])
        && spec_int_unary_defined(op, v[2]) && spec_int_unary_defined(op, v[3])
}

/// Whether all four pairs of components satisfy a two-operand operation's domain.
pub open spec fn binary4_defined(op: ScalarBinaryOp, a: [u32; 4], b: [u32; 4]) -> bool {
    spec_int_binary_defined(op, a[0], b[0]) && spec_int_binary_defined(op, a[1], b[1])
        && spec_int_binary_defined(op, a[2], b[2]) && spec_int_binary_defined(op, a[3], b[3])
}

/// Whether the operation of the instruction is defined on lane `i`.
pub open spec fn lane_defined(u: ShadingUnitContext, rc: ShadingUnitRunContext, ins: ShaderInstruction, i: int) -> bool {
    match ins {
        ShaderInstruction::ScalarUnaryOp { src, op, .. } => spec_int_unary_defined(op, scalar_lane(&u, &rc, src, i)),
        ShaderInstruction::ScalarBinaryOp { src_a, src_b, op, .. } =>
            spec_int_binary_defined(op, scalar_lane(&u, &rc, src_a, i), scalar_lane(&u, &rc, src_b, i)),
        ShaderInstruction::VectorComponentwiseScalarUnaryOp { src, op, .. } => unary4_defined(op, vector_lane(&u, &rc, src, i)),
        ShaderInstruction::VectorComponentwiseScalarBinaryOp { src_a, src_b, op, .. } =>
            binary4_defined(op, vector_lane(&u, &rc, src_a, i), vector_lane(&u, &rc, src_b, i)),
        ShaderInstruction::VectorComponentwiseScalarUnaryOpMasked { src, op, mask, .. } => {
            let v = vector_lane(&u, &rc, src, i);
            &&& mask & 1 != 0 ==> spec_int_unary_defined(op, v[0])
            &&& mask & 2 != 0 ==> spec_int_unary_defined(op, v[1])
            &&& mask & 4 != 0 ==> spec_int_unary_defined(op, v[2])
            &&& mask & 8 != 0 ==> spec_int_unary_defined(op, v[3])
        },
        ShaderInstruction::ReadBufferToScalar { offset, addr_src_u32, .. } =>
            read_address(u, rc, offset, addr_src_u32, i) + 4 <= usize::MAX,
        ShaderInstruction::ReadBufferToVector { offset, addr_src_u32, .. } =>
            read_address(u, rc, offset, addr_src_u32, i) + 16 <= usize::MAX,
        ShaderInstruction::WriteScalarToBuffer { offset, addr_dst_u32, .. } =>
            read_address(u, rc, offset, addr_dst_u32, i) + 16 <= usize::MAX,
        ShaderInstruction::WriteVectorToBuffer { offset, addr_src_u32, .. } =>
            read_address(u, rc, offset, addr_src_u32, i) + 16 <= usize::MAX,
        _ => true,
    }
}

/// Whether the operation is worked out once for all lanes, whatever their number: an operation
/// whose operands are all constant registers.
pub open spec fn worked_out_once(ins: ShaderInstruction) -> bool {
    match ins {
        ShaderInstruction::ScalarUnaryOp { src, .. } => src is Constant,
        ShaderInstruction::ScalarBinaryOp { src_a, src_b, .. } => src_a is Constant && src_b is Constant,
        ShaderInstruction::VectorComponentwiseScalarUnaryOp { src, .. } => src is Constant,
        ShaderInstruction::VectorComponentwiseScalarBinaryOp { src_a, src_b, .. } => src_a is Constant && src_b is Constant,
        ShaderInstruction::ReadBufferToScalar { addr_src_u32, .. } => !(addr_src_u32 matches Some(a) && !(a is Constant)),
        ShaderInstruction::ReadBufferToVector { addr_src_u32, .. } => !(addr_src_u32 matches Some(a) && !(a is Constant)),
        _ => false,
    }
}

/// The inputs on which an instruction runs: at most `CORE_COUNT` lanes, existing registers,
/// room on the stack for a push and a value on it for a pop, and operations defined on every
/// lane they are worked out on.
pub open spec fn spec_runs(u: ShadingUnitContext, rc: ShadingUnitRunContext, n: int, ins: ShaderInstruction) -> bool {
    &&& 0 <= n <= CORE_COUNT
    &&& spec_handled(ins)
    &&& !copies_onto_itself(ins) ==> spec_registers_ok(ins)
    &&& !spec_refused(ins) ==> match ins {
        ShaderInstruction::PushVector(_) => u.vector_stack_size < STACK_SIZE,
        ShaderInstruction::PushScalar(_) => u.vector_stack_size < STACK_SIZE && u.scalar_stack_size < usize::MAX,
        ShaderInstruction::PopVector(_) => 0 < u.vector_stack_size <= STACK_SIZE,
        ShaderInstruction::PopScalar(_) => 0 < u.scalar_stack_size <= STACK_SIZE,
        _ => {
            &&& forall|i: int| 0 <= i < n ==> #[trigger] lane_defined(u, rc, ins, i)
            &&& worked_out_once(ins) ==> lane_defined(u, rc, ins, 0)
        },
    }
}

/// Lane `i` of the scalar register an instruction writes, as it writes it.
pub open spec fn scalar_result_lane(
    u: ShadingUnitContext,
    rc: ShadingUnitRunContext,
    buffers: Seq<Vec<u8>>,
    rm: ResourceMap,
    ins: ShaderInstruction,
    i: int,
) -> u32 {
    match ins {
        ShaderInstruction::ReadBufferToScalar { data_type, offset, addr_src_u32, buffer, .. } =>
            spec_buffer_element(data_type, mapped_buffer(buffers, rm, buffer), read_address(u, rc, offset, addr_src_u32, i)),
        ShaderInstruction::CopyScalarRegister { from, .. } => scalar_lane(&u, &rc, from, i),
        ShaderInstruction::ConditionallyCopyScalarRegister { from, .. } => scalar_lane(&u, &rc, from, i),
        ShaderInstruction::CopyVectorComponentToScalar { channel, from, .. } =>
            vector_lane(&u, &rc, from, i)[channel.spec_index() as int],
        ShaderInstruction::ConditionallyCopyVectorComponentToScalar { cond, channel, from, to } =>
            if scalar_lane(&u, &rc, cond, i) != 0 {
                vector_lane(&u, &rc, from, i)[channel.spec_index() as int]
            } else {
                scalar_lane(&u, &rc, to, i)
            },
        ShaderInstruction::ScalarUnaryOp { src, op, .. } => spec_int_unary(op, scalar_lane(&u, &rc, src, i)).unwrap(),
        ShaderInstruction::ScalarBinaryOp { src_a, src_b, op, .. } =>
            spec_int_binary(op, scalar_lane(&u, &rc, src_a, i), scalar_lane(&u, &rc, src_b, i)).unwrap(),
        _ => 0,
    }
}

/// Lane `i` of the vector register an instruction writes, as it writes it.
pub open spec fn vector_result_lane(
    u: ShadingUnitContext,
    rc: ShadingUnitRunContext,
    buffers: Seq<Vec<u8>>,
    rm: ResourceMap,
    ins: ShaderInstruction,
    i: int,
) -> [u32; 4] {
    match ins {
        ShaderInstruction::ReadBufferToVector { data_type, offset, addr_src_u32, buffer, .. } =>
            spec_buffer_vector(data_type, mapped_buffer(buffers, rm, buffer), read_address(u, rc, offset, addr_src_u32, i)),
        ShaderInstruction::CopyVectorRegister { from, .. } => vector_lane(&u, &rc, from, i),
        ShaderInstruction::ConditionallyCopyVectorRegister { cond, from, to } =>
            if scalar_lane(&u, &rc, cond, i) != 0 { vector_lane(&u, &rc, from, i) } else { vector_lane(&u, &rc, to, i) },
        ShaderInstruction::CopyScalarToVectorComponent { channel, from, to } =>
            with_component(vector_lane(&u, &rc, to, i), channel.spec_index() as int, scalar_lane(&u, &rc, from, i)),
        ShaderInstruction::ConditionallyCopyScalarToVectorComponent { cond, channel, from, to } =>
            if scalar_lane(&u, &rc, cond, i) != 0 {
                with_component(vector_lane(&u, &rc, to, i), channel.spec_index() as int, scalar_lane(&u, &rc, from, i))
            } else {
                vector_lane(&u, &rc, to, i)
            },
        ShaderInstruction::CopyScalarToVectorComponentsMasked { from, to, mask } =>
            with_masked(vector_lane(&u, &rc, to, i), mask, scalar_lane(&u, &rc, from, i)),
        ShaderInstruction::VectorComponentwiseScalarUnaryOp { src, op, .. } => unary4(op, vector_lane(&u, &rc, src, i)),
        ShaderInstruction::VectorComponentwiseScalarBinaryOp { src_a, src_b, op, .. } =>
            binary4(op, vector_lane(&u, &rc, src_a, i), vector_lane(&u, &rc, src_b, i)),
        ShaderInstruction::VectorComponentwiseScalarTernaryOp { src_a, src_b, src_c, .. } =>
            fma4(vector_lane(&u, &rc, src_a, i), vector_lane(&u, &rc, src_b, i), vector_lane(&u, &rc, src_c, i)),
        ShaderInstruction::VectorComponentwiseScalarUnaryOpMasked { src, dst, op, mask } =>
            unary4_masked(op, vector_lane(&u, &rc, src, i), vector_lane(&u, &rc, dst, i), mask),
        _ => zero_vector(),
    }
}

/// What one instruction does to the unit and the run's registers, with `ok` whether it was
/// carried out. A refused instruction changes nothing.
pub open spec fn spec_register_step(
    u0: ShadingUnitContext,
    rc0: ShadingUnitRunContext,
    buffers: Seq<Vec<u8>>,
    rm: ResourceMap,
    n: int,
    ins: ShaderInstruction,
    u1: ShadingUnitContext,
    rc1: ShadingUnitRunContext,
    ok: bool,
) -> bool {
    if spec_refused(ins) {
        !ok && u1 == u0 && rc1 == rc0
    } else {
        &&& ok
        &&& match ins {
            ShaderInstruction::Nop => u1 == u0 && rc1 == rc0,
            ShaderInstruction::WriteScalarToBuffer { .. } => u1 == u0 && rc1 == rc0,
            ShaderInstruction::WriteVectorToBuffer { .. } => u1 == u0 && rc1 == rc0,
            ShaderInstruction::PushVector(a) => {
                &&& rc1 == rc0
                &&& u1.vector_stack_array@ == with_lanes(
                    u0.vector_stack_array@,
                    slot(u0.vector_stack_size as int, 0),
                    Seq::new(n as nat, |i: int| vector_lane(&u0, &rc0, a, i)),
                )
                &&& u1.vector_stack_size == u0.vector_stack_size + 1
                &&& u1.scalar_stack_array == u0.scalar_stack_array
                &&& u1.scalar_stack_size == u0.scalar_stack_size
                &&& u1.scalar_locals == u0.scalar_locals
                &&& u1.vector_locals == u0.vector_locals
            },
            ShaderInstruction::PushScalar(a) => {
                &&& rc1 == rc0
                &&& u1.scalar_stack_array@ == with_lanes(
                    u0.scalar_stack_array@,
                    slot(u0.vector_stack_size as int, 0),
                    Seq::new(n as nat, |i: int| scalar_lane(&u0, &rc0, a, i)),
                )
                &&& u1.scalar_stack_size == u0.scalar_stack_size + 1
                &&& u1.vector_stack_array == u0.vector_stack_array
                &&& u1.vector_stack_size == u0.vector_stack_size
                &&& u1.scalar_locals == u0.scalar_locals
                &&& u1.vector_locals == u0.vector_locals
            },
            ShaderInstruction::PopVector(a) => {
                let top = slot(u0.vector_stack_size - 1, 0);
                &&& u1.vector_stack_size == u0.vector_stack_size - 1
                &&& u1.scalar_stack_size == u0.scalar_stack_size
                &&& vector_written(u0, rc0, u1, rc1, a, u0.vector_stack_array@.subrange(top, top + n))
            },
            ShaderInstruction::PopScalar(a) => {
                let top = slot(u0.scalar_stack_size - 1, 0);
                &&& u1.scalar_stack_size == u0.scalar_stack_size - 1
                &&& u1.vector_stack_size == u0.vector_stack_size
                &&& scalar_written(u0, rc0, u1, rc1, a, u0.scalar_stack_array@.subrange(top, top + n))
            },
            _ => {
                &&& u1.scalar_stack_size == u0.scalar_stack_size
                &&& u1.vector_stack_size == u0.vector_stack_size
                &&& match scalar_dest(ins) {
                    Some(d) => scalar_written(u0, rc0, u1, rc1, d, Seq::new(n as nat, |i: int| scalar_result_lane(u0, rc0, buffers, rm, ins, i))),
                    None => match vector_dest(ins) {
                        Some(d) => vector_written(u0, rc0, u1, rc1, d, Seq::new(n as nat, |i: int| vector_result_lane(u0, rc0, buffers, rm, ins, i))),
                        None => false,
                    },
                }
            },
        }
    }
}

/// Whether the unit refuses the instruction.
fn refuses(ins: &ShaderInstruction) -> (r: bool)
    ensures
        r == spec_refused(*ins),
{
    match ins {
        ShaderInstruction::CopyVectorRegister { from, to } => is_same_register(from, to) || !is_writable(to),
        ShaderInstruction::CopyScalarRegister { from, to } => is_same_register(from, to) || !is_writable(to),
        ShaderInstruction::ConditionallyCopyVectorRegister { from, to, .. } => is_same_register(from, to) || !is_writable(to),
        ShaderInstruction::ConditionallyCopyScalarRegister { from, to, .. } => is_same_register(from, to) || !is_writable(to),
        ShaderInstruction::PopVector(d) => !is_writable(d),
        ShaderInstruction::PopScalar(d) => !is_writable(d),
        _ => match scalar_destination(ins) {
            Some(d) => !is_writable(&d),
            None => match vector_destination(ins) {
                Some(d) => !is_writable(&d),
                None => false,
            },
        },
    }
}

/// The scalar register an instruction writes.
fn scalar_destination(ins: &ShaderInstruction) -> (r: Option<RegisterAddress<Scalar>>)
    ensures
        r == scalar_dest(*ins),
{
    match *ins {
        ShaderInstruction::CopyScalarRegister { to, .. } => Some(to),
        ShaderInstruction::ConditionallyCopyScalarRegister { to, .. } => Some(to),
        ShaderInstruction::CopyVectorComponentToScalar { to, .. } => Some(to),
        ShaderInstruction::ConditionallyCopyVectorComponentToScalar { to, .. } => Some(to),
        ShaderInstruction::ScalarUnaryOp { dst, .. } => Some(dst),
        ShaderInstruction::ScalarBinaryOp { dst, .. } => Some(dst),
        ShaderInstruction::ReadBufferToScalar { scalar, .. } => Some(scalar),
        _ => None,
    }
}

/// The vector register an instruction writes.
fn vector_destination(ins: &ShaderInstruction) -> (r: Option<RegisterAddress<Vector>>)
    ensures
        r == vector_dest(*ins),
{
    match *ins {
        ShaderInstruction::CopyVectorRegister { to, .. } => Some(to),
        ShaderInstruction::ConditionallyCopyVectorRegister { to, .. } => Some(to),
        ShaderInstruction::CopyScalarToVectorComponent { to, .. } => Some(to),
        ShaderInstruction::ConditionallyCopyScalarToVectorComponent { to, .. } => Some(to),
        ShaderInstruction::CopyScalarToVectorComponentsMasked { to, .. } => Some(to),
        ShaderInstruction::VectorComponentwiseScalarUnaryOp { dst, .. } => Some(dst),
        ShaderInstruction::VectorComponentwiseScalarBinaryOp { dst, .. } => Some(dst),
        ShaderInstruction::VectorComponentwiseScalarTernaryOp { dst, .. } => Some(dst),
        ShaderInstruction::VectorComponentwiseScalarUnaryOpMasked { dst, .. } => Some(dst),
        ShaderInstruction::ReadBufferToVector { vector, .. } => Some(vector),
        _ => None,
    }
}

/// An element of width `t` at `off` in `bytes` (see `spec_buffer_element`).
fn buffer_element(t: BufferReadType, bytes: &[u8], off: usize) -> (r: u32)
    ensures
        r == spec_buffer_element(t, bytes@, off as int),
{
    match t {
        BufferReadType::D8 => read_bytes_u8(bytes, off) as u32,
        BufferReadType::D16 => read_bytes_u16(bytes, off) as u32,
        BufferReadType::D32 => read_bytes_u32(bytes, off),
    }
}

/// The vector read at `off` in `bytes` (see `spec_buffer_vector`).
fn buffer_vector(t: VectorBufferReadType, bytes: &[u8], off: usize) -> (r: [u32; 4])
    requires
        off + 16 <= usize::MAX,
    ensures
        r == spec_buffer_vector(t, bytes@, off as int),
{
    match t {
        VectorBufferReadType::Scalar(e) => [buffer_element(e, bytes, off), 0, 0, 0],
        VectorBufferReadType::V2(e) => {
            let w = element_bytes(e);
            [buffer_element(e, bytes, off), buffer_element(e, bytes, off + w), 0, 0]
        },
        VectorBufferReadType::V3(e) => {
            let w = element_bytes(e);
            [buffer_element(e, bytes, off), buffer_element(e, bytes, off + w), buffer_element(e, bytes, off + 2 * w), 0]
        },
        VectorBufferReadType::V4(e) => {
            let w = element_bytes(e);
            [
                buffer_element(e, bytes, off),
                buffer_element(e, bytes, off + w),
                buffer_element(e, bytes, off + 2 * w),
                buffer_element(e, bytes, off + 3 * w),
            ]
        },
    }
}

/// The width in bytes of an element.
fn element_bytes(t: BufferReadType) -> (r: usize)
    ensures
        r == element_width(t),
{
    match t {
        BufferReadType::D8 => 1,
        BufferReadType::D16 => 2,
        BufferReadType::D32 => 4,
    }
}

/// The byte address lane `i` reads at (see `read_address`).
fn address_at(
    u: &ShadingUnitContext,
    rc: &ShadingUnitRunContext,
    offset: u32,
    addr: Option<RegisterAddress<Scalar>>,
    i: usize,
) -> (r: usize)
    requires
        u.wf(),
        rc.wf(),
        i < CORE_COUNT,
        addr matches Some(a) ==> scalar_reg_ok(a),
        read_address(*u, *rc, offset, addr, i as int) <= usize::MAX,
    ensures
        r == read_address(*u, *rc, offset, addr, i as int),
{
    match addr {
        Some(a) => offset as usize + read_scalar(u, rc, a, i) as usize,
        None => offset as usize,
    }
}

/// The bytes of one element of a buffer format.
fn element_write_bytes(t: BufferWriteType) -> (r: usize)
    ensures
        r == write_width(t),
{
    match t {
        BufferWriteType::I8 | BufferWriteType::U8 | BufferWriteType::INorm8 | BufferWriteType::UNorm8 => 1,
        BufferWriteType::I16 | BufferWriteType::U16 | BufferWriteType::INorm16 | BufferWriteType::UNorm16 => 2,
        _ => 4,
    }
}

/// Stores `vals`, elements of width `w`, at `off` in `to` (see `spec_store`): bytes are
/// stored as they are, 16-bit elements low byte first, and of a 32-bit element the lowest
/// byte goes to its first place and the highest to the second.
fn store(w: usize, vals: &Vec<u32>, to: &mut Vec<u8>, off: usize)
    requires
        w == 1 || w == 2 || w == 4,
        vals@.len() <= 4,
        off + 16 <= usize::MAX,
    ensures
        final(to)@ == spec_store(w as int, vals@, old(to)@, off as int),
{
    let ghost t0 = to@;
    if off + w * vals.len() < to.len() {
        let mut i: usize = 0;
        while i < vals.len()
            invariant
                w == 1 || w == 2 || w == 4,
                vals@.len() <= 4,
                off + 16 <= usize::MAX,
                off + w * vals@.len() < t0.len(),
                i <= vals@.len(),
                to@ == Seq::new(t0.len(), |j: int| if off <= j < off + store_span(w as int, i as int) {
                    store_byte(w as int, vals@, j - off)
                } else {
                    t0[j]
                }),
            decreases vals@.len() - i,
        {
            let v = vals[i];
            if w == 1 {
                to.set(off + i, v as u8);
            } else if w == 2 {
                to.set(off + i * 2, v as u8);
                to.set(off + i * 2 + 1, (v >> 8) as u8);
            } else {
                to.set(off + i * 2, v as u8);
                to.set(off + i * 2 + 1, (v >> 8) as u8);
                to.set(off + i * 2 + 1, (v >> 16) as u8);
                to.set(off + i * 2 + 1, (v >> 24) as u8);
            }
            i = i + 1;
            assert(to@ =~= Seq::new(t0.len(), |j: int| if off <= j < off + store_span(w as int, i as int) {
                store_byte(w as int, vals@, j - off)
            } else {
                t0[j]
            }));
        }
        assert(to@ =~= spec_store(w as int, vals@, t0, off as int));
    }
}

/// The components a vector write stores.
fn stored_components(v: [u32; 4], t: VectorBufferWriteType) -> (r: Vec<u32>)
    ensures
        r@ == v@.take(vector_write_count(t)),
{
    let r = match t {
        VectorBufferWriteType::Scalar(_) => vec![v[0]],
        VectorBufferWriteType::V2(_) => vec![v[0], v[1]],
        VectorBufferWriteType::V3(_) => vec![v[0], v[1], v[2]],
        VectorBufferWriteType::V4(_) => vec![v[0], v[1], v[2], v[3]],
    };
    assert(r@ =~= v@.take(vector_write_count(t)));
    r
}

/// The element format of a vector write.
fn vector_write_format(t: VectorBufferWriteType) -> (r: BufferWriteType)
    ensures
        r == vector_write_element(t),
{
    match t {
        VectorBufferWriteType::Scalar(e) => e,
        VectorBufferWriteType::V2(e) => e,
        VectorBufferWriteType::V3(e) => e,
        VectorBufferWriteType::V4(e) => e,
    }
}

/// Carries out a buffer write's first `n` lanes on the bytes of its buffer, lane after lane.
fn write_buffer_lanes(u: &ShadingUnitContext, rc: &ShadingUnitRunContext, n: usize, ins: &ShaderInstruction, bytes: &mut Vec<u8>)
    requires
        u.wf(),
        rc.wf(),
        n <= CORE_COUNT,
        write_target(*ins) is Some,
        spec_registers_ok(*ins),
        forall|i: int| 0 <= i < n ==> #[trigger] lane_defined(*u, *rc, *ins, i),
    ensures
        final(bytes)@ == spec_buffer_after(*u, *rc, *ins, old(bytes)@, n as int),
{
    let ghost b0 = bytes@;
    let mut i: usize = 0;
    while i < n
        invariant
            u.wf(),
            rc.wf(),
            n <= CORE_COUNT,
            write_target(*ins) is Some,
            spec_registers_ok(*ins),
            forall|j: int| 0 <= j < n ==> #[trigger] lane_defined(*u, *rc, *ins, j),
            i <= n,
            bytes@ == spec_buffer_after(*u, *rc, *ins, b0, i as int),
        decreases n - i,
    {
        assert(lane_defined(*u, *rc, *ins, i as int));
        match *ins {
            ShaderInstruction::WriteScalarToBuffer { data_type, scalar, offset, addr_dst_u32, .. } => {
                let vals = vec![read_scalar(u, rc, scalar, i)];
                let off = address_at(u, rc, offset, addr_dst_u32, i);
                store(element_write_bytes(data_type), &vals, bytes, off);
                proof { assert(vals@ =~= seq![scalar_lane(u, rc, scalar, i as int)]); }
            },
            ShaderInstruction::WriteVectorToBuffer { data_type, src, offset, addr_src_u32, .. } => {
                let vals = stored_components(read_vector(u, rc, src, i), data_type);
                let off = address_at(u, rc, offset, addr_src_u32, i);
                store(element_write_bytes(vector_write_format(data_type)), &vals, bytes, off);
            },
            _ => {},
        }
        i = i + 1;
    }
}

/// The buffer number an instruction writes.
fn write_target_of(ins: &ShaderInstruction) -> (r: Option<u8>)
    ensures
        r == write_target(*ins),
{
    match *ins {
        ShaderInstruction::WriteScalarToBuffer { buffer, .. } => Some(buffer),
        ShaderInstruction::WriteVectorToBuffer { buffer, .. } => Some(buffer),
        _ => None,
    }
}

/// `v` with component `c` replaced by `x`.
fn set_component(v: [u32; 4], c: usize, x: u32) -> (r: [u32; 4])
    requires
        c < 4,
    ensures
        r == with_component(v, c as int, x),
{
    [
        if c == 0 { x } else { v[0] },
        if c == 1 { x } else { v[1] },
        if c == 2 { x } else { v[2] },
        if c == 3 { x } else { v[3] },
    ]
}

/// `v` with the components whose bit is set in `mask` replaced by `x`.
fn set_masked(v: [u32; 4], mask: u8, x: u32) -> (r: [u32; 4])
    ensures
        r == with_masked(v, mask, x),
{
    [
        if mask & 1 != 0 { x } else { v[0] },
        if mask & 2 != 0 { x } else { v[1] },
        if mask & 4 != 0 { x } else { v[2] },
        if mask & 8 != 0 { x } else { v[3] },
    ]
}

/// Lane `i` of the scalar register the instruction writes.
fn scalar_result_at(
    u: &ShadingUnitContext,
    rc: &ShadingUnitRunContext,
    buffers: &Vec<Vec<u8>>,
    rm: &ResourceMap,
    ins: &ShaderInstruction,
    i: usize,
) -> (r: u32)
    requires
        u.wf(),
        rc.wf(),
        buffers@.len() == 256,
        i < CORE_COUNT,
        scalar_dest(*ins) is Some,
        spec_handled(*ins),
        spec_registers_ok(*ins),
        lane_defined(*u, *rc, *ins, i as int),
    ensures
        r == scalar_result_lane(*u, *rc, buffers@, *rm, *ins, i as int),
{
    match *ins {
        ShaderInstruction::CopyScalarRegister { from, .. } => read_scalar(u, rc, from, i),
        ShaderInstruction::ConditionallyCopyScalarRegister { from, .. } => read_scalar(u, rc, from, i),
        ShaderInstruction::CopyVectorComponentToScalar { channel, from, .. } => read_vector(u, rc, from, i)[channel.index()],
        ShaderInstruction::ConditionallyCopyVectorComponentToScalar { cond, channel, from, to } => {
            if read_scalar(u, rc, cond, i) != 0 {
                read_vector(u, rc, from, i)[channel.index()]
            } else {
                read_scalar(u, rc, to, i)
            }
        },
        ShaderInstruction::ScalarUnaryOp { src, op, .. } => int_unary_lane(op, read_scalar(u, rc, src, i)),
        ShaderInstruction::ScalarBinaryOp { src_a, src_b, op, .. } =>
            int_binary_lane(op, read_scalar(u, rc, src_a, i), read_scalar(u, rc, src_b, i)),
        ShaderInstruction::ReadBufferToScalar { data_type, offset, addr_src_u32, buffer, .. } => {
            let bytes = buffers[rm.buffer[buffer as usize] as usize].as_slice();
            buffer_element(data_type, bytes, address_at(u, rc, offset, addr_src_u32, i))
        },
        _ => 0,
    }
}

/// Lane `i` of the vector register the instruction writes.
fn vector_result_at(
    u: &ShadingUnitContext,
    rc: &ShadingUnitRunContext,
    buffers: &Vec<Vec<u8>>,
    rm: &ResourceMap,
    ins: &ShaderInstruction,
    i: usize,
) -> (r: [u32; 4])
    requires
        u.wf(),
        rc.wf(),
        buffers@.len() == 256,
        i < CORE_COUNT,
        vector_dest(*ins) is Some,
        spec_handled(*ins),
        spec_registers_ok(*ins),
        lane_defined(*u, *rc, *ins, i as int),
    ensures
        r == vector_result_lane(*u, *rc, buffers@, *rm, *ins, i as int),
{
    match *ins {
        ShaderInstruction::CopyVectorRegister { from, .. } => read_vector(u, rc, from, i),
        ShaderInstruction::ConditionallyCopyVectorRegister { cond, from, to } => {
            if read_scalar(u, rc, cond, i) != 0 {
                read_vector(u, rc, from, i)
            } else {
                read_vector(u, rc, to, i)
            }
        },
        ShaderInstruction::CopyScalarToVectorComponent { channel, from, to } =>
            set_component(read_vector(u, rc, to, i), channel.index(), read_scalar(u, rc, from, i)),
        ShaderInstruction::ConditionallyCopyScalarToVectorComponent { cond, channel, from, to } => {
            let old_value = read_vector(u, rc, to, i);
            if read_scalar(u, rc, cond, i) != 0 {
                set_component(old_value, channel.index(), read_scalar(u, rc, from, i))
            } else {
                old_value
            }
        },
        ShaderInstruction::CopyScalarToVectorComponentsMasked { from, to, mask } =>
            set_masked(read_vector(u, rc, to, i), mask, read_scalar(u, rc, from, i)),
        ShaderInstruction::VectorComponentwiseScalarUnaryOp { src, op, .. } => {
            let v = read_vector(u, rc, src, i);
            [int_unary_lane(op, v[0]), int_unary_lane(op, v[1]), int_unary_lane(op, v[2]), int_unary_lane(op, v[3])]
        },
        ShaderInstruction::VectorComponentwiseScalarBinaryOp { src_a, src_b, op, .. } => {
            let a = read_vector(u, rc, src_a, i);
            let b = read_vector(u, rc, src_b, i);
            [
                int_binary_lane(op, a[0], b[0]),
                int_binary_lane(op, a[1], b[1]),
                int_binary_lane(op, a[2], b[2]),
                int_binary_lane(op, a[3], b[3]),
            ]
        },
        ShaderInstruction::VectorComponentwiseScalarTernaryOp { src_a, src_b, src_c, .. } => {
            let a = read_vector(u, rc, src_a, i);
            let b = read_vector(u, rc, src_b, i);
            let c = read_vector(u, rc, src_c, i);
            [
                a[0].wrapping_mul(b[0]).wrapping_add(c[0]),
                a[1].wrapping_mul(b[1]).wrapping_add(c[1]),
                a[2].wrapping_mul(b[2]).wrapping_add(c[2]),
                a[3].wrapping_mul(b[3]).wrapping_add(c[3]),
            ]
        },
        ShaderInstruction::VectorComponentwiseScalarUnaryOpMasked { src, dst, op, mask } => {
            let v = read_vector(u, rc, src, i);
            let d = read_vector(u, rc, dst, i);
            [
                if mask & 1 != 0 { int_unary_lane(op, v[0]) } else { d[0] },
                if mask & 2 != 0 { int_unary_lane(op, v[1]) } else { d[1] },
                if mask & 4 != 0 { int_unary_lane(op, v[2]) } else { d[2] },
                if mask & 8 != 0 { int_unary_lane(op, v[3]) } else { d[3] },
            ]
        },
        ShaderInstruction::ReadBufferToVector { data_type, offset, addr_src_u32, buffer, .. } => {
            let bytes = buffers[rm.buffer[buffer as usize] as usize].as_slice();
            buffer_vector(data_type, bytes, address_at(u, rc, offset, addr_src_u32, i))
        },
        _ => [0u32, 0, 0, 0],
    }
}

/// The first `n` lanes of the scalar register the instruction writes.
fn scalar_results(
    u: &ShadingUnitContext,
    rc: &ShadingUnitRunContext,
    buffers: &Vec<Vec<u8>>,
    rm: &ResourceMap,
    n: usize,
    ins: &ShaderInstruction,
) -> (r: Vec<u32>)
    requires
        u.wf(),
        rc.wf(),
        buffers@.len() == 256,
        n <= CORE_COUNT,
        scalar_dest(*ins) is Some,
        spec_handled(*ins),
        spec_registers_ok(*ins),
        forall|i: int| 0 <= i < n ==> #[trigger] lane_defined(*u, *rc, *ins, i),
    ensures
        r@ == Seq::new(n as nat, |i: int| scalar_result_lane(*u, *rc, buffers@, *rm, *ins, i)),
{
    let mut v: Vec<u32> = Vec::with_capacity(n);
    let mut i: usize = 0;
    while i < n
        invariant
            u.wf(),
            rc.wf(),
            buffers@.len() == 256,
            n <= CORE_COUNT,
            scalar_dest(*ins) is Some,
            spec_handled(*ins),
            spec_registers_ok(*ins),
            forall|j: int| 0 <= j < n ==> #[trigger] lane_defined(*u, *rc, *ins, j),
            i <= n,
            v@.len() == i,
            forall|j: int| 0 <= j < i ==> v@[j] == scalar_result_lane(*u, *rc, buffers@, *rm, *ins, j),
        decreases n - i,
    {
        v.push(scalar_result_at(u, rc, buffers, rm, ins, i));
        i += 1;
    }
    assert(v@ =~= Seq::new(n as nat, |i: int| scalar_result_lane(*u, *rc, buffers@, *rm, *ins, i)));
    v
}

/// The first `n` lanes of the vector register the instruction writes.
fn vector_results(
    u: &ShadingUnitContext,
    rc: &ShadingUnitRunContext,
    buffers: &Vec<Vec<u8>>,
    rm: &ResourceMap,
    n: usize,
    ins: &ShaderInstruction,
) -> (r: Vec<[u32; 4]>)
    requires
        u.wf(),
        rc.wf(),
        buffers@.len() == 256,
        n <= CORE_COUNT,
        vector_dest(*ins) is Some,
        spec_handled(*ins),
        spec_registers_ok(*ins),
        forall|i: int| 0 <= i < n ==> #[trigger] lane_defined(*u, *rc, *ins, i),
    ensures
        r@ == Seq::new(n as nat, |i: int| vector_result_lane(*u, *rc, buffers@, *rm, *ins, i)),
{
    let mut v: Vec<[u32; 4]> = Vec::with_capacity(n);
    let mut i: usize = 0;
    while i < n
        invariant
            u.wf(),
            rc.wf(),
            buffers@.len() == 256,
            n <= CORE_COUNT,
            vector_dest(*ins) is Some,
            spec_handled(*ins),
            spec_registers_ok(*ins),
            forall|j: int| 0 <= j < n ==> #[trigger] lane_defined(*u, *rc, *ins, j),
            i <= n,
            v@.len() == i,
            forall|j: int| 0 <= j < i ==> v@[j] == vector_result_lane(*u, *rc, buffers@, *rm, *ins, j),
        decreases n - i,
    {
        v.push(vector_result_at(u, rc, buffers, rm, ins, i));
        i += 1;
    }
    assert(v@ =~= Seq::new(n as nat, |i: int| vector_result_lane(*u, *rc, buffers@, *rm, *ins, i)));
    v
}

/// The first `n` lanes of a scalar register.
fn scalar_lanes(u: &ShadingUnitContext, rc: &ShadingUnitRunContext, n: usize, a: RegisterAddress<Scalar>) -> (r: Vec<u32>)
    requires
        u.wf(),
        rc.wf(),
        n <= CORE_COUNT,
        scalar_reg_ok(a),
    ensures
        r@ == Seq::new(n as nat, |i: int| scalar_lane(u, rc, a, i)),
{
    let mut v: Vec<u32> = Vec::with_capacity(n);
    let mut i: usize = 0;
    while i < n
        invariant
            u.wf(),
            rc.wf(),
            n <= CORE_COUNT,
            scalar_reg_ok(a),
            i <= n,
            v@.len() == i,
            forall|j: int| 0 <= j < i ==> v@[j] == scalar_lane(u, rc, a, j),
        decreases n - i,
    {
        v.push(read_scalar(u, rc, a, i));
        i += 1;
    }
    assert(v@ =~= Seq::new(n as nat, |i: int| scalar_lane(u, rc, a, i)));
    v
}

/// The first `n` lanes of a vector register.
fn vector_lanes(u: &ShadingUnitContext, rc: &ShadingUnitRunContext, n: usize, a: RegisterAddress<Vector>) -> (r: Vec<[u32; 4]>)
    requires
        u.wf(),
        rc.wf(),
        n <= CORE_COUNT,
        vector_reg_ok(a),
    ensures
        r@ == Seq::new(n as nat, |i: int| vector_lane(u, rc, a, i)),
{
    let mut v: Vec<[u32; 4]> = Vec::with_capacity(n);
    let mut i: usize = 0;
    while i < n
        invariant
            u.wf(),
            rc.wf(),
            n <= CORE_COUNT,
            vector_reg_ok(a),
            i <= n,
            v@.len() == i,
            forall|j: int| 0 <= j < i ==> v@[j] == vector_lane(u, rc, a, j),
        decreases n - i,
    {
        v.push(read_vector(u, rc, a, i));
        i += 1;
    }
    assert(v@ =~= Seq::new(n as nat, |i: int| vector_lane(u, rc, a, i)));
    v
}

/// Elements `base .. base + n` of `v`.
fn copy_range<T: Copy>(v: &Vec<T>, base: usize, n: usize) -> (r: Vec<T>)
    requires
        base + n <= v@.len(),
    ensures
        r@ == v@.subrange(base as int, base + n),
{
    let mut out: Vec<T> = Vec::with_capacity(n);
    let len = v.len();
    let mut i: usize = 0;
    while i < n
        invariant
            base + n <= v@.len(),
            v@.len() == len,
            i <= n,
            out@ == v@.subrange(base as int, base + i),
        decreases n - i,
    {
        out.push(v[base + i]);
        i += 1;
        assert(out@ =~= v@.subrange(base as int, base + i));
    }
    out
}

/// Whether a texture load of `lt` copies texel bits or widens integer texels, which this
/// unit runs; the other load types make floating-point values.
pub open spec fn copies_texels(lt: TextureLoadType) -> bool {
    lt is F32FromF32 || lt is I32FromInt || lt is I32FromUInt
}

/// Whether a load of `lt` from a texture of `layout` reads the texel: a 32-bit float load
/// from a texture whose channels are narrower gives zeros without reading.
pub open spec fn fetches(lt: TextureLoadType, layout: PixelDataLayout) -> bool {
    !(lt is F32FromF32 && layout_channel_bytes(layout) != 4)
}

/// Channel `k` of the pixel bytes `px` of `layout`, read in the byte order `little` and made
/// a word: sign-extended for `I32FromInt`, zero-extended otherwise.
pub open spec fn texel_channel(px: Seq<u8>, layout: PixelDataLayout, lt: TextureLoadType, k: int, little: bool) -> u32 {
    let size = layout_channel_bytes(layout);
    let v = if little { le_value(px, k * size, size) } else { be_value(px, k * size, size) };
    if lt is I32FromInt && size == 1 {
        (v as u8) as i8 as i32 as u32
    } else if lt is I32FromInt && size == 2 {
        (v as u16) as i16 as i32 as u32
    } else {
        v as u32
    }
}

/// The vector a load gives for the pixel bytes `px`: the pixel's channels, then zeros; all
/// zeros for a 32-bit float load from narrower channels.
pub open spec fn texel_vector(px: Seq<u8>, layout: PixelDataLayout, lt: TextureLoadType, little: bool) -> [u32; 4] {
    if !fetches(lt, layout) {
        zero_vector()
    } else {
        let c = layout_channels(layout);
        [
            texel_channel(px, layout, lt, 0, little),
            if c > 1 { texel_channel(px, layout, lt, 1, little) } else { 0 },
            if c > 2 { texel_channel(px, layout, lt, 2, little) } else { 0 },
            if c > 2 { texel_channel(px, layout, lt, 3, little) } else { 0 },
        ]
    }
}

/// The bytes of pixel (x, y) of a texture.
pub open spec fn pixel_at(tex: TextureModule, x: u32, y: u32) -> Seq<u8> {
    let n = tex.config.pixel_layout.spec_pixel_bytes() as int;
    tex.memory@.subrange(tex.pixel_offset(x, y, n), tex.pixel_offset(x, y, n) + n)
}

/// The texture a shader's texture number names.
pub open spec fn mapped_texture(textures: Seq<TextureModule>, rm: ResourceMap, texture: u8) -> TextureModule {
    textures[rm.texture@[texture as int] as int]
}

/// Whether lane `i`'s coordinates (the first two components of `src`) name a pixel of the
/// texture.
pub open spec fn lane_texel_ok(u: ShadingUnitContext, rc: ShadingUnitRunContext, tex: TextureModule, src: RegisterAddress<Vector>, i: int) -> bool {
    let v = vector_lane(&u, &rc, src, i);
    texel_in_bounds(tex.config, tex.memory@.len() as int, v[0] as int, v[1] as int, tex.config.pixel_layout.spec_pixel_bytes() as int)
}

/// Whether a scalar load of channel `ch` of `layout` with `lt` is refused: a channel the
/// pixel does not have, or a 32-bit float load from narrower channels.
pub open spec fn scalar_load_refused(ch: VectorChannel, layout: PixelDataLayout, lt: TextureLoadType) -> bool {
    ch.spec_index() >= layout_channels(layout) || (lt is F32FromF32 && layout_channel_bytes(layout) != 4)
}

/// Whether a texture load runs: the texture number maps to a texture, the registers exist,
/// the load type copies or widens, and every lane read, and lane 0 for uniform coordinates,
/// names a pixel of the texture.
pub open spec fn load_runs(u: ShadingUnitContext, rc: ShadingUnitRunContext, textures: Seq<TextureModule>, rm: ResourceMap, n: int, ins: ShaderInstruction) -> bool {
    match ins {
        ShaderInstruction::LoadTextureVector { src_xy_u32, dst, load_type, texture } => {
            let tex = mapped_texture(textures, rm, texture);
            &&& (texture as int) < 64
            &&& (rm.texture@[texture as int] as int) < textures.len()
            &&& 0 <= n <= CORE_COUNT
            &&& vector_reg_ok(src_xy_u32) && vector_reg_ok(dst)
            &&& copies_texels(load_type)
            &&& writable(dst) && fetches(load_type, tex.config.pixel_layout) ==> {
                &&& forall|i: int| 0 <= i < n ==> #[trigger] lane_texel_ok(u, rc, tex, src_xy_u32, i)
                &&& src_xy_u32 is Constant ==> lane_texel_ok(u, rc, tex, src_xy_u32, 0)
            }
        },
        ShaderInstruction::LoadTextureScalar { src_xy_u32, channel, dst, load_type, texture } => {
            let tex = mapped_texture(textures, rm, texture);
            &&& (texture as int) < 64
            &&& (rm.texture@[texture as int] as int) < textures.len()
            &&& 0 <= n <= CORE_COUNT
            &&& vector_reg_ok(src_xy_u32) && scalar_reg_ok(dst)
            &&& copies_texels(load_type)
            &&& writable(dst) && !scalar_load_refused(channel, tex.config.pixel_layout, load_type) ==> {
                &&& forall|i: int| 0 <= i < n ==> #[trigger] lane_texel_ok(u, rc, tex, src_xy_u32, i)
                &&& src_xy_u32 is Constant ==> lane_texel_ok(u, rc, tex, src_xy_u32, 0)
            }
        },
        _ => false,
    }
}

/// What a texture load does, reading channels in the byte order `little`: refused, changing
/// nothing, when the destination cannot be written (or, for a scalar load, see
/// `scalar_load_refused`); otherwise the destination's first `n` lanes get, each, the value
/// loaded at that lane's coordinates, and nothing else changes.
pub open spec fn load_step(
    u0: ShadingUnitContext,
    rc0: ShadingUnitRunContext,
    textures: Seq<TextureModule>,
    rm: ResourceMap,
    n: int,
    ins: ShaderInstruction,
    u1: ShadingUnitContext,
    rc1: ShadingUnitRunContext,
    ok: bool,
    little: bool,
) -> bool {
    match ins {
        ShaderInstruction::LoadTextureVector { src_xy_u32, dst, load_type, texture } => {
            let tex = mapped_texture(textures, rm, texture);
            if !writable(dst) {
                !ok && u1 == u0 && rc1 == rc0
            } else {
                &&& ok
                &&& u1.scalar_stack_size == u0.scalar_stack_size
                &&& u1.vector_stack_size == u0.vector_stack_size
                &&& vector_written(u0, rc0, u1, rc1, dst, Seq::new(n as nat, |i: int| {
                    let v = vector_lane(&u0, &rc0, src_xy_u32, i);
                    texel_vector(pixel_at(tex, v[0], v[1]), tex.config.pixel_layout, load_type, little)
                }))
            }
        },
        ShaderInstruction::LoadTextureScalar { src_xy_u32, channel, dst, load_type, texture } => {
            let tex = mapped_texture(textures, rm, texture);
            if !writable(dst) || scalar_load_refused(channel, tex.config.pixel_layout, load_type) {
                !ok && u1 == u0 && rc1 == rc0
            } else {
                &&& ok
                &&& u1.scalar_stack_size == u0.scalar_stack_size
                &&& u1.vector_stack_size == u0.vector_stack_size
                &&& scalar_written(u0, rc0, u1, rc1, dst, Seq::new(n as nat, |i: int| {
                    let v = vector_lane(&u0, &rc0, src_xy_u32, i);
                    texel_channel(pixel_at(tex, v[0], v[1]), tex.config.pixel_layout, load_type, channel.spec_index() as int, little)
                }))
            }
        },
        _ => false,
    }
}

/// Whether an instruction loads from a texture.
pub open spec fn is_texture_load(ins: ShaderInstruction) -> bool {
    ins is LoadTextureVector || ins is LoadTextureScalar
}

/// Channel `k` of the pixel bytes `px` (see `texel_channel`).
fn texel_channel_exec(px: &Vec<u8>, layout: PixelDataLayout, lt: TextureLoadType, k: usize, little: bool) -> (r: u32)
    requires
        k < layout_channels(layout),
        px@.len() == layout.spec_pixel_bytes(),
    ensures
        r == texel_channel(px@, layout, lt, k as int, little),
{
    proof {
        reveal_with_fuel(le_value, 5);
        reveal_with_fuel(be_value, 5);
    }
    let size: usize = match layout {
        PixelDataLayout::D8x1 | PixelDataLayout::D8x2 | PixelDataLayout::D8x4 => 1,
        PixelDataLayout::D16x1 | PixelDataLayout::D16x2 | PixelDataLayout::D16x4 => 2,
        _ => 4,
    };
    let b = k * size;
    let v: u32 = if size == 1 {
        px[b] as u32
    } else if size == 2 {
        if little { px[b] as u32 + 256 * px[b + 1] as u32 } else { px[b + 1] as u32 + 256 * px[b] as u32 }
    } else if little {
        px[b] as u32 + 256 * px[b + 1] as u32 + 65536 * px[b + 2] as u32 + 16777216 * px[b + 3] as u32
    } else {
        px[b + 3] as u32 + 256 * px[b + 2] as u32 + 65536 * px[b + 1] as u32 + 16777216 * px[b] as u32
    };
    match lt {
        TextureLoadType::I32FromInt => {
            if size == 1 {
                (v as u8) as i8 as i32 as u32
            } else if size == 2 {
                (v as u16) as i16 as i32 as u32
            } else {
                v
            }
        },
        _ => v,
    }
}

/// The bytes of pixel (x, y) of `tex`.
fn texel_bytes(tex: &TextureModule, x: u32, y: u32) -> (r: Vec<u8>)
    requires
        texel_in_bounds(tex.config, tex.memory@.len() as int, x as int, y as int, tex.config.pixel_layout.spec_pixel_bytes() as int),
    ensures
        r@ == pixel_at(*tex, x, y),
        r@.len() == tex.config.pixel_layout.spec_pixel_bytes(),
{
    let n = tex.config.pixel_layout.pixel_bytes();
    tex.fetch(x, y, n)
}

/// The vector a load gives at (x, y) (see `texel_vector`).
fn texel_vector_exec(tex: &TextureModule, x: u32, y: u32, lt: TextureLoadType, little: bool) -> (r: [u32; 4])
    requires
        fetches(lt, tex.config.pixel_layout) ==> texel_in_bounds(tex.config, tex.memory@.len() as int, x as int, y as int,
            tex.config.pixel_layout.spec_pixel_bytes() as int),
    ensures
        r == texel_vector(pixel_at(*tex, x, y), tex.config.pixel_layout, lt, little),
{
    let layout = tex.config.pixel_layout;
    let wide = match layout {
        PixelDataLayout::D32x1 | PixelDataLayout::D32x2 | PixelDataLayout::D32x4 => true,
        _ => false,
    };
    let zero_load = match lt {
        TextureLoadType::F32FromF32 => !wide,
        _ => false,
    };
    if zero_load {
        return [0, 0, 0, 0];
    }
    let px = texel_bytes(tex, x, y);
    let c: usize = match layout {
        PixelDataLayout::D8x1 | PixelDataLayout::D16x1 | PixelDataLayout::D32x1 => 1,
        PixelDataLayout::D8x2 | PixelDataLayout::D16x2 | PixelDataLayout::D32x2 => 2,
        _ => 4,
    };
    let a = texel_channel_exec(&px, layout, lt, 0, little);
    let b = if c > 1 { texel_channel_exec(&px, layout, lt, 1, little) } else { 0 };
    let d = if c > 2 { texel_channel_exec(&px, layout, lt, 2, little) } else { 0 };
    let e = if c > 2 { texel_channel_exec(&px, layout, lt, 3, little) } else { 0 };
    [a, b, d, e]
}

/// Runs a texture load (see `load_step`), reading multi-byte channels in the byte order
/// `little`.
fn run_texture_load(
    u: &mut ShadingUnitContext,
    rc: &mut ShadingUnitRunContext,
    n: usize,
    ins: &ShaderInstruction,
    textures: &Vec<TextureModule>,
    rm: &ResourceMap,
    little: bool,
) -> (r: Option<()>)
    requires
        old(u).wf(),
        old(rc).wf(),
        load_runs(*old(u), *old(rc), textures@, *rm, n as int, *ins),
    ensures
        final(u).wf(),
        final(rc).wf(),
        load_step(*old(u), *old(rc), textures@, *rm, n as int, *ins, *final(u), *final(rc), r is Some, little),
{
    match *ins {
        ShaderInstruction::LoadTextureVector { src_xy_u32, dst, load_type, texture } => {
            let tex = &textures[rm.texture[texture as usize] as usize];
            let is_writable = match dst {
                RegisterAddress::Local(..) | RegisterAddress::Output(..) => true,
                _ => false,
            };
            if !is_writable {
                return None;
            }
            let mut vals: Vec<[u32; 4]> = Vec::new();
            let mut i: usize = 0;
            while i < n
                invariant
                    u.wf(),
                    rc.wf(),
                    i <= n <= CORE_COUNT,
                    *tex == mapped_texture(textures@, *rm, texture),
                    vector_reg_ok(src_xy_u32),
                    fetches(load_type, tex.config.pixel_layout) ==> forall|j: int| 0 <= j < n ==> #[trigger] lane_texel_ok(*u, *rc, *tex, src_xy_u32, j),
                    vals@.len() == i,
                    forall|j: int| 0 <= j < i ==> #[trigger] vals@[j] == ({
                        let v = vector_lane(&*u, &*rc, src_xy_u32, j);
                        texel_vector(pixel_at(*tex, v[0], v[1]), tex.config.pixel_layout, load_type, little)
                    }),
                decreases n - i,
            {
                let v = read_vector(u, rc, src_xy_u32, i);
                proof {
                    if fetches(load_type, tex.config.pixel_layout) {
                        assert(lane_texel_ok(*u, *rc, *tex, src_xy_u32, i as int));
                    }
                }
                vals.push(texel_vector_exec(tex, v[0], v[1], load_type, little));
                i = i + 1;
            }
            let ghost want = Seq::new(n as nat, |j: int| {
                let v = vector_lane(&*u, &*rc, src_xy_u32, j);
                texel_vector(pixel_at(*tex, v[0], v[1]), tex.config.pixel_layout, load_type, little)
            });
            assert(vals@ =~= want);
            write_vector(u, rc, dst, &vals);
            Some(())
        },
        ShaderInstruction::LoadTextureScalar { src_xy_u32, channel, dst, load_type, texture } => {
            let tex = &textures[rm.texture[texture as usize] as usize];
            let is_writable = match dst {
                RegisterAddress::Local(..) | RegisterAddress::Output(..) => true,
                _ => false,
            };
            if !is_writable {
                return None;
            }
            let layout = tex.config.pixel_layout;
            let c: usize = match layout {
                PixelDataLayout::D8x1 | PixelDataLayout::D16x1 | PixelDataLayout::D32x1 => 1,
                PixelDataLayout::D8x2 | PixelDataLayout::D16x2 | PixelDataLayout::D32x2 => 2,
                _ => 4,
            };
            let wide = match layout {
                PixelDataLayout::D32x1 | PixelDataLayout::D32x2 | PixelDataLayout::D32x4 => true,
                _ => false,
            };
            let float_narrow = match load_type {
                TextureLoadType::F32FromF32 => !wide,
                _ => false,
            };
            let k = channel.index();
            if k >= c || float_narrow {
                return None;
            }
            let mut vals: Vec<u32> = Vec::new();
            let mut i: usize = 0;
            while i < n
                invariant
                    u.wf(),
                    rc.wf(),
                    i <= n <= CORE_COUNT,
                    *tex == mapped_texture(textures@, *rm, texture),
                    layout == tex.config.pixel_layout,
                    k == channel.spec_index(),
                    k < layout_channels(layout),
                    vector_reg_ok(src_xy_u32),
                    forall|j: int| 0 <= j < n ==> #[trigger] lane_texel_ok(*u, *rc, *tex, src_xy_u32, j),
                    vals@.len() == i,
                    forall|j: int| 0 <= j < i ==> #[trigger] vals@[j] == ({
                        let v = vector_lane(&*u, &*rc, src_xy_u32, j);
                        texel_channel(pixel_at(*tex, v[0], v[1]), layout, load_type, k as int, little)
                    }),
                decreases n - i,
            {
                let v = read_vector(u, rc, src_xy_u32, i);
                proof { assert(lane_texel_ok(*u, *rc, *tex, src_xy_u32, i as int)); }
                let px = texel_bytes(tex, v[0], v[1]);
                vals.push(texel_channel_exec(&px, layout, load_type, k, little));
                i = i + 1;
            }
            let ghost want = Seq::new(n as nat, |j: int| {
                let v = vector_lane(&*u, &*rc, src_xy_u32, j);
                texel_channel(pixel_at(*tex, v[0], v[1]), layout, load_type, k as int, little)
            });
            assert(vals@ =~= want);
            write_scalar(u, rc, dst, &vals);
            Some(())
        },
        _ => None,
    }
}

impl ShadingUnitContext {
    /// Runs one instruction on the first `n` lanes, with `buffers` the bytes of the GPU's
    /// buffers, `textures` its texture slots, and `resource_map` mapping the shader's buffer
    /// and texture numbers to them. Gives `None`, changing nothing, when the instruction is
    /// refused: a copy of a register onto itself, a destination that is a constant or an input
    /// register, or a scalar texture load the texture cannot give (see `load_step`).
    /// Multi-byte texture channels are read in the machine's byte order, which is either.
    pub fn run_instruction(
        &mut self,
        n: usize,
        instruction: &ShaderInstruction,
        run_context: &mut ShadingUnitRunContext,
        buffers: &mut Vec<Vec<u8>>,
        textures: &Vec<TextureModule>,
        resource_map: &ResourceMap,
    ) -> (r: Option<()>)
        requires
            old(self).wf(),
            old(run_context).wf(),
            old(buffers)@.len() == 256,
            is_texture_load(*instruction) ==> load_runs(*old(self), *old(run_context), textures@, *resource_map, n as int, *instruction),
            !is_texture_load(*instruction) ==> spec_runs(*old(self), *old(run_context), n as int, *instruction),
        ensures
            final(self).wf(),
            final(run_context).wf(),
            final(buffers)@.len() == 256,
            !is_texture_load(*instruction) ==> spec_step(*old(self), *old(run_context), old(buffers)@, *resource_map, n as int,
                *instruction, *final(self), *final(run_context), final(buffers)@, r is Some),
            is_texture_load(*instruction) ==> final(buffers)@ == old(buffers)@ && exists|little: bool|
                #[trigger] load_step(*old(self), *old(run_context), textures@, *resource_map, n as int, *instruction, *final(self),
                    *final(run_context), r is Some, little),
    {
        match *instruction {
            ShaderInstruction::LoadTextureVector { .. } | ShaderInstruction::LoadTextureScalar { .. } => {
                let little = native_word([1u8, 0u8, 0u8, 0u8]) == 1;
                return run_texture_load(self, run_context, n, instruction, textures, resource_map, little);
            },
            _ => {},
        }
        if refuses(instruction) {
            return None;
        }
        match write_target_of(instruction) {
            Some(b) => {
                let k = resource_map.buffer[b as usize] as usize;
                let ghost b0 = buffers@;
                let mut bytes = buffers.remove(k);
                write_buffer_lanes(self, run_context, n, instruction, &mut bytes);
                buffers.insert(k, bytes);
                proof {
                    assert forall|j: int| 0 <= j < b0.len() && j != k implies buffers@[j] == b0[j] by {
                        if j < k {
                        } else {
                            assert(buffers@[j] == b0.remove(k as int)[j - 1]);
                        }
                    }
                }
                return Some(());
            },
            None => {},
        }
        match *instruction {
            ShaderInstruction::Nop => {},
            ShaderInstruction::PushVector(a) => {
                let vals = vector_lanes(self, run_context, n, a);
                let base = self.vector_stack_size * CORE_COUNT;
                write_lanes(&mut self.vector_stack_array, base, &vals);
                self.vector_stack_size = self.vector_stack_size + 1;
            },
            ShaderInstruction::PushScalar(a) => {
                let vals = scalar_lanes(self, run_context, n, a);
                let base = self.vector_stack_size * CORE_COUNT;
                write_lanes(&mut self.scalar_stack_array, base, &vals);
                self.scalar_stack_size = self.scalar_stack_size + 1;
            },
            ShaderInstruction::PopVector(a) => {
                self.vector_stack_size = self.vector_stack_size - 1;
                let vals = copy_range(&self.vector_stack_array, self.vector_stack_size * CORE_COUNT, n);
                write_vector(self, run_context, a, &vals);
            },
            ShaderInstruction::PopScalar(a) => {
                self.scalar_stack_size = self.scalar_stack_size - 1;
                let vals = copy_range(&self.scalar_stack_array, self.scalar_stack_size * CORE_COUNT, n);
                write_scalar(self, run_context, a, &vals);
            },
            _ => {
                match scalar_destination(instruction) {
                    Some(d) => {
                        let vals = scalar_results(self, run_context, &*buffers, resource_map, n, instruction);
                        write_scalar(self, run_context, d, &vals);
                    },
                    None => {
                        match vector_destination(instruction) {
                            Some(d) => {
                                let vals = vector_results(self, run_context, &*buffers, resource_map, n, instruction);
                                write_vector(self, run_context, d, &vals);
                            },
                            None => {},
                        }
                    },
                }
            },
        }
        Some(())
    }
}

/// A vector pushed and then popped into a writable register gives that register the pushed
/// register's first `n` lanes, and leaves the vector stack as deep as it was.
pub proof fn law_push_then_pop_vector(
    u0: ShadingUnitContext,
    rc0: ShadingUnitRunContext,
    u1: ShadingUnitContext,
    rc1: ShadingUnitRunContext,
    u2: ShadingUnitContext,
    rc2: ShadingUnitRunContext,
    buffers: Seq<Vec<u8>>,
    rm: ResourceMap,
    n: int,
    a: RegisterAddress<Vector>,
    b: RegisterAddress<Vector>,
    ok1: bool,
    ok2: bool,
)
    requires
        u0.wf(),
        rc0.wf(),
        spec_runs(u0, rc0, n, ShaderInstruction::PushVector(a)),
        spec_step(u0, rc0, buffers, rm, n, ShaderInstruction::PushVector(a), u1, rc1, buffers, ok1),
        spec_step(u1, rc1, buffers, rm, n, ShaderInstruction::PopVector(b), u2, rc2, buffers, ok2),
        writable(b),
        vector_reg_ok(b),
    ensures
        ok1,
        ok2,
        u2.vector_stack_size == u0.vector_stack_size,
        forall|i: int| 0 <= i < n ==> vector_lane(&u2, &rc2, b, i) == vector_lane(&u0, &rc0, a, i),
{
    let top = slot(u0.vector_stack_size as int, 0);
    let vals = Seq::new(n as nat, |i: int| vector_lane(&u0, &rc0, a, i));
    assert(u1.vector_stack_array@.subrange(top, top + n) =~= vals);
    assert forall|i: int| 0 <= i < n implies vector_lane(&u2, &rc2, b, i) == vector_lane(&u0, &rc0, a, i) by {
        match b {
            RegisterAddress::Local(k, _) => assert(slot(k as int, i) == slot(k as int, 0) + i),
            _ => assert(slot(b->Output_0 as int, i) == slot(b->Output_0 as int, 0) + i),
        }
    }
}

/// A scalar pushed and then popped into a writable register gives that register the pushed
/// register's first `n` lanes, and leaves the scalar stack as deep as it was, when the two
/// stacks are equally deep: a scalar push writes at the depth of the vector stack.
pub proof fn law_push_then_pop_scalar(
    u0: ShadingUnitContext,
    rc0: ShadingUnitRunContext,
    u1: ShadingUnitContext,
    rc1: ShadingUnitRunContext,
    u2: ShadingUnitContext,
    rc2: ShadingUnitRunContext,
    buffers: Seq<Vec<u8>>,
    rm: ResourceMap,
    n: int,
    a: RegisterAddress<Scalar>,
    b: RegisterAddress<Scalar>,
    ok1: bool,
    ok2: bool,
)
    requires
        u0.wf(),
        rc0.wf(),
        u0.scalar_stack_size == u0.vector_stack_size,
        spec_runs(u0, rc0, n, ShaderInstruction::PushScalar(a)),
        spec_step(u0, rc0, buffers, rm, n, ShaderInstruction::PushScalar(a), u1, rc1, buffers, ok1),
        spec_step(u1, rc1, buffers, rm, n, ShaderInstruction::PopScalar(b), u2, rc2, buffers, ok2),
        writable(b),
        scalar_reg_ok(b),
    ensures
        ok1,
        ok2,
        u2.scalar_stack_size == u0.scalar_stack_size,
        forall|i: int| 0 <= i < n ==> scalar_lane(&u2, &rc2, b, i) == scalar_lane(&u0, &rc0, a, i),
{
    let top = slot(u0.vector_stack_size as int, 0);
    let vals = Seq::new(n as nat, |i: int| scalar_lane(&u0, &rc0, a, i));
    assert(u1.scalar_stack_array@.subrange(top, top + n) =~= vals);
    assert forall|i: int| 0 <= i < n implies scalar_lane(&u2, &rc2, b, i) == scalar_lane(&u0, &rc0, a, i) by {
        match b {
            RegisterAddress::Local(k, _) => assert(slot(k as int, i) == slot(k as int, 0) + i),
            _ => assert(slot(b->Output_0 as int, i) == slot(b->Output_0 as int, 0) + i),
        }
    }
}

/// A byte a one-lane write stores in a buffer is what a one-lane byte read at the same offset
/// then gives, when the byte lies before the buffer's last byte (a store reaching the last byte
/// is dropped).
pub proof fn law_byte_write_then_read(
    u0: ShadingUnitContext,
    rc0: ShadingUnitRunContext,
    b0: Seq<Vec<u8>>,
    u1: ShadingUnitContext,
    rc1: ShadingUnitRunContext,
    b1: Seq<Vec<u8>>,
    u2: ShadingUnitContext,
    rc2: ShadingUnitRunContext,
    rm: ResourceMap,
    src: RegisterAddress<Scalar>,
    dst: RegisterAddress<Scalar>,
    offset: u32,
    buffer: u8,
    ok1: bool,
    ok2: bool,
)
    requires
        u0.wf(),
        rc0.wf(),
        b0.len() == 256,
        (offset as int) + 1 < b0[rm.buffer@[buffer as int] as int]@.len(),
        spec_step(u0, rc0, b0, rm, 1, ShaderInstruction::WriteScalarToBuffer {
            data_type: BufferWriteType::U8, scalar: src, offset, addr_dst_u32: None, buffer,
        }, u1, rc1, b1, ok1),
        spec_register_step(u1, rc1, b1, rm, 1, ShaderInstruction::ReadBufferToScalar {
            data_type: BufferReadType::D8, scalar: dst, offset, addr_src_u32: None, buffer,
        }, u2, rc2, ok2),
        writable(dst),
        scalar_reg_ok(dst),
    ensures
        ok2,
        scalar_lane(&u2, &rc2, dst, 0) == scalar_lane(&u0, &rc0, src, 0) as u8,
{
    let k = rm.buffer@[buffer as int] as int;
    let ins = ShaderInstruction::WriteScalarToBuffer {
        data_type: BufferWriteType::U8, scalar: src, offset, addr_dst_u32: None, buffer,
    };
    let before = b0[k]@;
    assert(spec_buffer_after(u0, rc0, ins, before, 0) == before);
    let v = scalar_lane(&u0, &rc0, src, 0);
    assert(b1[k]@ == spec_store(1, seq![v], before, offset as int));
    assert(b1[k]@[offset as int] == v as u8);
    assert(mapped_buffer(b1, rm, buffer) == b1[k]@);
}

} // verus!
