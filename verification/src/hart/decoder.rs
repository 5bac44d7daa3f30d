//! Decoding and disassembly of RV32IM instruction words.

use vstd::prelude::*;
use crate::text::chars_to_string;

verus! {

/// The memory-ordering sets of a `fence`: device input (i), device output (o), memory reads (r)
/// and memory writes (w).
#[derive(Copy, Clone, Debug, PartialEq, Eq, Structural)]
pub enum FenceOps {
    Empty,
    W,
    R,
    RW,
    O,
    OW,
    OR,
    ORW,
    I,
    IW,
    IR,
    IRW,
    IO,
    IOW,
    IOR,
    IORW,
}

impl FenceOps {
    /// The set named by a 4-bit field: bit 3 input, bit 2 output, bit 1 read, bit 0 write.
    pub open spec fn spec_from_bits(bits: u32) -> FenceOps {
        let b = bits % 16;
        if b == 0 { FenceOps::Empty }
        else if b == 1 { FenceOps::W }
        else if b == 2 { FenceOps::R }
        else if b == 3 { FenceOps::RW }
        else if b == 4 { FenceOps::O }
        else if b == 5 { FenceOps::OW }
        else if b == 6 { FenceOps::OR }
        else if b == 7 { FenceOps::ORW }
        else if b == 8 { FenceOps::I }
        else if b == 9 { FenceOps::IW }
        else if b == 10 { FenceOps::IR }
        else if b == 11 { FenceOps::IRW }
        else if b == 12 { FenceOps::IO }
        else if b == 13 { FenceOps::IOW }
        else if b == 14 { FenceOps::IOR }
        else { FenceOps::IORW }
    }

    /// The set named by the low four bits of `bits`.
    pub fn from_bits(bits: u32) -> (r: FenceOps)
        ensures
            r == Self::spec_from_bits(bits),
    {
        match bits % 16 {
            0 => FenceOps::Empty,
            1 => FenceOps::W,
            2 => FenceOps::R,
            3 => FenceOps::RW,
            4 => FenceOps::O,
            5 => FenceOps::OW,
            6 => FenceOps::OR,
            7 => FenceOps::ORW,
            8 => FenceOps::I,
            9 => FenceOps::IW,
            10 => FenceOps::IR,
            11 => FenceOps::IRW,
            12 => FenceOps::IO,
            13 => FenceOps::IOW,
            14 => FenceOps::IOR,
            _ => FenceOps::IORW,
        }
    }

    /// The letters of the set, in the order i, o, r, w.
    pub open spec fn spec_text(self) -> Seq<char> {
        match self {
            FenceOps::Empty => seq![],
            FenceOps::W => seq!['w'],
            FenceOps::R => seq!['r'],
            FenceOps::RW => seq!['r', 'w'],
            FenceOps::O => seq!['o'],
            FenceOps::OW => seq!['o', 'w'],
            FenceOps::OR => seq!['o', 'r'],
            FenceOps::ORW => seq!['o', 'r', 'w'],
            FenceOps::I => seq!['i'],
            FenceOps::IW => seq!['i', 'w'],
            FenceOps::IR => seq!['i', 'r'],
            FenceOps::IRW => seq!['i', 'r', 'w'],
            FenceOps::IO => seq!['i', 'o'],
            FenceOps::IOW => seq!['i', 'o', 'w'],
            FenceOps::IOR => seq!['i', 'o', 'r'],
            FenceOps::IORW => seq!['i', 'o', 'r', 'w'],
        }
    }

    /// The letters of the set, in the order i, o, r, w.
    pub fn text(&self) -> (r: Vec<char>)
        ensures
            r@ == self.spec_text(),
    {
        match self {
            FenceOps::Empty => vec![],
            FenceOps::W => vec!['w'],
            FenceOps::R => vec!['r'],
            FenceOps::RW => vec!['r', 'w'],
            FenceOps::O => vec!['o'],
            FenceOps::OW => vec!['o', 'w'],
            FenceOps::OR => vec!['o', 'r'],
            FenceOps::ORW => vec!['o', 'r', 'w'],
            FenceOps::I => vec!['i'],
            FenceOps::IW => vec!['i', 'w'],
            FenceOps::IR => vec!['i', 'r'],
            FenceOps::IRW => vec!['i', 'r', 'w'],
            FenceOps::IO => vec!['i', 'o'],
            FenceOps::IOW => vec!['i', 'o', 'w'],
            FenceOps::IOR => vec!['i', 'o', 'r'],
            FenceOps::IORW => vec!['i', 'o', 'r', 'w'],
        }
    }
}

/// A decoded RV32IM instruction, with the `Zicsr` and privileged instructions the harts run.
#[derive(Copy, Clone, Debug, PartialEq, Eq, Structural)]
pub enum Rv32Op {
    Lui { immediate: u32, rd: u8 },
    Auipc { immediate: u32, rd: u8 },
    Jal { immediate: i32, rd: u8 },
    Jalr { immediate: i32, rs1: u8, rd: u8 },
    Beq { immediate: i32, rs1: u8, rs2: u8 },
    Bne { immediate: i32, rs1: u8, rs2: u8 },
    Blt { immediate: i32, rs1: u8, rs2: u8 },
    Bge { immediate: i32, rs1: u8, rs2: u8 },
    Bltu { immediate: i32, rs1: u8, rs2: u8 },
    Bgeu { immediate: i32, rs1: u8, rs2: u8 },
    Lb { immediate: i32, rs1: u8, rd: u8 },
    Lh { immediate: i32, rs1: u8, rd: u8 },
    Lw { immediate: i32, rs1: u8, rd: u8 },
    Lbu { immediate: i32, rs1: u8, rd: u8 },
    Lhu { immediate: i32, rs1: u8, rd: u8 },
    Sb { immediate: i32, rs1: u8, rs2: u8 },
    Sh { immediate: i32, rs1: u8, rs2: u8 },
    Sw { immediate: i32, rs1: u8, rs2: u8 },
    Addi { immediate: i32, rd: u8, rs1: u8 },
    Slti { immediate: i32, rd: u8, rs1: u8 },
    Sltiu { immediate: i32, rd: u8, rs1: u8 },
    Xori { immediate: i32, rd: u8, rs1: u8 },
    Ori { immediate: i32, rd: u8, rs1: u8 },
    Andi { immediate: i32, rd: u8, rs1: u8 },
    Slli { shamt: u8, rd: u8, rs1: u8 },
    Srli { shamt: u8, rd: u8, rs1: u8 },
    Srai { shamt: u8, rd: u8, rs1: u8 },
    Add { rd: u8, rs1: u8, rs2: u8 },
    Sub { rd: u8, rs1: u8, rs2: u8 },
    Sll { rd: u8, rs1: u8, rs2: u8 },
    Slt { rd: u8, rs1: u8, rs2: u8 },
    Sltu { rd: u8, rs1: u8, rs2: u8 },
    Xor { rd: u8, rs1: u8, rs2: u8 },
    Srl { rd: u8, rs1: u8, rs2: u8 },
    Sra { rd: u8, rs1: u8, rs2: u8 },
    Or { rd: u8, rs1: u8, rs2: u8 },
    And { rd: u8, rs1: u8, rs2: u8 },
    Mul { rd: u8, rs1: u8, rs2: u8 },
    Mulh { rd: u8, rs1: u8, rs2: u8 },
    Mulhsu { rd: u8, rs1: u8, rs2: u8 },
    Mulhu { rd: u8, rs1: u8, rs2: u8 },
    Div { rd: u8, rs1: u8, rs2: u8 },
    Divu { rd: u8, rs1: u8, rs2: u8 },
    Rem { rd: u8, rs1: u8, rs2: u8 },
    Remu { rd: u8, rs1: u8, rs2: u8 },
    Fence { predecessor: FenceOps, successor: FenceOps },
    Fencei,
    Ecall,
    EBreak,
    Wfi,
    Mret,
    Csrrw { csr: u16, rd: u8, rs1: u8 },
    Csrrs { csr: u16, rd: u8, rs1: u8 },
    Csrrc { csr: u16, rd: u8, rs1: u8 },
    Csrrwi { csr: u16, rd: u8, immediate: u8 },
    Csrrsi { csr: u16, rd: u8, immediate: u8 },
    Csrrci { csr: u16, rd: u8, immediate: u8 },
    Invalid(u32),
}

/// Bits 6..0: the major opcode.
pub open spec fn spec_opcode(w: u32) -> u32 { w & 0x7F }
/// Bits 11..7: the destination register.
pub open spec fn spec_rd(w: u32) -> u8 { ((w >> 7u32) & 0x1F) as u8 }
/// Bits 14..12: the minor opcode.
pub open spec fn spec_funct3(w: u32) -> u32 { (w >> 12u32) & 0x7 }
/// Bits 19..15: the first source register.
pub open spec fn spec_rs1(w: u32) -> u8 { ((w >> 15u32) & 0x1F) as u8 }
/// Bits 24..20: the second source register.
pub open spec fn spec_rs2(w: u32) -> u8 { ((w >> 20u32) & 0x1F) as u8 }
/// Bits 31..25.
pub open spec fn spec_funct7(w: u32) -> u32 { w >> 25u32 }
/// The I-type immediate: bits 31..20, sign-extended.
pub open spec fn spec_imm_i(w: u32) -> i32 {
    ((if w >> 31u32 == 1 { 0xFFFFF000u32 } else { 0u32 }) | (w >> 20u32)) as i32
}
/// The S-type immediate: bits 31..25 and 11..7, sign-extended.
pub open spec fn spec_imm_s(w: u32) -> i32 {
    ((if w >> 31u32 == 1 { 0xFFFFF000u32 } else { 0u32 }) | ((w >> 25u32) << 5u32) | ((w >> 7u32) & 0x1F)) as i32
}
/// The B-type immediate: bit 31 at 12, bit 7 at 11, bits 30..25 at 10..5, bits 11..8 at 4..1.
pub open spec fn spec_imm_b(w: u32) -> i32 {
    ((if w >> 31u32 == 1 { 0xFFFFF000u32 } else { 0u32 }) | (((w >> 7u32) & 1) << 11u32)
        | (((w >> 25u32) & 0x3F) << 5u32) | (((w >> 8u32) & 0xF) << 1u32)) as i32
}
/// The U-type immediate: bits 31..12 in place.
pub open spec fn spec_imm_u(w: u32) -> u32 { w & 0xFFFFF000 }
/// The J-type immediate: bit 31 at 20, bits 19..12 in place, bit 20 at 11, bits 30..21 at 10..1.
pub open spec fn spec_imm_j(w: u32) -> i32 {
    ((if w >> 31u32 == 1 { 0xFFF00000u32 } else { 0u32 }) | (w & 0xFF000) | (((w >> 20u32) & 1) << 11u32)
        | (((w >> 21u32) & 0x3FF) << 1u32)) as i32
}
/// Bits 31..20 as a CSR number.
pub open spec fn spec_csr(w: u32) -> u16 { (w >> 20u32) as u16 }

/// The instruction an RV32IM word encodes.
pub open spec fn spec_decode(w: u32) -> Rv32Op {
    let opcode = spec_opcode(w);
    let f3 = spec_funct3(w);
    let f7 = spec_funct7(w);
    let rd = spec_rd(w);
    let rs1 = spec_rs1(w);
    let rs2 = spec_rs2(w);
    if opcode == 0x37 {
        Rv32Op::Lui { immediate: spec_imm_u(w), rd }
    } else if opcode == 0x17 {
        Rv32Op::Auipc { immediate: spec_imm_u(w), rd }
    } else if opcode == 0x6F {
        Rv32Op::Jal { immediate: spec_imm_j(w), rd }
    } else if opcode == 0x67 && f3 == 0 {
        Rv32Op::Jalr { immediate: spec_imm_i(w), rs1, rd }
    } else if opcode == 0x63 {
        let immediate = spec_imm_b(w);
        if f3 == 0 { Rv32Op::Beq { immediate, rs1, rs2 } }
        else if f3 == 1 { Rv32Op::Bne { immediate, rs1, rs2 } }
        else if f3 == 4 { Rv32Op::Blt { immediate, rs1, rs2 } }
        else if f3 == 5 { Rv32Op::Bge { immediate, rs1, rs2 } }
        else if f3 == 6 { Rv32Op::Bltu { immediate, rs1, rs2 } }
        else if f3 == 7 { Rv32Op::Bgeu { immediate, rs1, rs2 } }
        else { Rv32Op::Invalid(w) }
    } else if opcode == 0x03 {
        let immediate = spec_imm_i(w);
        if f3 == 0 { Rv32Op::Lb { immediate, rs1, rd } }
        else if f3 == 1 { Rv32Op::Lh { immediate, rs1, rd } }
        else if f3 == 2 { Rv32Op::Lw { immediate, rs1, rd } }
        else if f3 == 4 { Rv32Op::Lbu { immediate, rs1, rd } }
        else if f3 == 5 { Rv32Op::Lhu { immediate, rs1, rd } }
        else { Rv32Op::Invalid(w) }
    } else if opcode == 0x23 {
        let immediate = spec_imm_s(w);
        if f3 == 0 { Rv32Op::Sb { immediate, rs1, rs2 } }
        else if f3 == 1 { Rv32Op::Sh { immediate, rs1, rs2 } }
        else if f3 == 2 { Rv32Op::Sw { immediate, rs1, rs2 } }
        else { Rv32Op::Invalid(w) }
    } else if opcode == 0x13 {
        let immediate = spec_imm_i(w);
        if f3 == 0 { Rv32Op::Addi { immediate, rd, rs1 } }
        else if f3 == 2 { Rv32Op::Slti { immediate, rd, rs1 } }
        else if f3 == 3 { Rv32Op::Sltiu { immediate, rd, rs1 } }
        else if f3 == 4 { Rv32Op::Xori { immediate, rd, rs1 } }
        else if f3 == 6 { Rv32Op::Ori { immediate, rd, rs1 } }
        else if f3 == 7 { Rv32Op::Andi { immediate, rd, rs1 } }
        else if f3 == 1 && f7 == 0 { Rv32Op::Slli { shamt: rs2, rd, rs1 } }
        else if f3 == 5 && f7 == 0 { Rv32Op::Srli { shamt: rs2, rd, rs1 } }
        else if f3 == 5 && f7 == 0x20 { Rv32Op::Srai { shamt: rs2, rd, rs1 } }
        else { Rv32Op::Invalid(w) }
    } else if opcode == 0x33 {
        if f7 == 0 {
            if f3 == 0 { Rv32Op::Add { rd, rs1, rs2 } }
            else if f3 == 1 { Rv32Op::Sll { rd, rs1, rs2 } }
            else if f3 == 2 { Rv32Op::Slt { rd, rs1, rs2 } }
            else if f3 == 3 { Rv32Op::Sltu { rd, rs1, rs2 } }
            else if f3 == 4 { Rv32Op::Xor { rd, rs1, rs2 } }
            else if f3 == 5 { Rv32Op::Srl { rd, rs1, rs2 } }
            else if f3 == 6 { Rv32Op::Or { rd, rs1, rs2 } }
            else { Rv32Op::And { rd, rs1, rs2 } }
        } else if f7 == 0x20 {
            if f3 == 0 { Rv32Op::Sub { rd, rs1, rs2 } }
            else if f3 == 5 { Rv32Op::Sra { rd, rs1, rs2 } }
            else { Rv32Op::Invalid(w) }
        } else if f7 == 1 {
            if f3 == 0 { Rv32Op::Mul { rd, rs1, rs2 } }
            else if f3 == 1 { Rv32Op::Mulh { rd, rs1, rs2 } }
            else if f3 == 2 { Rv32Op::Mulhsu { rd, rs1, rs2 } }
            else if f3 == 3 { Rv32Op::Mulhu { rd, rs1, rs2 } }
            else if f3 == 4 { Rv32Op::Div { rd, rs1, rs2 } }
            else if f3 == 5 { Rv32Op::Divu { rd, rs1, rs2 } }
            else if f3 == 6 { Rv32Op::Rem { rd, rs1, rs2 } }
            else { Rv32Op::Remu { rd, rs1, rs2 } }
        } else {
            Rv32Op::Invalid(w)
        }
    } else if opcode == 0x0F {
        if f3 == 0 {
            Rv32Op::Fence {
                predecessor: FenceOps::spec_from_bits(w >> 24u32),
                successor: FenceOps::spec_from_bits(w >> 20u32),
            }
        } else if f3 == 1 {
            Rv32Op::Fencei
        } else {
            Rv32Op::Invalid(w)
        }
    } else if opcode == 0x73 {
        let csr = spec_csr(w);
        if w == 0x00000073 { Rv32Op::Ecall }
        else if w == 0x00100073 { Rv32Op::EBreak }
        else if w == 0x10500073 { Rv32Op::Wfi }
        else if w == 0x30200073 { Rv32Op::Mret }
        else if f3 == 1 { Rv32Op::Csrrw { csr, rd, rs1 } }
        else if f3 == 2 { Rv32Op::Csrrs { csr, rd, rs1 } }
        else if f3 == 3 { Rv32Op::Csrrc { csr, rd, rs1 } }
        else if f3 == 5 { Rv32Op::Csrrwi { csr, rd, immediate: rs1 } }
        else if f3 == 6 { Rv32Op::Csrrsi { csr, rd, immediate: rs1 } }
        else if f3 == 7 { Rv32Op::Csrrci { csr, rd, immediate: rs1 } }
        else { Rv32Op::Invalid(w) }
    } else {
        Rv32Op::Invalid(w)
    }
}

/// The word of an R-type instruction, as the RISC-V base encoding lays it out: funct7 in bits
/// 31..25, rs2 in 24..20, rs1 in 19..15, funct3 in 14..12, rd in 11..7, the opcode in 6..0.
pub open spec fn r_type_word(funct7: u32, rs2: u32, rs1: u32, funct3: u32, rd: u32, opcode: u32) -> u32 {
    (funct7 << 25u32) | (rs2 << 20u32) | (rs1 << 15u32) | (funct3 << 12u32) | (rd << 7u32) | opcode
}

/// The word of a B-type (branch) instruction: immediate bit 12 in bit 31, bits 10..5 in
/// 30..25, rs2, rs1, funct3, immediate bits 4..1 in 11..8, bit 11 in bit 7, opcode 0x63.
pub open spec fn b_type_word(immediate: i32, rs2: u32, rs1: u32, funct3: u32) -> u32 {
    let u = immediate as u32;
    (((u >> 12u32) & 1) << 31u32) | (((u >> 5u32) & 0x3F) << 25u32) | (rs2 << 20u32) | (rs1 << 15u32)
        | (funct3 << 12u32) | (((u >> 1u32) & 0xF) << 8u32) | (((u >> 11u32) & 1) << 7u32) | 0x63
}

/// The fields of an R-type word read back as they were laid out.
proof fn lemma_r_type_fields(funct7: u32, rs2: u32, rs1: u32, funct3: u32, rd: u32, opcode: u32)
    requires
        funct7 < 0x80, rs2 < 32, rs1 < 32, funct3 < 8, rd < 32, opcode < 0x80,
    ensures
        ({
            let w = r_type_word(funct7, rs2, rs1, funct3, rd, opcode);
            &&& spec_opcode(w) == opcode
            &&& spec_funct3(w) == funct3
            &&& spec_funct7(w) == funct7
            &&& spec_rd(w) == rd as u8
            &&& spec_rs1(w) == rs1 as u8
            &&& spec_rs2(w) == rs2 as u8
        }),
{
    let w = r_type_word(funct7, rs2, rs1, funct3, rd, opcode);
    assert(w == (funct7 << 25u32) | (rs2 << 20u32) | (rs1 << 15u32) | (funct3 << 12u32) | (rd << 7u32) | opcode);
    assert({
        &&& w & 0x7F == opcode
        &&& (w >> 12u32) & 0x7 == funct3
        &&& w >> 25u32 == funct7
        &&& ((w >> 7u32) & 0x1F) as u8 == rd as u8
        &&& ((w >> 15u32) & 0x1F) as u8 == rs1 as u8
        &&& ((w >> 20u32) & 0x1F) as u8 == rs2 as u8
    }) by (bit_vector)
        requires
            funct7 < 0x80, rs2 < 32, rs1 < 32, funct3 < 8, rd < 32, opcode < 0x80,
            w == (funct7 << 25u32) | (rs2 << 20u32) | (rs1 << 15u32) | (funct3 << 12u32) | (rd << 7u32) | opcode;
}

/// The fields of a B-type word read back as they were laid out, the immediate included.
proof fn lemma_b_type_fields(immediate: i32, rs2: u32, rs1: u32, funct3: u32)
    requires
        rs2 < 32, rs1 < 32, funct3 < 8,
        -4096 <= immediate < 4096,
        immediate % 2 == 0,
    ensures
        ({
            let w = b_type_word(immediate, rs2, rs1, funct3);
            &&& spec_opcode(w) == 0x63
            &&& spec_funct3(w) == funct3
            &&& spec_rs1(w) == rs1 as u8
            &&& spec_rs2(w) == rs2 as u8
            &&& spec_imm_b(w) == immediate
        }),
{
    let w = b_type_word(immediate, rs2, rs1, funct3);
    let u = immediate as u32;
    assert(w == (((u >> 12u32) & 1) << 31u32) | (((u >> 5u32) & 0x3F) << 25u32) | (rs2 << 20u32) | (rs1 << 15u32) | (funct3 << 12u32) | (((u >> 1u32) & 0xF) << 8u32) | (((u >> 11u32) & 1) << 7u32) | 0x63);
    let top: u32 = if w >> 31u32 == 1 { 0xFFFFF000u32 } else { 0u32 };
    assert({
        &&& w & 0x7F == 0x63 && (w >> 12u32) & 0x7 == funct3
        &&& ((w >> 15u32) & 0x1F) as u8 == rs1 as u8 && ((w >> 20u32) & 0x1F) as u8 == rs2 as u8
        &&& (top | (((w >> 7u32) & 1) << 11u32) | (((w >> 25u32) & 0x3F) << 5u32) | (((w >> 8u32) & 0xF) << 1u32)) as i32 == immediate
    }) by (bit_vector)
        requires
            rs2 < 32, rs1 < 32, funct3 < 8, -4096 <= immediate < 4096, immediate % 2 == 0, u == immediate as u32,
            (w >> 31u32 == 1) ==> top == 0xFFFFF000u32,
            (w >> 31u32 != 1) ==> top == 0u32,
            w == (((u >> 12u32) & 1) << 31u32) | (((u >> 5u32) & 0x3F) << 25u32) | (rs2 << 20u32) | (rs1 << 15u32) | (funct3 << 12u32) | (((u >> 1u32) & 0xF) << 8u32) | (((u >> 11u32) & 1) << 7u32) | 0x63;
}

/// A branch word decodes to the branch its funct3 names in the RISC-V table (0 beq, 1 bne,
/// 4 blt, 5 bge, 6 bltu, 7 bgeu), with the registers and the even offset it was built from;
/// funct3 2 and 3 name no branch.
pub proof fn law_decode_branches(immediate: i32, rs1: u8, rs2: u8)
    requires
        rs1 < 32,
        rs2 < 32,
        -4096 <= immediate < 4096,
        immediate % 2 == 0,
    ensures
        spec_decode(b_type_word(immediate, rs2 as u32, rs1 as u32, 0)) == (Rv32Op::Beq { immediate, rs1, rs2 }),
        spec_decode(b_type_word(immediate, rs2 as u32, rs1 as u32, 1)) == (Rv32Op::Bne { immediate, rs1, rs2 }),
        spec_decode(b_type_word(immediate, rs2 as u32, rs1 as u32, 4)) == (Rv32Op::Blt { immediate, rs1, rs2 }),
        spec_decode(b_type_word(immediate, rs2 as u32, rs1 as u32, 5)) == (Rv32Op::Bge { immediate, rs1, rs2 }),
        spec_decode(b_type_word(immediate, rs2 as u32, rs1 as u32, 6)) == (Rv32Op::Bltu { immediate, rs1, rs2 }),
        spec_decode(b_type_word(immediate, rs2 as u32, rs1 as u32, 7)) == (Rv32Op::Bgeu { immediate, rs1, rs2 }),
        spec_decode(b_type_word(immediate, rs2 as u32, rs1 as u32, 2)) is Invalid,
        spec_decode(b_type_word(immediate, rs2 as u32, rs1 as u32, 3)) is Invalid,
{
    lemma_b_type_fields(immediate, rs2 as u32, rs1 as u32, 0);
    lemma_b_type_fields(immediate, rs2 as u32, rs1 as u32, 1);
    lemma_b_type_fields(immediate, rs2 as u32, rs1 as u32, 2);
    lemma_b_type_fields(immediate, rs2 as u32, rs1 as u32, 3);
    lemma_b_type_fields(immediate, rs2 as u32, rs1 as u32, 4);
    lemma_b_type_fields(immediate, rs2 as u32, rs1 as u32, 5);
    lemma_b_type_fields(immediate, rs2 as u32, rs1 as u32, 6);
    lemma_b_type_fields(immediate, rs2 as u32, rs1 as u32, 7);
}

/// A register-register word (opcode 0x33) decodes to the operation its funct7 and funct3
/// name in the RISC-V table, with the registers it was built from.
pub proof fn law_decode_register_ops(rd: u8, rs1: u8, rs2: u8)
    requires
        rd < 32,
        rs1 < 32,
        rs2 < 32,
    ensures
        spec_decode(r_type_word(0, rs2 as u32, rs1 as u32, 0, rd as u32, 0x33)) == (Rv32Op::Add { rd, rs1, rs2 }),
        spec_decode(r_type_word(0x20, rs2 as u32, rs1 as u32, 0, rd as u32, 0x33)) == (Rv32Op::Sub { rd, rs1, rs2 }),
        spec_decode(r_type_word(0, rs2 as u32, rs1 as u32, 1, rd as u32, 0x33)) == (Rv32Op::Sll { rd, rs1, rs2 }),
        spec_decode(r_type_word(0, rs2 as u32, rs1 as u32, 2, rd as u32, 0x33)) == (Rv32Op::Slt { rd, rs1, rs2 }),
        spec_decode(r_type_word(0, rs2 as u32, rs1 as u32, 3, rd as u32, 0x33)) == (Rv32Op::Sltu { rd, rs1, rs2 }),
        spec_decode(r_type_word(0, rs2 as u32, rs1 as u32, 4, rd as u32, 0x33)) == (Rv32Op::Xor { rd, rs1, rs2 }),
        spec_decode(r_type_word(0, rs2 as u32, rs1 as u32, 5, rd as u32, 0x33)) == (Rv32Op::Srl { rd, rs1, rs2 }),
        spec_decode(r_type_word(0x20, rs2 as u32, rs1 as u32, 5, rd as u32, 0x33)) == (Rv32Op::Sra { rd, rs1, rs2 }),
        spec_decode(r_type_word(0, rs2 as u32, rs1 as u32, 6, rd as u32, 0x33)) == (Rv32Op::Or { rd, rs1, rs2 }),
        spec_decode(r_type_word(0, rs2 as u32, rs1 as u32, 7, rd as u32, 0x33)) == (Rv32Op::And { rd, rs1, rs2 }),
        spec_decode(r_type_word(1, rs2 as u32, rs1 as u32, 0, rd as u32, 0x33)) == (Rv32Op::Mul { rd, rs1, rs2 }),
        spec_decode(r_type_word(1, rs2 as u32, rs1 as u32, 1, rd as u32, 0x33)) == (Rv32Op::Mulh { rd, rs1, rs2 }),
        spec_decode(r_type_word(1, rs2 as u32, rs1 as u32, 2, rd as u32, 0x33)) == (Rv32Op::Mulhsu { rd, rs1, rs2 }),
        spec_decode(r_type_word(1, rs2 as u32, rs1 as u32, 3, rd as u32, 0x33)) == (Rv32Op::Mulhu { rd, rs1, rs2 }),
        spec_decode(r_type_word(1, rs2 as u32, rs1 as u32, 4, rd as u32, 0x33)) == (Rv32Op::Div { rd, rs1, rs2 }),
        spec_decode(r_type_word(1, rs2 as u32, rs1 as u32, 5, rd as u32, 0x33)) == (Rv32Op::Divu { rd, rs1, rs2 }),
        spec_decode(r_type_word(1, rs2 as u32, rs1 as u32, 6, rd as u32, 0x33)) == (Rv32Op::Rem { rd, rs1, rs2 }),
        spec_decode(r_type_word(1, rs2 as u32, rs1 as u32, 7, rd as u32, 0x33)) == (Rv32Op::Remu { rd, rs1, rs2 }),
{
    let (d, a, b) = (rd as u32, rs1 as u32, rs2 as u32);
    assert(d as u8 == rd && a as u8 == rs1 && b as u8 == rs2);
    lemma_r_type_fields(0, b, a, 0, d, 0x33);
    lemma_r_type_fields(0x20, b, a, 0, d, 0x33);
    lemma_r_type_fields(0, b, a, 1, d, 0x33);
    lemma_r_type_fields(0, b, a, 2, d, 0x33);
    lemma_r_type_fields(0, b, a, 3, d, 0x33);
    lemma_r_type_fields(0, b, a, 4, d, 0x33);
    lemma_r_type_fields(0, b, a, 5, d, 0x33);
    lemma_r_type_fields(0x20, b, a, 5, d, 0x33);
    lemma_r_type_fields(0, b, a, 6, d, 0x33);
    lemma_r_type_fields(0, b, a, 7, d, 0x33);
    lemma_r_type_fields(1, b, a, 0, d, 0x33);
    lemma_r_type_fields(1, b, a, 1, d, 0x33);
    lemma_r_type_fields(1, b, a, 2, d, 0x33);
    lemma_r_type_fields(1, b, a, 3, d, 0x33);
    lemma_r_type_fields(1, b, a, 4, d, 0x33);
    lemma_r_type_fields(1, b, a, 5, d, 0x33);
    lemma_r_type_fields(1, b, a, 6, d, 0x33);
    lemma_r_type_fields(1, b, a, 7, d, 0x33);
}

/// The word of an I-type instruction: the immediate's low twelve bits in bits 31..20, then
/// rs1, funct3, rd and the opcode.
pub open spec fn i_type_word(immediate: i32, rs1: u32, funct3: u32, rd: u32, opcode: u32) -> u32 {
    (((immediate as u32) & 0xFFF) << 20u32) | (rs1 << 15u32) | (funct3 << 12u32) | (rd << 7u32) | opcode
}

/// The word of an S-type (store) instruction: immediate bits 11..5 in bits 31..25, rs2, rs1,
/// funct3, immediate bits 4..0 in bits 11..7, opcode 0x23.
pub open spec fn s_type_word(immediate: i32, rs2: u32, rs1: u32, funct3: u32) -> u32 {
    let u = immediate as u32;
    (((u >> 5u32) & 0x7F) << 25u32) | (rs2 << 20u32) | (rs1 << 15u32) | (funct3 << 12u32) | ((u & 0x1F) << 7u32) | 0x23
}

/// The word of a J-type instruction: immediate bit 20 in bit 31, bits 10..1 in 30..21, bit 11
/// in 20, bits 19..12 in place, then rd and the opcode.
pub open spec fn j_type_word(immediate: i32, rd: u32, opcode: u32) -> u32 {
    let u = immediate as u32;
    (((u >> 20u32) & 1) << 31u32) | (((u >> 1u32) & 0x3FF) << 21u32) | (((u >> 11u32) & 1) << 20u32)
        | (u & 0xFF000) | (rd << 7u32) | opcode
}

/// The fields of an I-type word read back as they were laid out, the immediate included.
proof fn lemma_i_type_fields(immediate: i32, rs1: u32, funct3: u32, rd: u32, opcode: u32)
    requires
        rs1 < 32, funct3 < 8, rd < 32, opcode < 0x80,
        -2048 <= immediate < 2048,
    ensures
        ({
            let w = i_type_word(immediate, rs1, funct3, rd, opcode);
            &&& spec_opcode(w) == opcode
            &&& spec_funct3(w) == funct3
            &&& spec_rd(w) == rd as u8
            &&& spec_rs1(w) == rs1 as u8
            &&& spec_imm_i(w) == immediate
        }),
{
    let w = i_type_word(immediate, rs1, funct3, rd, opcode);
    let u = immediate as u32;
    assert(w == ((u & 0xFFF) << 20u32) | (rs1 << 15u32) | (funct3 << 12u32) | (rd << 7u32) | opcode);
    let top: u32 = if w >> 31u32 == 1 { 0xFFFFF000u32 } else { 0u32 };
    assert({
        &&& w & 0x7F == opcode && (w >> 12u32) & 0x7 == funct3
        &&& ((w >> 7u32) & 0x1F) as u8 == rd as u8 && ((w >> 15u32) & 0x1F) as u8 == rs1 as u8
        &&& (top | (w >> 20u32)) as i32 == immediate
    }) by (bit_vector)
        requires
            funct3 < 8, rd < 32, rs1 < 32, opcode < 0x80, -2048 <= immediate < 2048, u == immediate as u32,
            (w >> 31u32 == 1) ==> top == 0xFFFFF000u32,
            (w >> 31u32 != 1) ==> top == 0u32,
            w == ((u & 0xFFF) << 20u32) | (rs1 << 15u32) | (funct3 << 12u32) | (rd << 7u32) | opcode;
}

/// The fields of an S-type word read back as they were laid out, the immediate included.
proof fn lemma_s_type_fields(immediate: i32, rs2: u32, rs1: u32, funct3: u32)
    requires
        rs2 < 32, rs1 < 32, funct3 < 8,
        -2048 <= immediate < 2048,
    ensures
        ({
            let w = s_type_word(immediate, rs2, rs1, funct3);
            &&& spec_opcode(w) == 0x23
            &&& spec_funct3(w) == funct3
            &&& spec_rs1(w) == rs1 as u8
            &&& spec_rs2(w) == rs2 as u8
            &&& spec_imm_s(w) == immediate
        }),
{
    let w = s_type_word(immediate, rs2, rs1, funct3);
    let u = immediate as u32;
    assert(w == (((u >> 5u32) & 0x7F) << 25u32) | (rs2 << 20u32) | (rs1 << 15u32) | (funct3 << 12u32) | ((u & 0x1F) << 7u32) | 0x23);
    let top: u32 = if w >> 31u32 == 1 { 0xFFFFF000u32 } else { 0u32 };
    assert({
        &&& w & 0x7F == 0x23 && (w >> 12u32) & 0x7 == funct3
        &&& ((w >> 15u32) & 0x1F) as u8 == rs1 as u8 && ((w >> 20u32) & 0x1F) as u8 == rs2 as u8
        &&& (top | ((w >> 25u32) << 5u32) | ((w >> 7u32) & 0x1F)) as i32 == immediate
    }) by (bit_vector)
        requires
            funct3 < 8, rs2 < 32, rs1 < 32, -2048 <= immediate < 2048, u == immediate as u32,
            (w >> 31u32 == 1) ==> top == 0xFFFFF000u32,
            (w >> 31u32 != 1) ==> top == 0u32,
            w == (((u >> 5u32) & 0x7F) << 25u32) | (rs2 << 20u32) | (rs1 << 15u32) | (funct3 << 12u32) | ((u & 0x1F) << 7u32) | 0x23;
}

/// The fields of a J-type word read back as they were laid out, the immediate included.
proof fn lemma_j_type_fields(immediate: i32, rd: u32, opcode: u32)
    requires
        rd < 32, opcode < 0x80,
        -0x10_0000 <= immediate < 0x10_0000,
        immediate % 2 == 0,
    ensures
        ({
            let w = j_type_word(immediate, rd, opcode);
            &&& spec_opcode(w) == opcode
            &&& spec_rd(w) == rd as u8
            &&& spec_imm_j(w) == immediate
        }),
{
    let w = j_type_word(immediate, rd, opcode);
    let u = immediate as u32;
    assert(w == (((u >> 20u32) & 1) << 31u32) | (((u >> 1u32) & 0x3FF) << 21u32) | (((u >> 11u32) & 1) << 20u32) | (u & 0xFF000) | (rd << 7u32) | opcode);
    let top: u32 = if w >> 31u32 == 1 { 0xFFF00000u32 } else { 0u32 };
    assert({
        &&& w & 0x7F == opcode && ((w >> 7u32) & 0x1F) as u8 == rd as u8
        &&& (top | (w & 0xFF000) | (((w >> 20u32) & 1) << 11u32) | (((w >> 21u32) & 0x3FF) << 1u32)) as i32 == immediate
    }) by (bit_vector)
        requires
            rd < 32, opcode < 0x80, -0x10_0000 <= immediate < 0x10_0000, immediate % 2 == 0, u == immediate as u32,
            (w >> 31u32 == 1) ==> top == 0xFFF00000u32,
            (w >> 31u32 != 1) ==> top == 0u32,
            w == (((u >> 20u32) & 1) << 31u32) | (((u >> 1u32) & 0x3FF) << 21u32) | (((u >> 11u32) & 1) << 20u32) | (u & 0xFF000) | (rd << 7u32) | opcode;
}

/// Loads, register-immediate operations and `jalr` decode to what their funct3 names in the
/// RISC-V table, with the registers and the immediate they were built from; funct3 3, 6 and 7
/// name no load.
pub proof fn law_decode_immediate_ops(immediate: i32, rd: u8, rs1: u8)
    requires
        rd < 32,
        rs1 < 32,
        -2048 <= immediate < 2048,
    ensures
        spec_decode(i_type_word(immediate, rs1 as u32, 0, rd as u32, 0x03)) == (Rv32Op::Lb { immediate, rs1, rd }),
        spec_decode(i_type_word(immediate, rs1 as u32, 1, rd as u32, 0x03)) == (Rv32Op::Lh { immediate, rs1, rd }),
        spec_decode(i_type_word(immediate, rs1 as u32, 2, rd as u32, 0x03)) == (Rv32Op::Lw { immediate, rs1, rd }),
        spec_decode(i_type_word(immediate, rs1 as u32, 4, rd as u32, 0x03)) == (Rv32Op::Lbu { immediate, rs1, rd }),
        spec_decode(i_type_word(immediate, rs1 as u32, 5, rd as u32, 0x03)) == (Rv32Op::Lhu { immediate, rs1, rd }),
        spec_decode(i_type_word(immediate, rs1 as u32, 3, rd as u32, 0x03)) is Invalid,
        spec_decode(i_type_word(immediate, rs1 as u32, 0, rd as u32, 0x13)) == (Rv32Op::Addi { immediate, rd, rs1 }),
        spec_decode(i_type_word(immediate, rs1 as u32, 2, rd as u32, 0x13)) == (Rv32Op::Slti { immediate, rd, rs1 }),
        spec_decode(i_type_word(immediate, rs1 as u32, 3, rd as u32, 0x13)) == (Rv32Op::Sltiu { immediate, rd, rs1 }),
        spec_decode(i_type_word(immediate, rs1 as u32, 4, rd as u32, 0x13)) == (Rv32Op::Xori { immediate, rd, rs1 }),
        spec_decode(i_type_word(immediate, rs1 as u32, 6, rd as u32, 0x13)) == (Rv32Op::Ori { immediate, rd, rs1 }),
        spec_decode(i_type_word(immediate, rs1 as u32, 7, rd as u32, 0x13)) == (Rv32Op::Andi { immediate, rd, rs1 }),
        spec_decode(i_type_word(immediate, rs1 as u32, 0, rd as u32, 0x67)) == (Rv32Op::Jalr { immediate, rs1, rd }),
{
    let (d, a) = (rd as u32, rs1 as u32);
    assert(d as u8 == rd && a as u8 == rs1);
    lemma_i_type_fields(immediate, a, 0, d, 0x03);
    lemma_i_type_fields(immediate, a, 1, d, 0x03);
    lemma_i_type_fields(immediate, a, 2, d, 0x03);
    lemma_i_type_fields(immediate, a, 3, d, 0x03);
    lemma_i_type_fields(immediate, a, 4, d, 0x03);
    lemma_i_type_fields(immediate, a, 5, d, 0x03);
    lemma_i_type_fields(immediate, a, 0, d, 0x13);
    lemma_i_type_fields(immediate, a, 2, d, 0x13);
    lemma_i_type_fields(immediate, a, 3, d, 0x13);
    lemma_i_type_fields(immediate, a, 4, d, 0x13);
    lemma_i_type_fields(immediate, a, 6, d, 0x13);
    lemma_i_type_fields(immediate, a, 7, d, 0x13);
    lemma_i_type_fields(immediate, a, 0, d, 0x67);
}

/// Shifts by an immediate decode to the shift their funct7 and funct3 name: `slli`, `srli`,
/// and `srai` (funct7 0x20), with the shift amount in the rs2 field.
pub proof fn law_decode_immediate_shifts(shamt: u8, rd: u8, rs1: u8)
    requires
        shamt < 32,
        rd < 32,
        rs1 < 32,
    ensures
        spec_decode(r_type_word(0, shamt as u32, rs1 as u32, 1, rd as u32, 0x13)) == (Rv32Op::Slli { shamt, rd, rs1 }),
        spec_decode(r_type_word(0, shamt as u32, rs1 as u32, 5, rd as u32, 0x13)) == (Rv32Op::Srli { shamt, rd, rs1 }),
        spec_decode(r_type_word(0x20, shamt as u32, rs1 as u32, 5, rd as u32, 0x13)) == (Rv32Op::Srai { shamt, rd, rs1 }),
{
    let (d, a, b) = (rd as u32, rs1 as u32, shamt as u32);
    assert(d as u8 == rd && a as u8 == rs1 && b as u8 == shamt);
    lemma_r_type_fields(0, b, a, 1, d, 0x13);
    lemma_r_type_fields(0, b, a, 5, d, 0x13);
    lemma_r_type_fields(0x20, b, a, 5, d, 0x13);
}

/// Stores decode to the store their funct3 names (0 sb, 1 sh, 2 sw), with the registers and
/// the immediate they were built from.
pub proof fn law_decode_stores(immediate: i32, rs1: u8, rs2: u8)
    requires
        rs1 < 32,
        rs2 < 32,
        -2048 <= immediate < 2048,
    ensures
        spec_decode(s_type_word(immediate, rs2 as u32, rs1 as u32, 0)) == (Rv32Op::Sb { immediate, rs1, rs2 }),
        spec_decode(s_type_word(immediate, rs2 as u32, rs1 as u32, 1)) == (Rv32Op::Sh { immediate, rs1, rs2 }),
        spec_decode(s_type_word(immediate, rs2 as u32, rs1 as u32, 2)) == (Rv32Op::Sw { immediate, rs1, rs2 }),
        spec_decode(s_type_word(immediate, rs2 as u32, rs1 as u32, 3)) is Invalid,
{
    let (a, b) = (rs1 as u32, rs2 as u32);
    assert(a as u8 == rs1 && b as u8 == rs2);
    lemma_s_type_fields(immediate, b, a, 0);
    lemma_s_type_fields(immediate, b, a, 1);
    lemma_s_type_fields(immediate, b, a, 2);
    lemma_s_type_fields(immediate, b, a, 3);
}

/// `jal` decodes with the destination and the even offset it was built from.
pub proof fn law_decode_jal(immediate: i32, rd: u8)
    requires
        rd < 32,
        -0x10_0000 <= immediate < 0x10_0000,
        immediate % 2 == 0,
    ensures
        spec_decode(j_type_word(immediate, rd as u32, 0x6F)) == (Rv32Op::Jal { immediate, rd }),
{
    assert(rd as u32 as u8 == rd);
    lemma_j_type_fields(immediate, rd as u32, 0x6F);
}

/// The word of a CSR instruction: the CSR number in bits 31..20, then rs1 (or the 5-bit
/// immediate), funct3, rd and opcode 0x73.
pub open spec fn csr_word(csr: u32, rs1: u32, funct3: u32, rd: u32) -> u32 {
    (csr << 20u32) | (rs1 << 15u32) | (funct3 << 12u32) | (rd << 7u32) | 0x73
}

/// The word of a U-type instruction: the upper twenty bits of `immediate`, rd and the opcode.
pub open spec fn u_type_word(immediate: u32, rd: u32, opcode: u32) -> u32 {
    (immediate & 0xFFFFF000) | (rd << 7u32) | opcode
}

/// The fields of CSR and U-type words read back as they were laid out.
proof fn lemma_csr_and_upper_fields(csr: u32, rs1: u32, funct3: u32, rd: u32, immediate: u32, opcode: u32)
    requires
        csr < 0x1000, rs1 < 32, 1 <= funct3 < 8, rd < 32, opcode < 0x80,
    ensures
        ({
            let w = csr_word(csr, rs1, funct3, rd);
            &&& spec_opcode(w) == 0x73
            &&& spec_funct3(w) == funct3
            &&& spec_rd(w) == rd as u8
            &&& spec_rs1(w) == rs1 as u8
            &&& spec_csr(w) == csr as u16
            &&& w != 0x00000073 && w != 0x00100073 && w != 0x10500073 && w != 0x30200073
        }),
        ({
            let w = u_type_word(immediate, rd, opcode);
            &&& spec_opcode(w) == opcode
            &&& spec_rd(w) == rd as u8
            &&& spec_imm_u(w) == immediate & 0xFFFFF000
        }),
{
    let w = csr_word(csr, rs1, funct3, rd);
    let v = u_type_word(immediate, rd, opcode);
    assert(w == (csr << 20u32) | (rs1 << 15u32) | (funct3 << 12u32) | (rd << 7u32) | 0x73);
    assert(v == (immediate & 0xFFFFF000) | (rd << 7u32) | opcode);
    assert({
        &&& w & 0x7F == 0x73 && (w >> 12u32) & 0x7 == funct3
        &&& ((w >> 7u32) & 0x1F) as u8 == rd as u8 && ((w >> 15u32) & 0x1F) as u8 == rs1 as u8
        &&& (w >> 20u32) as u16 == csr as u16
        &&& w != 0x00000073 && w != 0x00100073 && w != 0x10500073 && w != 0x30200073
        &&& v & 0x7F == opcode && ((v >> 7u32) & 0x1F) as u8 == rd as u8
        &&& v & 0xFFFFF000 == immediate & 0xFFFFF000
    }) by (bit_vector)
        requires
            csr < 0x1000, rs1 < 32, 1 <= funct3 < 8, rd < 32, opcode < 0x80,
            w == (csr << 20u32) | (rs1 << 15u32) | (funct3 << 12u32) | (rd << 7u32) | 0x73,
            v == (immediate & 0xFFFFF000) | (rd << 7u32) | opcode;
}

/// CSR instructions decode to the access their funct3 names in the RISC-V table (1 csrrw,
/// 2 csrrs, 3 csrrc, 5 csrrwi, 6 csrrsi, 7 csrrci), and `lui` and `auipc` keep the upper
/// twenty bits of their immediate.
pub proof fn law_decode_csr_and_upper(csr: u16, rd: u8, rs1: u8, immediate: u32)
    requires
        csr < 0x1000,
        rd < 32,
        rs1 < 32,
    ensures
        spec_decode(csr_word(csr as u32, rs1 as u32, 1, rd as u32)) == (Rv32Op::Csrrw { csr, rd, rs1 }),
        spec_decode(csr_word(csr as u32, rs1 as u32, 2, rd as u32)) == (Rv32Op::Csrrs { csr, rd, rs1 }),
        spec_decode(csr_word(csr as u32, rs1 as u32, 3, rd as u32)) == (Rv32Op::Csrrc { csr, rd, rs1 }),
        spec_decode(csr_word(csr as u32, rs1 as u32, 5, rd as u32)) == (Rv32Op::Csrrwi { csr, rd, immediate: rs1 }),
        spec_decode(csr_word(csr as u32, rs1 as u32, 6, rd as u32)) == (Rv32Op::Csrrsi { csr, rd, immediate: rs1 }),
        spec_decode(csr_word(csr as u32, rs1 as u32, 7, rd as u32)) == (Rv32Op::Csrrci { csr, rd, immediate: rs1 }),
        spec_decode(u_type_word(immediate, rd as u32, 0x37)) == (Rv32Op::Lui { immediate: immediate & 0xFFFFF000, rd }),
        spec_decode(u_type_word(immediate, rd as u32, 0x17)) == (Rv32Op::Auipc { immediate: immediate & 0xFFFFF000, rd }),
{
    let (c, d, a) = (csr as u32, rd as u32, rs1 as u32);
    assert(c as u16 == csr && d as u8 == rd && a as u8 == rs1);
    lemma_csr_and_upper_fields(c, a, 1, d, immediate, 0x37);
    lemma_csr_and_upper_fields(c, a, 2, d, immediate, 0x17);
    lemma_csr_and_upper_fields(c, a, 3, d, immediate, 0x37);
    lemma_csr_and_upper_fields(c, a, 5, d, immediate, 0x37);
    lemma_csr_and_upper_fields(c, a, 6, d, immediate, 0x37);
    lemma_csr_and_upper_fields(c, a, 7, d, immediate, 0x37);
}

impl Rv32Op {
    /// Decodes an instruction word; a word that encodes no instruction gives `Invalid` with it.
    pub fn decode(w: u32) -> (r: Rv32Op)
        ensures
            r == spec_decode(w),
    {
        let opcode: u32 = w & 0x7F;
        let f3: u32 = (w >> 12u32) & 0x7;
        let f7: u32 = w >> 25u32;
        let rd: u8 = ((w >> 7u32) & 0x1F) as u8;
        let rs1: u8 = ((w >> 15u32) & 0x1F) as u8;
        let rs2: u8 = ((w >> 20u32) & 0x1F) as u8;
        if opcode == 0x37 {
            Rv32Op::Lui { immediate: w & 0xFFFFF000, rd }
        } else if opcode == 0x17 {
            Rv32Op::Auipc { immediate: w & 0xFFFFF000, rd }
        } else if opcode == 0x6F {
            Rv32Op::Jal { immediate: (((if w >> 31u32 == 1 { 0xFFF00000u32 } else { 0u32 }) | (w & 0xFF000) | (((w >> 20u32) & 1) << 11u32) | (((w >> 21u32) & 0x3FF) << 1u32)) as i32), rd }
        } else if opcode == 0x67 && f3 == 0 {
            Rv32Op::Jalr { immediate: (((if w >> 31u32 == 1 { 0xFFFFF000u32 } else { 0u32 }) | (w >> 20u32)) as i32), rs1, rd }
        } else if opcode == 0x63 {
            let immediate: i32 = ((if w >> 31u32 == 1 { 0xFFFFF000u32 } else { 0u32 }) | (((w >> 7u32) & 1) << 11u32) | (((w >> 25u32) & 0x3F) << 5u32) | (((w >> 8u32) & 0xF) << 1u32)) as i32;
            if f3 == 0 { Rv32Op::Beq { immediate, rs1, rs2 } }
            else if f3 == 1 { Rv32Op::Bne { immediate, rs1, rs2 } }
            else if f3 == 4 { Rv32Op::Blt { immediate, rs1, rs2 } }
            else if f3 == 5 { Rv32Op::Bge { immediate, rs1, rs2 } }
            else if f3 == 6 { Rv32Op::Bltu { immediate, rs1, rs2 } }
            else if f3 == 7 { Rv32Op::Bgeu { immediate, rs1, rs2 } }
            else { Rv32Op::Invalid(w) }
        } else if opcode == 0x03 {
            let immediate: i32 = ((if w >> 31u32 == 1 { 0xFFFFF000u32 } else { 0u32 }) | (w >> 20u32)) as i32;
            if f3 == 0 { Rv32Op::Lb { immediate, rs1, rd } }
            else if f3 == 1 { Rv32Op::Lh { immediate, rs1, rd } }
            else if f3 == 2 { Rv32Op::Lw { immediate, rs1, rd } }
            else if f3 == 4 { Rv32Op::Lbu { immediate, rs1, rd } }
            else if f3 == 5 { Rv32Op::Lhu { immediate, rs1, rd } }
            else { Rv32Op::Invalid(w) }
        } else if opcode == 0x23 {
            let immediate: i32 = ((if w >> 31u32 == 1 { 0xFFFFF000u32 } else { 0u32 }) | ((w >> 25u32) << 5u32) | ((w >> 7u32) & 0x1F)) as i32;
            if f3 == 0 { Rv32Op::Sb { immediate, rs1, rs2 } }
            else if f3 == 1 { Rv32Op::Sh { immediate, rs1, rs2 } }
            else if f3 == 2 { Rv32Op::Sw { immediate, rs1, rs2 } }
            else { Rv32Op::Invalid(w) }
        } else if opcode == 0x13 {
            let immediate: i32 = ((if w >> 31u32 == 1 { 0xFFFFF000u32 } else { 0u32 }) | (w >> 20u32)) as i32;
            if f3 == 0 { Rv32Op::Addi { immediate, rd, rs1 } }
            else if f3 == 2 { Rv32Op::Slti { immediate, rd, rs1 } }
            else if f3 == 3 { Rv32Op::Sltiu { immediate, rd, rs1 } }
            else if f3 == 4 { Rv32Op::Xori { immediate, rd, rs1 } }
            else if f3 == 6 { Rv32Op::Ori { immediate, rd, rs1 } }
            else if f3 == 7 { Rv32Op::Andi { immediate, rd, rs1 } }
            else if f3 == 1 && f7 == 0 { Rv32Op::Slli { shamt: rs2, rd, rs1 } }
            else if f3 == 5 && f7 == 0 { Rv32Op::Srli { shamt: rs2, rd, rs1 } }
            else if f3 == 5 && f7 == 0x20 { Rv32Op::Srai { shamt: rs2, rd, rs1 } }
            else { Rv32Op::Invalid(w) }
        } else if opcode == 0x33 {
            if f7 == 0 {
                if f3 == 0 { Rv32Op::Add { rd, rs1, rs2 } }
                else if f3 == 1 { Rv32Op::Sll { rd, rs1, rs2 } }
                else if f3 == 2 { Rv32Op::Slt { rd, rs1, rs2 } }
                else if f3 == 3 { Rv32Op::Sltu { rd, rs1, rs2 } }
                else if f3 == 4 { Rv32Op::Xor { rd, rs1, rs2 } }
                else if f3 == 5 { Rv32Op::Srl { rd, rs1, rs2 } }
                else if f3 == 6 { Rv32Op::Or { rd, rs1, rs2 } }
                else { Rv32Op::And { rd, rs1, rs2 } }
            } else if f7 == 0x20 {
                if f3 == 0 { Rv32Op::Sub { rd, rs1, rs2 } }
                else if f3 == 5 { Rv32Op::Sra { rd, rs1, rs2 } }
                else { Rv32Op::Invalid(w) }
            } else if f7 == 1 {
                if f3 == 0 { Rv32Op::Mul { rd, rs1, rs2 } }
                else if f3 == 1 { Rv32Op::Mulh { rd, rs1, rs2 } }
                else if f3 == 2 { Rv32Op::Mulhsu { rd, rs1, rs2 } }
                else if f3 == 3 { Rv32Op::Mulhu { rd, rs1, rs2 } }
                else if f3 == 4 { Rv32Op::Div { rd, rs1, rs2 } }
                else if f3 == 5 { Rv32Op::Divu { rd, rs1, rs2 } }
                else if f3 == 6 { Rv32Op::Rem { rd, rs1, rs2 } }
                else { Rv32Op::Remu { rd, rs1, rs2 } }
            } else {
                Rv32Op::Invalid(w)
            }
        } else if opcode == 0x0F {
            if f3 == 0 {
                Rv32Op::Fence {
                    predecessor: FenceOps::from_bits(w >> 24u32),
                    successor: FenceOps::from_bits(w >> 20u32),
                }
            } else if f3 == 1 {
                Rv32Op::Fencei
            } else {
                Rv32Op::Invalid(w)
            }
        } else if opcode == 0x73 {
            let csr: u16 = (w >> 20u32) as u16;
            if w == 0x00000073 { Rv32Op::Ecall }
            else if w == 0x00100073 { Rv32Op::EBreak }
            else if w == 0x10500073 { Rv32Op::Wfi }
            else if w == 0x30200073 { Rv32Op::Mret }
            else if f3 == 1 { Rv32Op::Csrrw { csr, rd, rs1 } }
            else if f3 == 2 { Rv32Op::Csrrs { csr, rd, rs1 } }
            else if f3 == 3 { Rv32Op::Csrrc { csr, rd, rs1 } }
            else if f3 == 5 { Rv32Op::Csrrwi { csr, rd, immediate: rs1 } }
            else if f3 == 6 { Rv32Op::Csrrsi { csr, rd, immediate: rs1 } }
            else if f3 == 7 { Rv32Op::Csrrci { csr, rd, immediate: rs1 } }
            else { Rv32Op::Invalid(w) }
        } else {
            Rv32Op::Invalid(w)
        }
        }
}

/// The upper-case hexadecimal digit of `d`.
pub open spec fn spec_hex_char(d: int) -> char {
    if d == 0 { '0'
    } else if d == 1 { '1'
    } else if d == 2 { '2'
    } else if d == 3 { '3'
    } else if d == 4 { '4'
    } else if d == 5 { '5'
    } else if d == 6 { '6'
    } else if d == 7 { '7'
    } else if d == 8 { '8'
    } else if d == 9 { '9'
    } else if d == 10 { 'A'
    } else if d == 11 { 'B'
    } else if d == 12 { 'C'
    } else if d == 13 { 'D'
    } else if d == 14 { 'E'
    } else { 'F' }
}

/// The upper-case hexadecimal digit of `d`.
pub fn hex_char(d: u32) -> (c: char)
    requires
        d < 16,
    ensures
        c == spec_hex_char(d as int),
{
    match d {
        0 => '0',
        1 => '1',
        2 => '2',
        3 => '3',
        4 => '4',
        5 => '5',
        6 => '6',
        7 => '7',
        8 => '8',
        9 => '9',
        10 => 'A',
        11 => 'B',
        12 => 'C',
        13 => 'D',
        14 => 'E',
        _ => 'F',
    }
}

/// The last `n` hexadecimal digits of `v`, upper case, most significant first.
pub open spec fn spec_hex(v: nat, n: nat) -> Seq<char>
    decreases n,
{
    if n == 0 { Seq::empty() } else { spec_hex(v / 16, (n - 1) as nat).push(spec_hex_char((v % 16) as int)) }
}

/// The decimal digits of `v`, most significant first.
pub open spec fn spec_dec(v: nat) -> Seq<char>
    decreases v,
{
    if v < 10 { seq![spec_hex_char(v as int)] } else { spec_dec(v / 10).push(spec_hex_char((v % 10) as int)) }
}

/// `x` in decimal, with a minus sign when negative.
pub open spec fn spec_signed(x: int) -> Seq<char> {
    if x < 0 { seq!['-'] + spec_dec((-x) as nat) } else { spec_dec(x as nat) }
}

/// `s` filled with spaces on the right to `w` characters.
pub open spec fn spec_pad(s: Seq<char>, w: nat) -> Seq<char> {
    if s.len() >= w { s } else { s + Seq::new((w - s.len()) as nat, |_k: int| ' ') }
}

/// The ABI name of register `r`; past the 32 registers, `x` and the number.
pub open spec fn spec_reg_name(r: u8) -> Seq<char> {
    if r == 0 { seq!['z', 'e', 'r', 'o']
    } else if r == 1 { seq!['r', 'a']
    } else if r == 2 { seq!['s', 'p']
    } else if r == 3 { seq!['g', 'p']
    } else if r == 4 { seq!['t', 'p']
    } else if r == 5 { seq!['t', '0']
    } else if r == 6 { seq!['t', '1']
    } else if r == 7 { seq!['t', '2']
    } else if r == 8 { seq!['s', '0']
    } else if r == 9 { seq!['s', '1']
    } else if r == 10 { seq!['a', '0']
    } else if r == 11 { seq!['a', '1']
    } else if r == 12 { seq!['a', '2']
    } else if r == 13 { seq!['a', '3']
    } else if r == 14 { seq!['a', '4']
    } else if r == 15 { seq!['a', '5']
    } else if r == 16 { seq!['a', '6']
    } else if r == 17 { seq!['a', '7']
    } else if r == 18 { seq!['s', '2']
    } else if r == 19 { seq!['s', '3']
    } else if r == 20 { seq!['s', '4']
    } else if r == 21 { seq!['s', '5']
    } else if r == 22 { seq!['s', '6']
    } else if r == 23 { seq!['s', '7']
    } else if r == 24 { seq!['s', '8']
    } else if r == 25 { seq!['s', '9']
    } else if r == 26 { seq!['s', '1', '0']
    } else if r == 27 { seq!['s', '1', '1']
    } else if r == 28 { seq!['t', '3']
    } else if r == 29 { seq!['t', '4']
    } else if r == 30 { seq!['t', '5']
    } else if r == 31 { seq!['t', '6']
    } else { seq!['x'] + spec_dec(r as nat) }
}

/// Appends the last `n` hexadecimal digits of `v`.
pub fn push_hex(out: &mut Vec<char>, v: u32, n: u32)
    ensures
        final(out)@ == old(out)@ + spec_hex(v as nat, n as nat),
    decreases n,
{
    if n > 0 {
        push_hex(out, v / 16, n - 1);
        let c = hex_char(v % 16);
        out.push(c);
        proof {
            assert(spec_hex(v as nat, n as nat) == spec_hex((v / 16) as nat, (n - 1) as nat).push(c));
        }
    } else {
        proof { assert(old(out)@ + spec_hex(v as nat, 0) =~= old(out)@); }
    }
}

/// Appends `v` in decimal.
pub fn push_dec(out: &mut Vec<char>, v: u32)
    ensures
        final(out)@ == old(out)@ + spec_dec(v as nat),
    decreases v,
{
    if v >= 10 {
        push_dec(out, v / 10);
    }
    let c = hex_char(v % 10);
    out.push(c);
    proof {
        if v >= 10 {
            assert(spec_dec(v as nat) == spec_dec((v / 10) as nat).push(c));
        } else {
            assert(old(out)@ + spec_dec(v as nat) =~= old(out)@.push(c));
        }
    }
}

/// Appends `x` in decimal, with a minus sign when negative.
pub fn push_signed(out: &mut Vec<char>, x: i32)
    ensures
        final(out)@ == old(out)@ + spec_signed(x as int),
{
    if x < 0 {
        out.push('-');
        let m: u32 = (-(x as i64)) as u32;
        push_dec(out, m);
        proof { assert(old(out)@ + spec_signed(x as int) =~= old(out)@.push('-') + spec_dec(m as nat)); }
    } else {
        push_dec(out, x as u32);
    }
}

/// Appends spaces until the text written since position `start` is `width` characters long.
pub fn pad_from(out: &mut Vec<char>, start: usize, width: usize)
    requires
        start <= old(out)@.len(),
    ensures
        final(out)@ == old(out)@.take(start as int) + spec_pad(old(out)@.skip(start as int), width as nat),
{
    let ghost orig = out@;
    while out.len() - start < width
        invariant
            start <= orig.len(),
            out@.len() >= orig.len(),
            out@.take(orig.len() as int) == orig,
            forall|k: int| orig.len() <= k < out@.len() ==> out@[k] == ' ',
            out@.len() <= orig.len() || out@.len() <= start + width,
        decreases start + width - out@.len(),
    {
        out.push(' ');
    }
    proof {
        let s = orig.skip(start as int);
        if s.len() >= width {
            assert(out@ =~= orig);
            assert(orig =~= orig.take(start as int) + s);
        } else {
            assert(out@ =~= orig.take(start as int) + (s + Seq::new((width - s.len()) as nat, |_k: int| ' ')));
        }
    }
}

/// Appends the ABI name of register `r`.
pub fn push_reg(out: &mut Vec<char>, r: u8)
    ensures
        final(out)@ == old(out)@ + spec_reg_name(r),
{
    let name: Vec<char> = match r {
        0 => vec!['z', 'e', 'r', 'o'],
        1 => vec!['r', 'a'],
        2 => vec!['s', 'p'],
        3 => vec!['g', 'p'],
        4 => vec!['t', 'p'],
        5 => vec!['t', '0'],
        6 => vec!['t', '1'],
        7 => vec!['t', '2'],
        8 => vec!['s', '0'],
        9 => vec!['s', '1'],
        10 => vec!['a', '0'],
        11 => vec!['a', '1'],
        12 => vec!['a', '2'],
        13 => vec!['a', '3'],
        14 => vec!['a', '4'],
        15 => vec!['a', '5'],
        16 => vec!['a', '6'],
        17 => vec!['a', '7'],
        18 => vec!['s', '2'],
        19 => vec!['s', '3'],
        20 => vec!['s', '4'],
        21 => vec!['s', '5'],
        22 => vec!['s', '6'],
        23 => vec!['s', '7'],
        24 => vec!['s', '8'],
        25 => vec!['s', '9'],
        26 => vec!['s', '1', '0'],
        27 => vec!['s', '1', '1'],
        28 => vec!['t', '3'],
        29 => vec!['t', '4'],
        30 => vec!['t', '5'],
        31 => vec!['t', '6'],
        _ => {
            let mut v: Vec<char> = vec!['x'];
            push_dec(&mut v, r as u32);
            v
        },
    };
    push_all(out, &name);
}

/// Appends all of `s`.
pub fn push_all(out: &mut Vec<char>, s: &Vec<char>)
    ensures
        final(out)@ == old(out)@ + s@,
{
    let ghost orig = out@;
    let mut k: usize = 0;
    while k < s.len()
        invariant
            k <= s@.len(),
            out@ == orig + s@.take(k as int),
        decreases s@.len() - k,
    {
        out.push(s[k]);
        k = k + 1;
        proof { assert(s@.take(k as int) =~= s@.take(k - 1 as int).push(s@[k - 1 as int])); }
    }
    proof { assert(s@.take(k as int) =~= s@); }
}

/// The address a jump or branch of offset `imm` at `addr` goes to, wrapping around.
pub open spec fn spec_target(addr: u32, imm: i32) -> u32 {
    (addr as int + imm as int) as u32
}

/// The address a jump or branch of offset `imm` at `addr` goes to, wrapping around.
pub fn branch_target(addr: u32, imm: i32) -> (r: u32)
    ensures
        r == spec_target(addr, imm),
{
    let u = imm as u32;
    assert(addr.wrapping_add(u) == (addr as int + imm as int) as u32) by (bit_vector)
        requires u == imm as u32;
    addr.wrapping_add(u)
}

/// A memory operand: the offset in decimal, then the base register in brackets.
pub open spec fn spec_mem(imm: i32, rs1: u8) -> Seq<char> {
    spec_signed(imm as int) + seq!['('] + spec_reg_name(rs1) + seq![')']
}

/// The texts of the operands of one instruction put in columns: each operand but the last is
/// followed by a comma and filled to 6 characters.
pub open spec fn spec_join_upto(ops: Seq<Seq<char>>, k: int) -> Seq<char>
    decreases k,
{
    if k <= 0 { Seq::empty() } else { spec_join_upto(ops, k - 1) + spec_pad(ops[k - 1].push(','), 6) }
}

/// One line of disassembly: the mnemonic alone, or filled to 7 characters and followed by the
/// operands in columns.
pub open spec fn spec_line(mnemonic: Seq<char>, ops: Seq<Seq<char>>) -> Seq<char> {
    if ops.len() == 0 {
        mnemonic
    } else {
        spec_pad(mnemonic, 7) + spec_join_upto(ops, ops.len() - 1) + ops.last()
    }
}

/// The texts held by a list of character vectors.
pub open spec fn spec_views(v: Seq<Vec<char>>) -> Seq<Seq<char>> {
    Seq::new(v.len(), |k: int| v[k]@)
}

impl Rv32Op {
    /// The assembler mnemonic of the instruction.
    pub open spec fn spec_mnemonic(self) -> Seq<char> {
        match self {
            Rv32Op::Lui { .. } => seq!['l', 'u', 'i'],
            Rv32Op::Auipc { .. } => seq!['a', 'u', 'i', 'p', 'c'],
            Rv32Op::Jal { .. } => seq!['j', 'a', 'l'],
            Rv32Op::Jalr { .. } => seq!['j', 'a', 'l', 'r'],
            Rv32Op::Beq { .. } => seq!['b', 'e', 'q'],
            Rv32Op::Bne { .. } => seq!['b', 'n', 'e'],
            Rv32Op::Blt { .. } => seq!['b', 'l', 't'],
            Rv32Op::Bge { .. } => seq!['b', 'g', 'e'],
            Rv32Op::Bltu { .. } => seq!['b', 'l', 't', 'u'],
            Rv32Op::Bgeu { .. } => seq!['b', 'g', 'e', 'u'],
            Rv32Op::Lb { .. } => seq!['l', 'b'],
            Rv32Op::Lh { .. } => seq!['l', 'h'],
            Rv32Op::Lw { .. } => seq!['l', 'w'],
            Rv32Op::Lbu { .. } => seq!['l', 'b', 'u'],
            Rv32Op::Lhu { .. } => seq!['l', 'h', 'u'],
            Rv32Op::Sb { .. } => seq!['s', 'b'],
            Rv32Op::Sh { .. } => seq!['s', 'h'],
            Rv32Op::Sw { .. } => seq!['s', 'w'],
            Rv32Op::Addi { .. } => seq!['a', 'd', 'd', 'i'],
            Rv32Op::Slti { .. } => seq!['s', 'l', 't', 'i'],
            Rv32Op::Sltiu { .. } => seq!['s', 'l', 't', 'i', 'u'],
            Rv32Op::Xori { .. } => seq!['x', 'o', 'r', 'i'],
            Rv32Op::Ori { .. } => seq!['o', 'r', 'i'],
            Rv32Op::Andi { .. } => seq!['a', 'n', 'd', 'i'],
            Rv32Op::Slli { .. } => seq!['s', 'l', 'l', 'i'],
            Rv32Op::Srli { .. } => seq!['s', 'r', 'l', 'i'],
            Rv32Op::Srai { .. } => seq!['s', 'r', 'a', 'i'],
            Rv32Op::Add { .. } => seq!['a', 'd', 'd'],
            Rv32Op::Sub { .. } => seq!['s', 'u', 'b'],
            Rv32Op::Sll { .. } => seq!['s', 'l', 'l'],
            Rv32Op::Slt { .. } => seq!['s', 'l', 't'],
            Rv32Op::Sltu { .. } => seq!['s', 'l', 't', 'u'],
            Rv32Op::Xor { .. } => seq!['x', 'o', 'r'],
            Rv32Op::Srl { .. } => seq!['s', 'r', 'l'],
            Rv32Op::Sra { .. } => seq!['s', 'r', 'a'],
            Rv32Op::Or { .. } => seq!['o', 'r'],
            Rv32Op::And { .. } => seq!['a', 'n', 'd'],
            Rv32Op::Mul { .. } => seq!['m', 'u', 'l'],
            Rv32Op::Mulh { .. } => seq!['m', 'u', 'l', 'h'],
            Rv32Op::Mulhsu { .. } => seq!['m', 'u', 'l', 'h', 's', 'u'],
            Rv32Op::Mulhu { .. } => seq!['m', 'u', 'l', 'h', 'u'],
            Rv32Op::Div { .. } => seq!['d', 'i', 'v'],
            Rv32Op::Divu { .. } => seq!['d', 'i', 'v', 'u'],
            Rv32Op::Rem { .. } => seq!['r', 'e', 'm'],
            Rv32Op::Remu { .. } => seq!['r', 'e', 'm', 'u'],
            Rv32Op::Fence { .. } => seq!['f', 'e', 'n', 'c', 'e'],
            Rv32Op::Fencei => seq!['f', 'e', 'n', 'c', 'e', '.', 'i'],
            Rv32Op::Ecall => seq!['e', 'c', 'a', 'l', 'l'],
            Rv32Op::EBreak => seq!['e', 'b', 'r', 'e', 'a', 'k'],
            Rv32Op::Wfi => seq!['w', 'f', 'i'],
            Rv32Op::Mret => seq!['m', 'r', 'e', 't'],
            Rv32Op::Csrrw { .. } => seq!['c', 's', 'r', 'r', 'w'],
            Rv32Op::Csrrs { .. } => seq!['c', 's', 'r', 'r', 's'],
            Rv32Op::Csrrc { .. } => seq!['c', 's', 'r', 'r', 'c'],
            Rv32Op::Csrrwi { .. } => seq!['c', 's', 'r', 'r', 'w', 'i'],
            Rv32Op::Csrrsi { .. } => seq!['c', 's', 'r', 'r', 's', 'i'],
            Rv32Op::Csrrci { .. } => seq!['c', 's', 'r', 'r', 'c', 'i'],
            Rv32Op::Invalid(..) => seq!['i', 'n', 'v', 'a', 'l', 'i', 'd'],
        }
    }

    /// The texts of the operands, for an instruction at address `addr`.
    pub open spec fn spec_operands(self, addr: u32) -> Seq<Seq<char>> {
        match self {
            Rv32Op::Lui { immediate, rd } => seq![spec_reg_name(rd), spec_hex(immediate as nat, 8)],
            Rv32Op::Auipc { immediate, rd } => seq![spec_reg_name(rd), spec_hex(immediate as nat, 8)],
            Rv32Op::Jal { immediate, rd } => seq![spec_reg_name(rd), spec_hex(spec_target(addr, immediate) as nat, 8)],
            Rv32Op::Jalr { immediate, rs1, rd } => seq![spec_reg_name(rd), spec_mem(immediate, rs1)],
            Rv32Op::Beq { immediate, rs1, rs2 } => seq![spec_reg_name(rs1), spec_reg_name(rs2), spec_hex(spec_target(addr, immediate) as nat, 8)],
            Rv32Op::Bne { immediate, rs1, rs2 } => seq![spec_reg_name(rs1), spec_reg_name(rs2), spec_hex(spec_target(addr, immediate) as nat, 8)],
            Rv32Op::Blt { immediate, rs1, rs2 } => seq![spec_reg_name(rs1), spec_reg_name(rs2), spec_hex(spec_target(addr, immediate) as nat, 8)],
            Rv32Op::Bge { immediate, rs1, rs2 } => seq![spec_reg_name(rs1), spec_reg_name(rs2), spec_hex(spec_target(addr, immediate) as nat, 8)],
            Rv32Op::Bltu { immediate, rs1, rs2 } => seq![spec_reg_name(rs1), spec_reg_name(rs2), spec_hex(spec_target(addr, immediate) as nat, 8)],
            Rv32Op::Bgeu { immediate, rs1, rs2 } => seq![spec_reg_name(rs1), spec_reg_name(rs2), spec_hex(spec_target(addr, immediate) as nat, 8)],
            Rv32Op::Lb { immediate, rs1, rd } => seq![spec_reg_name(rd), spec_mem(immediate, rs1)],
            Rv32Op::Lh { immediate, rs1, rd } => seq![spec_reg_name(rd), spec_mem(immediate, rs1)],
            Rv32Op::Lw { immediate, rs1, rd } => seq![spec_reg_name(rd), spec_mem(immediate, rs1)],
            Rv32Op::Lbu { immediate, rs1, rd } => seq![spec_reg_name(rd), spec_mem(immediate, rs1)],
            Rv32Op::Lhu { immediate, rs1, rd } => seq![spec_reg_name(rd), spec_mem(immediate, rs1)],
            Rv32Op::Sb { immediate, rs1, rs2 } => seq![spec_reg_name(rs2), spec_mem(immediate, rs1)],
            Rv32Op::Sh { immediate, rs1, rs2 } => seq![spec_reg_name(rs2), spec_mem(immediate, rs1)],
            Rv32Op::Sw { immediate, rs1, rs2 } => seq![spec_reg_name(rs2), spec_mem(immediate, rs1)],
            Rv32Op::Addi { immediate, rd, rs1 } => seq![spec_reg_name(rd), spec_reg_name(rs1), spec_signed(immediate as int)],
            Rv32Op::Slti { immediate, rd, rs1 } => seq![spec_reg_name(rd), spec_reg_name(rs1), spec_signed(immediate as int)],
            Rv32Op::Sltiu { immediate, rd, rs1 } => seq![spec_reg_name(rd), spec_reg_name(rs1), spec_signed(immediate as int)],
            Rv32Op::Xori { immediate, rd, rs1 } => seq![spec_reg_name(rd), spec_reg_name(rs1), spec_hex((immediate as u32) as nat, 8)],
            Rv32Op::Ori { immediate, rd, rs1 } => seq![spec_reg_name(rd), spec_reg_name(rs1), spec_hex((immediate as u32) as nat, 8)],
            Rv32Op::Andi { immediate, rd, rs1 } => seq![spec_reg_name(rd), spec_reg_name(rs1), spec_hex((immediate as u32) as nat, 8)],
            Rv32Op::Slli { shamt, rd, rs1 } => seq![spec_reg_name(rd), spec_reg_name(rs1), spec_dec(shamt as nat)],
            Rv32Op::Srli { shamt, rd, rs1 } => seq![spec_reg_name(rd), spec_reg_name(rs1), spec_dec(shamt as nat)],
            Rv32Op::Srai { shamt, rd, rs1 } => seq![spec_reg_name(rd), spec_reg_name(rs1), spec_dec(shamt as nat)],
            Rv32Op::Add { rd, rs1, rs2 } => seq![spec_reg_name(rd), spec_reg_name(rs1), spec_reg_name(rs2)],
            Rv32Op::Sub { rd, rs1, rs2 } => seq![spec_reg_name(rd), spec_reg_name(rs1), spec_reg_name(rs2)],
            Rv32Op::Sll { rd, rs1, rs2 } => seq![spec_reg_name(rd), spec_reg_name(rs1), spec_reg_name(rs2)],
            Rv32Op::Slt { rd, rs1, rs2 } => seq![spec_reg_name(rd), spec_reg_name(rs1), spec_reg_name(rs2)],
            Rv32Op::Sltu { rd, rs1, rs2 } => seq![spec_reg_name(rd), spec_reg_name(rs1), spec_reg_name(rs2)],
            Rv32Op::Xor { rd, rs1, rs2 } => seq![spec_reg_name(rd), spec_reg_name(rs1), spec_reg_name(rs2)],
            Rv32Op::Srl { rd, rs1, rs2 } => seq![spec_reg_name(rd), spec_reg_name(rs1), spec_reg_name(rs2)],
            Rv32Op::Sra { rd, rs1, rs2 } => seq![spec_reg_name(rd), spec_reg_name(rs1), spec_reg_name(rs2)],
            Rv32Op::Or { rd, rs1, rs2 } => seq![spec_reg_name(rd), spec_reg_name(rs1), spec_reg_name(rs2)],
            Rv32Op::And { rd, rs1, rs2 } => seq![spec_reg_name(rd), spec_reg_name(rs1), spec_reg_name(rs2)],
            Rv32Op::Mul { rd, rs1, rs2 } => seq![spec_reg_name(rd), spec_reg_name(rs1), spec_reg_name(rs2)],
            Rv32Op::Mulh { rd, rs1, rs2 } => seq![spec_reg_name(rd), spec_reg_name(rs1), spec_reg_name(rs2)],
            Rv32Op::Mulhsu { rd, rs1, rs2 } => seq![spec_reg_name(rd), spec_reg_name(rs1), spec_reg_name(rs2)],
            Rv32Op::Mulhu { rd, rs1, rs2 } => seq![spec_reg_name(rd), spec_reg_name(rs1), spec_reg_name(rs2)],
            Rv32Op::Div { rd, rs1, rs2 } => seq![spec_reg_name(rd), spec_reg_name(rs1), spec_reg_name(rs2)],
            Rv32Op::Divu { rd, rs1, rs2 } => seq![spec_reg_name(rd), spec_reg_name(rs1), spec_reg_name(rs2)],
            Rv32Op::Rem { rd, rs1, rs2 } => seq![spec_reg_name(rd), spec_reg_name(rs1), spec_reg_name(rs2)],
            Rv32Op::Remu { rd, rs1, rs2 } => seq![spec_reg_name(rd), spec_reg_name(rs1), spec_reg_name(rs2)],
            Rv32Op::Fence { predecessor, successor } => seq![predecessor.spec_text(), successor.spec_text()],
            Rv32Op::Fencei => seq![],
            Rv32Op::Ecall => seq![],
            Rv32Op::EBreak => seq![],
            Rv32Op::Wfi => seq![],
            Rv32Op::Mret => seq![],
            Rv32Op::Csrrw { csr, rd, rs1 } => seq![spec_hex(csr as nat, 3), spec_reg_name(rd), spec_reg_name(rs1)],
            Rv32Op::Csrrs { csr, rd, rs1 } => seq![spec_hex(csr as nat, 3), spec_reg_name(rd), spec_reg_name(rs1)],
            Rv32Op::Csrrc { csr, rd, rs1 } => seq![spec_hex(csr as nat, 3), spec_reg_name(rd), spec_reg_name(rs1)],
            Rv32Op::Csrrwi { csr, rd, immediate } => seq![spec_hex(csr as nat, 3), spec_reg_name(rd), spec_dec(immediate as nat)],
            Rv32Op::Csrrsi { csr, rd, immediate } => seq![spec_hex(csr as nat, 3), spec_reg_name(rd), spec_dec(immediate as nat)],
            Rv32Op::Csrrci { csr, rd, immediate } => seq![spec_hex(csr as nat, 3), spec_reg_name(rd), spec_dec(immediate as nat)],
            Rv32Op::Invalid(w) => seq![spec_hex(w as nat, 8)],
        }
    }

    /// The disassembly of the instruction at address `addr`.
    pub open spec fn spec_assembly(self, addr: u32) -> Seq<char> {
        spec_line(self.spec_mnemonic(), self.spec_operands(addr))
    }

    /// The assembler mnemonic of the instruction.
    pub fn mnemonic(&self) -> (r: Vec<char>)
        ensures
            r@ == self.spec_mnemonic(),
    {
        match self {
            Rv32Op::Lui { .. } => vec!['l', 'u', 'i'],
            Rv32Op::Auipc { .. } => vec!['a', 'u', 'i', 'p', 'c'],
            Rv32Op::Jal { .. } => vec!['j', 'a', 'l'],
            Rv32Op::Jalr { .. } => vec!['j', 'a', 'l', 'r'],
            Rv32Op::Beq { .. } => vec!['b', 'e', 'q'],
            Rv32Op::Bne { .. } => vec!['b', 'n', 'e'],
            Rv32Op::Blt { .. } => vec!['b', 'l', 't'],
            Rv32Op::Bge { .. } => vec!['b', 'g', 'e'],
            Rv32Op::Bltu { .. } => vec!['b', 'l', 't', 'u'],
            Rv32Op::Bgeu { .. } => vec!['b', 'g', 'e', 'u'],
            Rv32Op::Lb { .. } => vec!['l', 'b'],
            Rv32Op::Lh { .. } => vec!['l', 'h'],
            Rv32Op::Lw { .. } => vec!['l', 'w'],
            Rv32Op::Lbu { .. } => vec!['l', 'b', 'u'],
            Rv32Op::Lhu { .. } => vec!['l', 'h', 'u'],
            Rv32Op::Sb { .. } => vec!['s', 'b'],
            Rv32Op::Sh { .. } => vec!['s', 'h'],
            Rv32Op::Sw { .. } => vec!['s', 'w'],
            Rv32Op::Addi { .. } => vec!['a', 'd', 'd', 'i'],
            Rv32Op::Slti { .. } => vec!['s', 'l', 't', 'i'],
            Rv32Op::Sltiu { .. } => vec!['s', 'l', 't', 'i', 'u'],
            Rv32Op::Xori { .. } => vec!['x', 'o', 'r', 'i'],
            Rv32Op::Ori { .. } => vec!['o', 'r', 'i'],
            Rv32Op::Andi { .. } => vec!['a', 'n', 'd', 'i'],
            Rv32Op::Slli { .. } => vec!['s', 'l', 'l', 'i'],
            Rv32Op::Srli { .. } => vec!['s', 'r', 'l', 'i'],
            Rv32Op::Srai { .. } => vec!['s', 'r', 'a', 'i'],
            Rv32Op::Add { .. } => vec!['a', 'd', 'd'],
            Rv32Op::Sub { .. } => vec!['s', 'u', 'b'],
            Rv32Op::Sll { .. } => vec!['s', 'l', 'l'],
            Rv32Op::Slt { .. } => vec!['s', 'l', 't'],
            Rv32Op::Sltu { .. } => vec!['s', 'l', 't', 'u'],
            Rv32Op::Xor { .. } => vec!['x', 'o', 'r'],
            Rv32Op::Srl { .. } => vec!['s', 'r', 'l'],
            Rv32Op::Sra { .. } => vec!['s', 'r', 'a'],
            Rv32Op::Or { .. } => vec!['o', 'r'],
            Rv32Op::And { .. } => vec!['a', 'n', 'd'],
            Rv32Op::Mul { .. } => vec!['m', 'u', 'l'],
            Rv32Op::Mulh { .. } => vec!['m', 'u', 'l', 'h'],
            Rv32Op::Mulhsu { .. } => vec!['m', 'u', 'l', 'h', 's', 'u'],
            Rv32Op::Mulhu { .. } => vec!['m', 'u', 'l', 'h', 'u'],
            Rv32Op::Div { .. } => vec!['d', 'i', 'v'],
            Rv32Op::Divu { .. } => vec!['d', 'i', 'v', 'u'],
            Rv32Op::Rem { .. } => vec!['r', 'e', 'm'],
            Rv32Op::Remu { .. } => vec!['r', 'e', 'm', 'u'],
            Rv32Op::Fence { .. } => vec!['f', 'e', 'n', 'c', 'e'],
            Rv32Op::Fencei => vec!['f', 'e', 'n', 'c', 'e', '.', 'i'],
            Rv32Op::Ecall => vec!['e', 'c', 'a', 'l', 'l'],
            Rv32Op::EBreak => vec!['e', 'b', 'r', 'e', 'a', 'k'],
            Rv32Op::Wfi => vec!['w', 'f', 'i'],
            Rv32Op::Mret => vec!['m', 'r', 'e', 't'],
            Rv32Op::Csrrw { .. } => vec!['c', 's', 'r', 'r', 'w'],
            Rv32Op::Csrrs { .. } => vec!['c', 's', 'r', 'r', 's'],
            Rv32Op::Csrrc { .. } => vec!['c', 's', 'r', 'r', 'c'],
            Rv32Op::Csrrwi { .. } => vec!['c', 's', 'r', 'r', 'w', 'i'],
            Rv32Op::Csrrsi { .. } => vec!['c', 's', 'r', 'r', 's', 'i'],
            Rv32Op::Csrrci { .. } => vec!['c', 's', 'r', 'r', 'c', 'i'],
            Rv32Op::Invalid(..) => vec!['i', 'n', 'v', 'a', 'l', 'i', 'd'],
        }
    }

    /// The texts of the operands, for an instruction at address `addr`.
    pub fn operands(&self, addr: u32) -> (r: Vec<Vec<char>>)
        ensures
            spec_views(r@) == self.spec_operands(addr),
    {
        let r: Vec<Vec<char>> = match self {
            Rv32Op::Lui { immediate, rd } => vec![reg_text(*rd), hex_text(*immediate, 8)],
            Rv32Op::Auipc { immediate, rd } => vec![reg_text(*rd), hex_text(*immediate, 8)],
            Rv32Op::Jal { immediate, rd } => vec![reg_text(*rd), hex_text(branch_target(addr, *immediate), 8)],
            Rv32Op::Jalr { immediate, rs1, rd } => vec![reg_text(*rd), mem_text(*immediate, *rs1)],
            Rv32Op::Beq { immediate, rs1, rs2 } => vec![reg_text(*rs1), reg_text(*rs2), hex_text(branch_target(addr, *immediate), 8)],
            Rv32Op::Bne { immediate, rs1, rs2 } => vec![reg_text(*rs1), reg_text(*rs2), hex_text(branch_target(addr, *immediate), 8)],
            Rv32Op::Blt { immediate, rs1, rs2 } => vec![reg_text(*rs1), reg_text(*rs2), hex_text(branch_target(addr, *immediate), 8)],
            Rv32Op::Bge { immediate, rs1, rs2 } => vec![reg_text(*rs1), reg_text(*rs2), hex_text(branch_target(addr, *immediate), 8)],
            Rv32Op::Bltu { immediate, rs1, rs2 } => vec![reg_text(*rs1), reg_text(*rs2), hex_text(branch_target(addr, *immediate), 8)],
            Rv32Op::Bgeu { immediate, rs1, rs2 } => vec![reg_text(*rs1), reg_text(*rs2), hex_text(branch_target(addr, *immediate), 8)],
            Rv32Op::Lb { immediate, rs1, rd } => vec![reg_text(*rd), mem_text(*immediate, *rs1)],
            Rv32Op::Lh { immediate, rs1, rd } => vec![reg_text(*rd), mem_text(*immediate, *rs1)],
            Rv32Op::Lw { immediate, rs1, rd } => vec![reg_text(*rd), mem_text(*immediate, *rs1)],
            Rv32Op::Lbu { immediate, rs1, rd } => vec![reg_text(*rd), mem_text(*immediate, *rs1)],
            Rv32Op::Lhu { immediate, rs1, rd } => vec![reg_text(*rd), mem_text(*immediate, *rs1)],
            Rv32Op::Sb { immediate, rs1, rs2 } => vec![reg_text(*rs2), mem_text(*immediate, *rs1)],
            Rv32Op::Sh { immediate, rs1, rs2 } => vec![reg_text(*rs2), mem_text(*immediate, *rs1)],
            Rv32Op::Sw { immediate, rs1, rs2 } => vec![reg_text(*rs2), mem_text(*immediate, *rs1)],
            Rv32Op::Addi { immediate, rd, rs1 } => vec![reg_text(*rd), reg_text(*rs1), signed_text(*immediate)],
            Rv32Op::Slti { immediate, rd, rs1 } => vec![reg_text(*rd), reg_text(*rs1), signed_text(*immediate)],
            Rv32Op::Sltiu { immediate, rd, rs1 } => vec![reg_text(*rd), reg_text(*rs1), signed_text(*immediate)],
            Rv32Op::Xori { immediate, rd, rs1 } => vec![reg_text(*rd), reg_text(*rs1), hex_text(*immediate as u32, 8)],
            Rv32Op::Ori { immediate, rd, rs1 } => vec![reg_text(*rd), reg_text(*rs1), hex_text(*immediate as u32, 8)],
            Rv32Op::Andi { immediate, rd, rs1 } => vec![reg_text(*rd), reg_text(*rs1), hex_text(*immediate as u32, 8)],
            Rv32Op::Slli { shamt, rd, rs1 } => vec![reg_text(*rd), reg_text(*rs1), dec_text(*shamt as u32)],
            Rv32Op::Srli { shamt, rd, rs1 } => vec![reg_text(*rd), reg_text(*rs1), dec_text(*shamt as u32)],
            Rv32Op::Srai { shamt, rd, rs1 } => vec![reg_text(*rd), reg_text(*rs1), dec_text(*shamt as u32)],
            Rv32Op::Add { rd, rs1, rs2 } => vec![reg_text(*rd), reg_text(*rs1), reg_text(*rs2)],
            Rv32Op::Sub { rd, rs1, rs2 } => vec![reg_text(*rd), reg_text(*rs1), reg_text(*rs2)],
            Rv32Op::Sll { rd, rs1, rs2 } => vec![reg_text(*rd), reg_text(*rs1), reg_text(*rs2)],
            Rv32Op::Slt { rd, rs1, rs2 } => vec![reg_text(*rd), reg_text(*rs1), reg_text(*rs2)],
            Rv32Op::Sltu { rd, rs1, rs2 } => vec![reg_text(*rd), reg_text(*rs1), reg_text(*rs2)],
            Rv32Op::Xor { rd, rs1, rs2 } => vec![reg_text(*rd), reg_text(*rs1), reg_text(*rs2)],
            Rv32Op::Srl { rd, rs1, rs2 } => vec![reg_text(*rd), reg_text(*rs1), reg_text(*rs2)],
            Rv32Op::Sra { rd, rs1, rs2 } => vec![reg_text(*rd), reg_text(*rs1), reg_text(*rs2)],
            Rv32Op::Or { rd, rs1, rs2 } => vec![reg_text(*rd), reg_text(*rs1), reg_text(*rs2)],
            Rv32Op::And { rd, rs1, rs2 } => vec![reg_text(*rd), reg_text(*rs1), reg_text(*rs2)],
            Rv32Op::Mul { rd, rs1, rs2 } => vec![reg_text(*rd), reg_text(*rs1), reg_text(*rs2)],
            Rv32Op::Mulh { rd, rs1, rs2 } => vec![reg_text(*rd), reg_text(*rs1), reg_text(*rs2)],
            Rv32Op::Mulhsu { rd, rs1, rs2 } => vec![reg_text(*rd), reg_text(*rs1), reg_text(*rs2)],
            Rv32Op::Mulhu { rd, rs1, rs2 } => vec![reg_text(*rd), reg_text(*rs1), reg_text(*rs2)],
            Rv32Op::Div { rd, rs1, rs2 } => vec![reg_text(*rd), reg_text(*rs1), reg_text(*rs2)],
            Rv32Op::Divu { rd, rs1, rs2 } => vec![reg_text(*rd), reg_text(*rs1), reg_text(*rs2)],
            Rv32Op::Rem { rd, rs1, rs2 } => vec![reg_text(*rd), reg_text(*rs1), reg_text(*rs2)],
            Rv32Op::Remu { rd, rs1, rs2 } => vec![reg_text(*rd), reg_text(*rs1), reg_text(*rs2)],
            Rv32Op::Fence { predecessor, successor } => vec![predecessor.text(), successor.text()],
            Rv32Op::Fencei => vec![],
            Rv32Op::Ecall => vec![],
            Rv32Op::EBreak => vec![],
            Rv32Op::Wfi => vec![],
            Rv32Op::Mret => vec![],
            Rv32Op::Csrrw { csr, rd, rs1 } => vec![hex_text(*csr as u32, 3), reg_text(*rd), reg_text(*rs1)],
            Rv32Op::Csrrs { csr, rd, rs1 } => vec![hex_text(*csr as u32, 3), reg_text(*rd), reg_text(*rs1)],
            Rv32Op::Csrrc { csr, rd, rs1 } => vec![hex_text(*csr as u32, 3), reg_text(*rd), reg_text(*rs1)],
            Rv32Op::Csrrwi { csr, rd, immediate } => vec![hex_text(*csr as u32, 3), reg_text(*rd), dec_text(*immediate as u32)],
            Rv32Op::Csrrsi { csr, rd, immediate } => vec![hex_text(*csr as u32, 3), reg_text(*rd), dec_text(*immediate as u32)],
            Rv32Op::Csrrci { csr, rd, immediate } => vec![hex_text(*csr as u32, 3), reg_text(*rd), dec_text(*immediate as u32)],
            Rv32Op::Invalid(w) => vec![hex_text(*w, 8)],
        };
        proof { assert(spec_views(r@) =~= self.spec_operands(addr)); }
        r
    }

    /// The disassembly of the instruction at address `addr`: the mnemonic, then the operands
    /// in columns; jump and branch targets and the logic immediates in hexadecimal, other
    /// numbers in decimal.
    pub fn assembly(&self, addr: u32) -> (r: String)
        ensures
            r@ == self.spec_assembly(addr),
    {
        let mn = self.mnemonic();
        let ops = self.operands(addr);
        let line = layout(&mn, &ops);
        chars_to_string(line)
    }
}

/// The text of register `r`.
pub fn reg_text(r: u8) -> (v: Vec<char>)
    ensures
        v@ == spec_reg_name(r),
{
    let mut v: Vec<char> = Vec::new();
    push_reg(&mut v, r);
    proof { assert(v@ =~= spec_reg_name(r)); }
    v
}

/// The last `n` hexadecimal digits of `x`.
pub fn hex_text(x: u32, n: u32) -> (v: Vec<char>)
    ensures
        v@ == spec_hex(x as nat, n as nat),
{
    let mut v: Vec<char> = Vec::new();
    push_hex(&mut v, x, n);
    proof { assert(v@ =~= spec_hex(x as nat, n as nat)); }
    v
}

/// `x` in decimal.
pub fn dec_text(x: u32) -> (v: Vec<char>)
    ensures
        v@ == spec_dec(x as nat),
{
    let mut v: Vec<char> = Vec::new();
    push_dec(&mut v, x);
    proof { assert(v@ =~= spec_dec(x as nat)); }
    v
}

/// `x` in decimal, with a minus sign when negative.
pub fn signed_text(x: i32) -> (v: Vec<char>)
    ensures
        v@ == spec_signed(x as int),
{
    let mut v: Vec<char> = Vec::new();
    push_signed(&mut v, x);
    proof { assert(v@ =~= spec_signed(x as int)); }
    v
}

/// A memory operand: `imm(rs1)`.
pub fn mem_text(imm: i32, rs1: u8) -> (v: Vec<char>)
    ensures
        v@ == spec_mem(imm, rs1),
{
    let mut v: Vec<char> = Vec::new();
    push_signed(&mut v, imm);
    v.push('(');
    push_reg(&mut v, rs1);
    v.push(')');
    proof { assert(v@ =~= spec_mem(imm, rs1)); }
    v
}

/// Lays out a mnemonic and its operands as one line of disassembly.
pub fn layout(mnemonic: &Vec<char>, ops: &Vec<Vec<char>>) -> (r: Vec<char>)
    ensures
        r@ == spec_line(mnemonic@, spec_views(ops@)),
{
    let mut out: Vec<char> = Vec::new();
    push_all(&mut out, mnemonic);
    if ops.len() == 0 {
        proof { assert(out@ =~= mnemonic@); }
        return out;
    }
    pad_from(&mut out, 0, 7);
    proof {
        assert(out@ =~= spec_pad(mnemonic@, 7)) by {
            assert(mnemonic@.skip(0) =~= mnemonic@);
            assert(Seq::<char>::empty().take(0) =~= Seq::<char>::empty());
        }
    }
    let ghost views = spec_views(ops@);
    let mut k: usize = 0;
    while k < ops.len() - 1
        invariant
            ops@.len() >= 1,
            k + 1 <= ops@.len(),
            views == spec_views(ops@),
            out@ == spec_pad(mnemonic@, 7) + spec_join_upto(views, k as int),
        decreases ops@.len() - k,
    {
        let start = out.len();
        push_all(&mut out, &ops[k]);
        out.push(',');
        let ghost before_pad = out@;
        pad_from(&mut out, start, 6);
        proof {
            assert(before_pad.skip(start as int) =~= ops@[k as int]@.push(','));
            assert(before_pad.take(start as int) =~= spec_pad(mnemonic@, 7) + spec_join_upto(views, k as int));
            assert(spec_join_upto(views, k + 1) == spec_join_upto(views, k as int) + spec_pad(views[k as int].push(','), 6));
        }
        k = k + 1;
    }
    push_all(&mut out, &ops[k]);
    proof {
        assert(k + 1 == ops@.len());
    }
    out
}

} // verus!
