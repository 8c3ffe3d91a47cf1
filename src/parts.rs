//! Splitting raw RISC-V instruction words into their component parts.
//!
//! This module extracts the opcode, register numbers, minor opcodes and immediate values from a
//! raw binary instruction, following the base instruction formats of the RISC-V specification.

use crate::error::ProcessorException;
use vstd::prelude::*;

verus! {

/// Length of a RISC-V instruction, as given by the low bits of its first half-word.
///
/// Only the [`Word`](Self::Word) (standard 32-bit) length is supported by this implementation.
#[derive(Clone, Copy, Debug, PartialEq, Eq, Structural, Hash)]
pub enum InstructionLength {
    /// The compressed 16-bit instruction length.
    HalfWord,
    /// The standard 32-bit instruction length.
    Word,
    /// The proposed 48-bit instruction length.
    WordAndHalf,
    /// The proposed 64-bit instruction length.
    DoubleWord,
    /// The proposed custom instruction length, in bits (80 to 176).
    Custom(u8),
    /// Reserved for instruction lengths of 192 bits and more.
    Reserved,
}

/// The length that the low bits of `raw` announce.
pub open spec fn spec_instruction_length(raw: u32) -> InstructionLength {
    if raw & 0b11 != 0b11 {
        InstructionLength::HalfWord
    } else if raw & 0b11100 != 0b11100 {
        InstructionLength::Word
    } else if raw & 0b100000 == 0 {
        InstructionLength::WordAndHalf
    } else if raw & 0b1000000 == 0 {
        InstructionLength::DoubleWord
    } else if (raw & 0b0111000000000000) >> 12u32 == 0b111 {
        InstructionLength::Reserved
    } else {
        InstructionLength::Custom((80 + 16 * ((raw & 0b0111000000000000) >> 12u32)) as u8)
    }
}

/// Bits [6:0]: the opcode.
pub open spec fn spec_opcode(raw: u32) -> u8 {
    (raw & 0x7f) as u8
}

/// Bits [11:7]: the destination register.
pub open spec fn spec_rd(raw: u32) -> u8 {
    ((raw & 0xf80) >> 7u32) as u8
}

/// Bits [19:15]: the first source register.
pub open spec fn spec_rs1(raw: u32) -> u8 {
    ((raw & 0xf8000) >> 15u32) as u8
}

/// Bits [24:20]: the second source register.
pub open spec fn spec_rs2(raw: u32) -> u8 {
    ((raw & 0x1f00000) >> 20u32) as u8
}

/// Bits [14:12]: the three-bit minor opcode.
pub open spec fn spec_funct3(raw: u32) -> u8 {
    ((raw & 0x7000) >> 12u32) as u8
}

/// Bits [31:25]: the seven-bit minor opcode.
pub open spec fn spec_funct7(raw: u32) -> u8 {
    ((raw & 0xfe000000) >> 25u32) as u8
}

/// I-format immediate: bits [31:20], sign-extended.
pub open spec fn spec_imm_i(raw: u32) -> i32 {
    ((raw & 0xfff00000) as i32) >> 20u32
}

/// S-format immediate: bits [31:25] then [11:7], sign-extended.
pub open spec fn spec_imm_s(raw: u32) -> i32 {
    (((raw & 0xfe000000) | ((raw & 0xf80) << 13u32)) as i32) >> 20u32
}

/// B-format immediate: bit 31, bit 7, bits [30:25], bits [11:8], then a zero bit, sign-extended.
pub open spec fn spec_imm_b(raw: u32) -> i32 {
    (((raw & 0x80000000) | ((raw & 0x80) << 23u32) | ((raw & 0x7e000000) >> 1u32) | ((raw
        & 0xf00) << 12u32)) as i32) >> 19u32
}

/// U-format immediate: bits [31:12] followed by twelve zero bits.
pub open spec fn spec_imm_u(raw: u32) -> i32 {
    (raw & 0xfffff000) as i32
}

/// J-format immediate: bit 31, bits [19:12], bit 20, bits [30:21], then a zero bit,
/// sign-extended.
pub open spec fn spec_imm_j(raw: u32) -> i32 {
    (((raw & 0x80000000) | ((raw & 0xff000) << 11u32) | ((raw & 0x100000) << 2u32) | ((raw
        & 0x7fe00000) >> 9u32)) as i32) >> 11u32
}

/// The component parts of an instruction of the standard 32-bit length.
#[derive(Clone, Copy, Debug, PartialEq, Eq, Structural, Hash)]
pub struct InstructionWordParts {
    /// The raw instruction represented by these parts.
    pub raw: u32,
    /// Opcode for this instruction.
    pub opcode: u8,
    /// Destination register (R, I, U, J formats).
    pub rd: u8,
    /// First source register (R, I, S, B formats).
    pub rs1: u8,
    /// Second source register (R, S, B formats).
    pub rs2: u8,
    /// Three-bit minor opcode (R, I, S, B formats).
    pub funct3: u8,
    /// Seven-bit minor opcode (R format).
    pub funct7: u8,
    /// The immediate value when the instruction is read in I format.
    pub imm_i: i32,
    /// The immediate value when the instruction is read in S format.
    pub imm_s: i32,
    /// The immediate value when the instruction is read in B format.
    pub imm_b: i32,
    /// The immediate value when the instruction is read in U format.
    pub imm_u: i32,
    /// The immediate value when the instruction is read in J format.
    pub imm_j: i32,
}

/// The parts of the 32-bit instruction `raw`.
pub open spec fn word_parts(raw: u32) -> InstructionWordParts {
    InstructionWordParts {
        raw,
        opcode: spec_opcode(raw),
        rd: spec_rd(raw),
        rs1: spec_rs1(raw),
        rs2: spec_rs2(raw),
        funct3: spec_funct3(raw),
        funct7: spec_funct7(raw),
        imm_i: spec_imm_i(raw),
        imm_s: spec_imm_s(raw),
        imm_b: spec_imm_b(raw),
        imm_u: spec_imm_u(raw),
        imm_j: spec_imm_j(raw),
    }
}

impl InstructionWordParts {
    /// Every field is within the range of its bits.
    pub open spec fn wf(&self) -> bool {
        &&& self.opcode < 128
        &&& self.rd < 32
        &&& self.rs1 < 32
        &&& self.rs2 < 32
        &&& self.funct3 < 8
        &&& self.funct7 < 128
    }

    /// Extract the component parts of the 32-bit instruction `raw`.
    pub fn new(raw: u32) -> (r: Self)
        ensures
            r == word_parts(raw),
            r.wf(),
            r.opcode < 128,
            r.rd < 32,
            r.rs1 < 32,
            r.rs2 < 32,
            r.funct3 < 8,
            r.funct7 < 128,
    {
        let opcode = raw & 0x7f;
        let rd = (raw & 0xf80) >> 7;
        let rs1 = (raw & 0xf8000) >> 15;
        let rs2 = (raw & 0x1f00000) >> 20;
        let funct3 = (raw & 0x7000) >> 12;
        let funct7 = (raw & 0xfe000000) >> 25;
        let imm_i = ((raw & 0xfff00000) as i32) >> 20;
        let imm_s = (((raw & 0xfe000000) | ((raw & 0xf80) << 13)) as i32) >> 20;
        let imm_b = (((raw & 0x80000000) | ((raw & 0x80) << 23) | ((raw & 0x7e000000) >> 1) | ((
        raw & 0xf00) << 12)) as i32) >> 19;
        let imm_u = (raw & 0xfffff000) as i32;
        let imm_j = (((raw & 0x80000000) | ((raw & 0xff000) << 11) | ((raw & 0x100000) << 2) | ((
        raw & 0x7fe00000) >> 9)) as i32) >> 11;
        proof {
            lemma_field_bounds(raw);
        }
        InstructionWordParts {
            raw,
            opcode: opcode as u8,
            rd: rd as u8,
            rs1: rs1 as u8,
            rs2: rs2 as u8,
            funct3: funct3 as u8,
            funct7: funct7 as u8,
            imm_i,
            imm_s,
            imm_b,
            imm_u,
            imm_j,
        }
    }
}

proof fn lemma_field_bounds(raw: u32)
    ensures
        spec_opcode(raw) < 128,
        spec_rd(raw) < 32,
        spec_rs1(raw) < 32,
        spec_rs2(raw) < 32,
        spec_funct3(raw) < 8,
        spec_funct7(raw) < 128,
{
    assert((raw & 0x7f) < 128 && ((raw & 0xf80) >> 7u32) < 32 && ((raw & 0xf8000) >> 15u32) < 32
        && ((raw & 0x1f00000) >> 20u32) < 32 && ((raw & 0x7000) >> 12u32) < 8 && ((raw
        & 0xfe000000) >> 25u32) < 128) by (bit_vector);
}

/// The R-format word with the given fields.
pub open spec fn encode_r(funct7: u32, rs2: u32, rs1: u32, funct3: u32, rd: u32, opcode: u32) -> u32 {
    (funct7 << 25u32) | (rs2 << 20u32) | (rs1 << 15u32) | (funct3 << 12u32) | (rd << 7u32) | opcode
}

/// The I-format word with the given fields; `imm` is a 12-bit signed immediate.
pub open spec fn encode_i(imm: i32, rs1: u32, funct3: u32, rd: u32, opcode: u32) -> u32 {
    (((imm as u32) & 0xfff) << 20u32) | (rs1 << 15u32) | (funct3 << 12u32) | (rd << 7u32) | opcode
}

/// The S-format word with the given fields; `imm` is a 12-bit signed immediate.
pub open spec fn encode_s(imm: i32, rs2: u32, rs1: u32, funct3: u32, opcode: u32) -> u32 {
    ((((imm as u32) >> 5u32) & 0x7f) << 25u32) | (rs2 << 20u32) | (rs1 << 15u32) | (funct3
        << 12u32) | (((imm as u32) & 0x1f) << 7u32) | opcode
}

/// The B-format word with the given fields; `imm` is an even 13-bit signed offset.
pub open spec fn encode_b(imm: i32, rs2: u32, rs1: u32, funct3: u32, opcode: u32) -> u32 {
    ((((imm as u32) >> 12u32) & 1) << 31u32) | ((((imm as u32) >> 5u32) & 0x3f) << 25u32) | (rs2
        << 20u32) | (rs1 << 15u32) | (funct3 << 12u32) | ((((imm as u32) >> 1u32) & 0xf) << 8u32)
        | ((((imm as u32) >> 11u32) & 1) << 7u32) | opcode
}

/// The U-format word with the given fields; `imm` has its low twelve bits clear.
pub open spec fn encode_u(imm: i32, rd: u32, opcode: u32) -> u32 {
    ((imm as u32) & 0xfffff000) | (rd << 7u32) | opcode
}

/// The J-format word with the given fields; `imm` is an even 21-bit signed offset.
pub open spec fn encode_j(imm: i32, rd: u32, opcode: u32) -> u32 {
    ((((imm as u32) >> 20u32) & 1) << 31u32) | ((((imm as u32) >> 1u32) & 0x3ff) << 21u32) | ((((
    imm as u32) >> 11u32) & 1) << 20u32) | ((((imm as u32) >> 12u32) & 0xff) << 12u32) | (rd
        << 7u32) | opcode
}

/// Decoding an R-format word gives back its opcode, registers and minor opcodes.
pub proof fn lemma_r_format_round_trip(
    funct7: u32,
    rs2: u32,
    rs1: u32,
    funct3: u32,
    rd: u32,
    opcode: u32,
)
    by (bit_vector)
    requires
        funct7 < 128,
        rs2 < 32,
        rs1 < 32,
        funct3 < 8,
        rd < 32,
        opcode < 128,
    ensures
        spec_opcode(encode_r(funct7, rs2, rs1, funct3, rd, opcode)) == opcode,
        spec_rd(encode_r(funct7, rs2, rs1, funct3, rd, opcode)) == rd,
        spec_rs1(encode_r(funct7, rs2, rs1, funct3, rd, opcode)) == rs1,
        spec_rs2(encode_r(funct7, rs2, rs1, funct3, rd, opcode)) == rs2,
        spec_funct3(encode_r(funct7, rs2, rs1, funct3, rd, opcode)) == funct3,
        spec_funct7(encode_r(funct7, rs2, rs1, funct3, rd, opcode)) == funct7,
{
}

/// Decoding an I-format word gives back its fields and its sign-extended immediate.
pub proof fn lemma_i_format_round_trip(imm: i32, rs1: u32, funct3: u32, rd: u32, opcode: u32)
    by (bit_vector)
    requires
        -2048 <= imm < 2048,
        rs1 < 32,
        funct3 < 8,
        rd < 32,
        opcode < 128,
    ensures
        spec_opcode(encode_i(imm, rs1, funct3, rd, opcode)) == opcode,
        spec_rd(encode_i(imm, rs1, funct3, rd, opcode)) == rd,
        spec_rs1(encode_i(imm, rs1, funct3, rd, opcode)) == rs1,
        spec_funct3(encode_i(imm, rs1, funct3, rd, opcode)) == funct3,
        spec_imm_i(encode_i(imm, rs1, funct3, rd, opcode)) == imm,
{
}

/// Decoding an S-format word gives back its fields and its sign-extended immediate.
pub proof fn lemma_s_format_round_trip(imm: i32, rs2: u32, rs1: u32, funct3: u32, opcode: u32)
    by (bit_vector)
    requires
        -2048 <= imm < 2048,
        rs2 < 32,
        rs1 < 32,
        funct3 < 8,
        opcode < 128,
    ensures
        spec_opcode(encode_s(imm, rs2, rs1, funct3, opcode)) == opcode,
        spec_rs1(encode_s(imm, rs2, rs1, funct3, opcode)) == rs1,
        spec_rs2(encode_s(imm, rs2, rs1, funct3, opcode)) == rs2,
        spec_funct3(encode_s(imm, rs2, rs1, funct3, opcode)) == funct3,
        spec_imm_s(encode_s(imm, rs2, rs1, funct3, opcode)) == imm,
{
}

/// Decoding a B-format word gives back its fields and its sign-extended offset.
pub proof fn lemma_b_format_round_trip(imm: i32, rs2: u32, rs1: u32, funct3: u32, opcode: u32)
    by (bit_vector)
    requires
        -4096 <= imm < 4096,
        imm % 2 == 0,
        rs2 < 32,
        rs1 < 32,
        funct3 < 8,
        opcode < 128,
    ensures
        spec_opcode(encode_b(imm, rs2, rs1, funct3, opcode)) == opcode,
        spec_rs1(encode_b(imm, rs2, rs1, funct3, opcode)) == rs1,
        spec_rs2(encode_b(imm, rs2, rs1, funct3, opcode)) == rs2,
        spec_funct3(encode_b(imm, rs2, rs1, funct3, opcode)) == funct3,
        spec_imm_b(encode_b(imm, rs2, rs1, funct3, opcode)) == imm,
{
}

/// Decoding a U-format word gives back its fields and its immediate.
pub proof fn lemma_u_format_round_trip(imm: i32, rd: u32, opcode: u32)
    by (bit_vector)
    requires
        imm % 4096 == 0,
        rd < 32,
        opcode < 128,
    ensures
        spec_opcode(encode_u(imm, rd, opcode)) == opcode,
        spec_rd(encode_u(imm, rd, opcode)) == rd,
        spec_imm_u(encode_u(imm, rd, opcode)) == imm,
{
}

/// Decoding a J-format word gives back its fields and its sign-extended offset.
pub proof fn lemma_j_format_round_trip(imm: i32, rd: u32, opcode: u32)
    by (bit_vector)
    requires
        -0x100000 <= imm < 0x100000,
        imm % 2 == 0,
        rd < 32,
        opcode < 128,
    ensures
        spec_opcode(encode_j(imm, rd, opcode)) == opcode,
        spec_rd(encode_j(imm, rd, opcode)) == rd,
        spec_imm_j(encode_j(imm, rd, opcode)) == imm,
{
}

/// The component parts of an instruction of any supported length.
#[derive(Clone, Copy, Debug, PartialEq, Eq, Structural, Hash)]
pub enum InstructionParts {
    /// This instruction is of the standard 32-bit length.
    Word(InstructionWordParts),
}

impl InstructionParts {
    /// Determine the length of `raw` and extract its component parts.
    ///
    /// Only 32-bit instructions are supported: every other length is an illegal instruction.
    pub fn new(raw: u32) -> (r: Result<Self, ProcessorException>)
        ensures
            spec_instruction_length(raw) == InstructionLength::Word ==> r == Ok::<
                InstructionParts,
                ProcessorException,
            >(InstructionParts::Word(word_parts(raw))),
            spec_instruction_length(raw) != InstructionLength::Word ==> r == Err::<
                InstructionParts,
                ProcessorException,
            >(ProcessorException::IllegalInstruction),
            r matches Ok(p) ==> p.spec_word().wf(),
    {
        match Self::identify_instruction_length(raw) {
            InstructionLength::Word => Ok(InstructionParts::Word(InstructionWordParts::new(raw))),
            _ => Err(ProcessorException::IllegalInstruction),
        }
    }

    /// Determine the length of `raw` from its low bits.
    ///
    /// This follows the base instruction-length encoding of the RISC-V specification.
    pub fn identify_instruction_length(raw: u32) -> (r: InstructionLength)
        ensures
            r == spec_instruction_length(raw),
    {
        if raw & 0b11 != 0b11 {
            InstructionLength::HalfWord
        } else if raw & 0b11100 != 0b11100 {
            InstructionLength::Word
        } else if raw & 0b100000 == 0 {
            InstructionLength::WordAndHalf
        } else if raw & 0b1000000 == 0 {
            InstructionLength::DoubleWord
        } else {
            let len = (raw & 0b0111000000000000) >> 12;
            if len == 0b111 {
                InstructionLength::Reserved
            } else {
                assert(len < 7) by (bit_vector)
                    requires
                        len == (raw & 0b0111000000000000) >> 12u32,
                        len != 7,
                ;
                InstructionLength::Custom((80 + 16 * len) as u8)
            }
        }
    }

    /// The opcode of this instruction.
    pub fn opcode(&self) -> (r: u8)
        ensures
            r == self.spec_word().opcode,
    {
        match self {
            InstructionParts::Word(parts) => parts.opcode,
        }
    }

    /// The parts of the underlying 32-bit instruction.
    pub open spec fn spec_word(&self) -> InstructionWordParts {
        match self {
            InstructionParts::Word(parts) => *parts,
        }
    }

    /// A reference to the underlying [`InstructionWordParts`].
    ///
    /// Every supported instruction is of the standard 32-bit length, so this always succeeds.
    pub fn word(&self) -> (r: Result<&InstructionWordParts, ProcessorException>)
        ensures
            r matches Ok(p) && *p == self.spec_word(),
    {
        match self {
            InstructionParts::Word(parts) => Ok(parts),
        }
    }

    /// Convert to the underlying [`InstructionWordParts`].
    ///
    /// Every supported instruction is of the standard 32-bit length, so this always succeeds.
    pub fn into_word(self) -> (r: Result<InstructionWordParts, ProcessorException>)
        ensures
            r == Ok::<InstructionWordParts, ProcessorException>(self.spec_word()),
    {
        match self {
            InstructionParts::Word(parts) => Ok(parts),
        }
    }
}

} // verus!
