//! The RV32I opcode handlers: one decoder for each of the eleven base opcodes.

use crate::error::ProcessorException;
use crate::instruction::Instruction;
use crate::parts::{InstructionParts, InstructionWordParts};
use crate::rv32i::branch::BranchInstruction;
use crate::rv32i::fence::FenceInstruction;
use crate::rv32i::jump::{JalInstruction, JalrInstruction};
use crate::rv32i::memory::{LoadInstruction, StoreInstruction};
use crate::rv32i::op::{
    AndInstruction, ArithmeticInstruction, OrInstruction, SllInstruction, SltInstruction,
    SltUInstruction, SrInstruction, XorInstruction,
};
use crate::rv32i::op_imm::{
    AddIInstruction, AndIInstruction, OrIInstruction, SllIInstruction, SltIInstruction,
    SltIUInstruction, SrIInstruction, XorIInstruction,
};
use crate::rv32i::system::{EBreakInstruction, ECallInstruction};
use crate::rv32i::upper::{AUIPCInstruction, LuiInstruction};
use vstd::prelude::*;

verus! {

/// LUI opcode handler.
#[derive(Clone, Copy, Debug, PartialEq, Eq, Structural, Hash)]
pub struct LuiHandler;

impl LuiHandler {
    /// What the handler decodes the parts `w` to.
    pub open spec fn spec_decode(w: InstructionWordParts) -> Result<Instruction, ProcessorException> {
        Ok(Instruction::Lui(LuiInstruction { imm: w.imm_u, dest: w.rd }))
    }

    /// Decode a LUI instruction.
    pub fn decode(&self, instruction: InstructionParts, _pc: u32) -> (r: Result<Instruction, ProcessorException>)
        requires
            instruction.spec_word().wf(),
        ensures
            r == Self::spec_decode(instruction.spec_word()),
            r matches Ok(i) ==> i.wf(),
    {
        let instruction = instruction.into_word()?;
        Ok(Instruction::Lui(LuiInstruction::new(&instruction)))
    }
}

/// AUIPC opcode handler.
#[derive(Clone, Copy, Debug, PartialEq, Eq, Structural, Hash)]
pub struct AUIPCHandler;

impl AUIPCHandler {
    /// What the handler decodes the parts `w`, found at address `pc`, to.
    pub open spec fn spec_decode(w: InstructionWordParts, pc: u32) -> Result<Instruction, ProcessorException> {
        Ok(Instruction::Auipc(AUIPCInstruction { pc, imm: w.imm_u, dest: w.rd }))
    }

    /// Decode an AUIPC instruction found at address `pc`.
    pub fn decode(&self, instruction: InstructionParts, pc: u32) -> (r: Result<Instruction, ProcessorException>)
        requires
            instruction.spec_word().wf(),
        ensures
            r == Self::spec_decode(instruction.spec_word(), pc),
            r matches Ok(i) ==> i.wf(),
    {
        let instruction = instruction.into_word()?;
        Ok(Instruction::Auipc(AUIPCInstruction::new(&instruction, pc)))
    }
}

/// JAL opcode handler.
#[derive(Clone, Copy, Debug, PartialEq, Eq, Structural, Hash)]
pub struct JalHandler;

impl JalHandler {
    /// What the handler decodes the parts `w`, found at address `pc`, to.
    pub open spec fn spec_decode(w: InstructionWordParts, pc: u32) -> Result<Instruction, ProcessorException> {
        Ok(Instruction::Jal(JalInstruction { pc, offset: w.imm_j, dest: w.rd }))
    }

    /// Decode a JAL instruction found at address `pc`.
    pub fn decode(&self, instruction: InstructionParts, pc: u32) -> (r: Result<Instruction, ProcessorException>)
        requires
            instruction.spec_word().wf(),
        ensures
            r == Self::spec_decode(instruction.spec_word(), pc),
            r matches Ok(i) ==> i.wf(),
    {
        let instruction = instruction.into_word()?;
        Ok(Instruction::Jal(JalInstruction::new(&instruction, pc)))
    }
}

/// JALR opcode handler.
#[derive(Clone, Copy, Debug, PartialEq, Eq, Structural, Hash)]
pub struct JalrHandler;

impl JalrHandler {
    /// What the handler decodes the parts `w`, found at address `pc`, to.
    pub open spec fn spec_decode(w: InstructionWordParts, pc: u32) -> Result<Instruction, ProcessorException> {
        Ok(Instruction::Jalr(JalrInstruction { pc, base: w.rs1, offset: w.imm_i, dest: w.rd }))
    }

    /// Decode a JALR instruction found at address `pc`.
    pub fn decode(&self, instruction: InstructionParts, pc: u32) -> (r: Result<Instruction, ProcessorException>)
        requires
            instruction.spec_word().wf(),
        ensures
            r == Self::spec_decode(instruction.spec_word(), pc),
            r matches Ok(i) ==> i.wf(),
    {
        let instruction = instruction.into_word()?;
        Ok(Instruction::Jalr(JalrInstruction::new(&instruction, pc)))
    }
}

/// BRANCH opcode handler.
#[derive(Clone, Copy, Debug, PartialEq, Eq, Structural, Hash)]
pub struct BranchHandler;

impl BranchHandler {
    /// What the handler decodes the parts `w`, found at address `pc`, to.
    pub open spec fn spec_decode(w: InstructionWordParts, pc: u32) -> Result<Instruction, ProcessorException> {
        match BranchInstruction::spec_new(w, pc) {
            Ok(i) => Ok(Instruction::Branch(i)),
            Err(e) => Err(e),
        }
    }

    /// Decode a BRANCH instruction found at address `pc`.
    pub fn decode(&self, instruction: InstructionParts, pc: u32) -> (r: Result<Instruction, ProcessorException>)
        requires
            instruction.spec_word().wf(),
        ensures
            r == Self::spec_decode(instruction.spec_word(), pc),
            r matches Ok(i) ==> i.wf(),
    {
        let instruction = instruction.into_word()?;
        Ok(Instruction::Branch(BranchInstruction::new(&instruction, pc)?))
    }
}

/// LOAD opcode handler.
#[derive(Clone, Copy, Debug, PartialEq, Eq, Structural, Hash)]
pub struct LoadHandler;

impl LoadHandler {
    /// What the handler decodes the parts `w` to.
    pub open spec fn spec_decode(w: InstructionWordParts) -> Result<Instruction, ProcessorException> {
        match LoadInstruction::spec_new(w) {
            Ok(i) => Ok(Instruction::Load(i)),
            Err(e) => Err(e),
        }
    }

    /// Decode a LOAD instruction.
    pub fn decode(&self, instruction: InstructionParts, _pc: u32) -> (r: Result<Instruction, ProcessorException>)
        requires
            instruction.spec_word().wf(),
        ensures
            r == Self::spec_decode(instruction.spec_word()),
            r matches Ok(i) ==> i.wf(),
    {
        let instruction = instruction.into_word()?;
        Ok(Instruction::Load(LoadInstruction::new(&instruction)?))
    }
}

/// STORE opcode handler.
#[derive(Clone, Copy, Debug, PartialEq, Eq, Structural, Hash)]
pub struct StoreHandler;

impl StoreHandler {
    /// What the handler decodes the parts `w` to.
    pub open spec fn spec_decode(w: InstructionWordParts) -> Result<Instruction, ProcessorException> {
        match StoreInstruction::spec_new(w) {
            Ok(i) => Ok(Instruction::Store(i)),
            Err(e) => Err(e),
        }
    }

    /// Decode a STORE instruction.
    pub fn decode(&self, instruction: InstructionParts, _pc: u32) -> (r: Result<Instruction, ProcessorException>)
        requires
            instruction.spec_word().wf(),
        ensures
            r == Self::spec_decode(instruction.spec_word()),
            r matches Ok(i) ==> i.wf(),
    {
        let instruction = instruction.into_word()?;
        Ok(Instruction::Store(StoreInstruction::new(&instruction)?))
    }
}

/// FENCE opcode handler.
#[derive(Clone, Copy, Debug, PartialEq, Eq, Structural, Hash)]
pub struct FenceHandler;

impl FenceHandler {
    /// What the handler decodes the parts `w` to.
    pub open spec fn spec_decode(w: InstructionWordParts) -> Result<Instruction, ProcessorException> {
        match FenceInstruction::spec_new(w) {
            Ok(i) => Ok(Instruction::Fence(i)),
            Err(e) => Err(e),
        }
    }

    /// Decode a FENCE instruction.
    pub fn decode(&self, instruction: InstructionParts, _pc: u32) -> (r: Result<Instruction, ProcessorException>)
        requires
            instruction.spec_word().wf(),
        ensures
            r == Self::spec_decode(instruction.spec_word()),
            r matches Ok(i) ==> i.wf(),
    {
        let instruction = instruction.into_word()?;
        Ok(Instruction::Fence(FenceInstruction::new(&instruction)?))
    }
}

/// SYSTEM opcode handler: ECALL and EBREAK.
#[derive(Clone, Copy, Debug, PartialEq, Eq, Structural, Hash)]
pub struct SystemHandler;

impl SystemHandler {
    /// What the handler decodes the parts `w` to: the I-format immediate selects ECALL (0) or
    /// EBREAK (1).
    pub open spec fn spec_decode(w: InstructionWordParts) -> Result<Instruction, ProcessorException> {
        if w.imm_i == 0 {
            match ECallInstruction::spec_new(w) {
                Ok(i) => Ok(Instruction::ECall(i)),
                Err(e) => Err(e),
            }
        } else if w.imm_i == 1 {
            match EBreakInstruction::spec_new(w) {
                Ok(i) => Ok(Instruction::EBreak(i)),
                Err(e) => Err(e),
            }
        } else {
            Err(ProcessorException::IllegalInstruction)
        }
    }

    /// Decode a SYSTEM instruction.
    pub fn decode(&self, instruction: InstructionParts, _pc: u32) -> (r: Result<Instruction, ProcessorException>)
        requires
            instruction.spec_word().wf(),
        ensures
            r == Self::spec_decode(instruction.spec_word()),
            r matches Ok(i) ==> i.wf(),
    {
        let instruction = instruction.into_word()?;
        match instruction.imm_i {
            0 => Ok(Instruction::ECall(ECallInstruction::new(&instruction)?)),
            1 => Ok(Instruction::EBreak(EBreakInstruction::new(&instruction)?)),
            _ => Err(ProcessorException::IllegalInstruction),
        }
    }
}

/// OP-IMM opcode handler.
#[derive(Clone, Copy, Debug, PartialEq, Eq, Structural, Hash)]
pub struct OpImmHandler;

impl OpImmHandler {
    /// What the handler decodes the parts `w` to: `funct3` selects the operation.
    pub open spec fn spec_decode(w: InstructionWordParts) -> Result<Instruction, ProcessorException> {
        if w.funct3 == 0b000 {
            Ok(Instruction::AddI(AddIInstruction { src: w.rs1, imm: w.imm_i, dest: w.rd }))
        } else if w.funct3 == 0b001 {
            match SllIInstruction::spec_new(w) {
                Ok(i) => Ok(Instruction::SllI(i)),
                Err(e) => Err(e),
            }
        } else if w.funct3 == 0b010 {
            Ok(Instruction::SltI(SltIInstruction { src: w.rs1, imm: w.imm_i, dest: w.rd }))
        } else if w.funct3 == 0b011 {
            Ok(Instruction::SltIU(SltIUInstruction { src: w.rs1, imm: w.imm_i, dest: w.rd }))
        } else if w.funct3 == 0b100 {
            Ok(Instruction::XorI(XorIInstruction { src: w.rs1, imm: w.imm_i, dest: w.rd }))
        } else if w.funct3 == 0b101 {
            match SrIInstruction::spec_new(w) {
                Ok(i) => Ok(Instruction::SrI(i)),
                Err(e) => Err(e),
            }
        } else if w.funct3 == 0b110 {
            Ok(Instruction::OrI(OrIInstruction { src: w.rs1, imm: w.imm_i, dest: w.rd }))
        } else {
            Ok(Instruction::AndI(AndIInstruction { src: w.rs1, imm: w.imm_i, dest: w.rd }))
        }
    }

    /// Decode an OP-IMM instruction.
    pub fn decode(&self, instruction: InstructionParts, _pc: u32) -> (r: Result<Instruction, ProcessorException>)
        requires
            instruction.spec_word().wf(),
        ensures
            r == Self::spec_decode(instruction.spec_word()),
            r matches Ok(i) ==> i.wf(),
    {
        let instruction = instruction.into_word()?;
        match instruction.funct3 {
            0b000 => Ok(Instruction::AddI(AddIInstruction::new(&instruction))),
            0b001 => Ok(Instruction::SllI(SllIInstruction::new(&instruction)?)),
            0b010 => Ok(Instruction::SltI(SltIInstruction::new(&instruction))),
            0b011 => Ok(Instruction::SltIU(SltIUInstruction::new(&instruction))),
            0b100 => Ok(Instruction::XorI(XorIInstruction::new(&instruction))),
            0b101 => Ok(Instruction::SrI(SrIInstruction::new(&instruction)?)),
            0b110 => Ok(Instruction::OrI(OrIInstruction::new(&instruction))),
            _ => Ok(Instruction::AndI(AndIInstruction::new(&instruction))),
        }
    }
}

/// OP opcode handler.
#[derive(Clone, Copy, Debug, PartialEq, Eq, Structural, Hash)]
pub struct OpHandler;

impl OpHandler {
    /// What the handler decodes the parts `w` to: `funct3` selects the operation. ADD/SUB and
    /// SRL/SRA are told apart by `funct7`; every other operation requires `funct7` to be zero.
    pub open spec fn spec_decode(w: InstructionWordParts) -> Result<Instruction, ProcessorException> {
        if w.funct3 == 0b000 {
            match ArithmeticInstruction::spec_new(w) {
                Ok(i) => Ok(Instruction::Arithmetic(i)),
                Err(e) => Err(e),
            }
        } else if w.funct3 == 0b101 {
            match SrInstruction::spec_new(w) {
                Ok(i) => Ok(Instruction::Sr(i)),
                Err(e) => Err(e),
            }
        } else if w.funct7 != 0 {
            Err(ProcessorException::IllegalInstruction)
        } else if w.funct3 == 0b001 {
            Ok(Instruction::Sll(SllInstruction { src1: w.rs1, src2: w.rs2, dest: w.rd }))
        } else if w.funct3 == 0b010 {
            Ok(Instruction::Slt(SltInstruction { src1: w.rs1, src2: w.rs2, dest: w.rd }))
        } else if w.funct3 == 0b011 {
            Ok(Instruction::SltU(SltUInstruction { src1: w.rs1, src2: w.rs2, dest: w.rd }))
        } else if w.funct3 == 0b100 {
            Ok(Instruction::Xor(XorInstruction { src1: w.rs1, src2: w.rs2, dest: w.rd }))
        } else if w.funct3 == 0b110 {
            Ok(Instruction::Or(OrInstruction { src1: w.rs1, src2: w.rs2, dest: w.rd }))
        } else {
            Ok(Instruction::And(AndInstruction { src1: w.rs1, src2: w.rs2, dest: w.rd }))
        }
    }

    /// Decode an OP instruction.
    pub fn decode(&self, instruction: InstructionParts, _pc: u32) -> (r: Result<Instruction, ProcessorException>)
        requires
            instruction.spec_word().wf(),
        ensures
            r == Self::spec_decode(instruction.spec_word()),
            r matches Ok(i) ==> i.wf(),
    {
        let instruction = instruction.into_word()?;
        if instruction.funct3 != 0b000 && instruction.funct3 != 0b101 && instruction.funct7 != 0 {
            return Err(ProcessorException::IllegalInstruction);
        }
        match instruction.funct3 {
            0b000 => Ok(Instruction::Arithmetic(ArithmeticInstruction::new(&instruction)?)),
            0b001 => Ok(Instruction::Sll(SllInstruction::new(&instruction))),
            0b010 => Ok(Instruction::Slt(SltInstruction::new(&instruction))),
            0b011 => Ok(Instruction::SltU(SltUInstruction::new(&instruction))),
            0b100 => Ok(Instruction::Xor(XorInstruction::new(&instruction))),
            0b101 => Ok(Instruction::Sr(SrInstruction::new(&instruction)?)),
            0b110 => Ok(Instruction::Or(OrInstruction::new(&instruction))),
            _ => Ok(Instruction::And(AndInstruction::new(&instruction))),
        }
    }
}

} // verus!
