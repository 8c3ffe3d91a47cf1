//! SYSTEM opcode instructions: ECALL and EBREAK.
//!
//! No trap handler exists, so both surface as exceptions that stop execution.

use crate::error::ProcessorException;
use crate::instruction::InstructionResult;
use crate::parts::InstructionWordParts;
use crate::register::RegisterFile;
use vstd::prelude::*;

verus! {

/// The SYSTEM encoding rules beyond the immediate: rs1, funct3 and rd must all be zero.
pub open spec fn system_fields_clear(instruction: InstructionWordParts) -> bool {
    instruction.rs1 == 0 && instruction.funct3 == 0 && instruction.rd == 0
}

/// An environment call (ECALL): a service request to the execution environment.
#[derive(Clone, Copy, Debug, PartialEq, Eq, Structural, Hash)]
pub struct ECallInstruction;

impl ECallInstruction {
    /// The instruction that the parts of a word decode to, or the reason they are illegal.
    pub open spec fn spec_new(instruction: InstructionWordParts) -> Result<Self, ProcessorException> {
        if system_fields_clear(instruction) {
            Ok::<Self, ProcessorException>(ECallInstruction)
        } else {
            Err(ProcessorException::IllegalInstruction)
        }
    }

    /// Create the instruction from the parts of its word.
    pub fn new(instruction: &InstructionWordParts) -> (r: Result<Self, ProcessorException>)
        ensures
            r == Self::spec_new(*instruction),
    {
        if instruction.rs1 != 0 || instruction.funct3 != 0 || instruction.rd != 0 {
            return Err(ProcessorException::IllegalInstruction);
        }
        Ok(ECallInstruction)
    }

    /// Execute the instruction: it always raises `EnvironmentCall`.
    pub fn execute(&self, _registers: &mut RegisterFile, _mem: i32) -> (r: Result<InstructionResult, ProcessorException>)
        ensures
            r == Err::<InstructionResult, ProcessorException>(ProcessorException::EnvironmentCall),
            *final(_registers) == *old(_registers),
    {
        Err(ProcessorException::EnvironmentCall)
    }

    /// Render the instruction as assembly-like text.
    pub fn format(&self) -> (r: String)
        ensures
            r@ == "ecall"@,
    {
        String::from_str("ecall")
    }
}

/// An environment breakpoint (EBREAK): a return of control to a debugging environment.
#[derive(Clone, Copy, Debug, PartialEq, Eq, Structural, Hash)]
pub struct EBreakInstruction;

impl EBreakInstruction {
    /// The instruction that the parts of a word decode to, or the reason they are illegal.
    pub open spec fn spec_new(instruction: InstructionWordParts) -> Result<Self, ProcessorException> {
        if system_fields_clear(instruction) {
            Ok::<Self, ProcessorException>(EBreakInstruction)
        } else {
            Err(ProcessorException::IllegalInstruction)
        }
    }

    /// Create the instruction from the parts of its word.
    pub fn new(instruction: &InstructionWordParts) -> (r: Result<Self, ProcessorException>)
        ensures
            r == Self::spec_new(*instruction),
    {
        if instruction.rs1 != 0 || instruction.funct3 != 0 || instruction.rd != 0 {
            return Err(ProcessorException::IllegalInstruction);
        }
        Ok(EBreakInstruction)
    }

    /// Execute the instruction: it always raises `EnvironmentBreak`.
    pub fn execute(&self, _registers: &mut RegisterFile, _mem: i32) -> (r: Result<InstructionResult, ProcessorException>)
        ensures
            r == Err::<InstructionResult, ProcessorException>(ProcessorException::EnvironmentBreak),
            *final(_registers) == *old(_registers),
    {
        Err(ProcessorException::EnvironmentBreak)
    }

    /// Render the instruction as assembly-like text.
    pub fn format(&self) -> (r: String)
        ensures
            r@ == "ebreak"@,
    {
        String::from_str("ebreak")
    }
}

} // verus!
