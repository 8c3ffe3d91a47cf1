//! LUI and AUIPC: instructions that place a 20-bit immediate in the upper bits of a register.

use crate::error::ProcessorException;
use crate::instruction::{no_effect, InstructionResult};
use crate::parts::InstructionWordParts;
use crate::register::{written, RegisterFile};
use crate::text::{hex_imm, push_hex_imm, push_reg, reg_name};
use vstd::prelude::*;

verus! {

/// LUI instruction: rd receives the U-format immediate, whose low twelve bits are zero.
#[derive(Clone, Copy, Debug, PartialEq, Eq, Structural, Hash)]
pub struct LuiInstruction {
    /// The immediate value.
    pub imm: i32,
    /// Destination register.
    pub dest: u8,
}

impl LuiInstruction {
    /// The destination register is in range.
    pub open spec fn wf(&self) -> bool {
        self.dest < 32
    }

    /// The register values after execution, and the outcome.
    pub open spec fn spec_execute(&self, regs: Seq<i32>) -> (Seq<i32>, Result<InstructionResult, ProcessorException>) {
        (written(regs, self.dest as int, self.imm), Ok(no_effect()))
    }

    /// The assembly-like text of the instruction.
    pub open spec fn spec_format(&self) -> Seq<char> {
        "lui "@ + reg_name(self.dest) + ", "@ + hex_imm(self.imm)
    }

    /// Create the instruction from the parts of its word.
    pub fn new(instruction: &InstructionWordParts) -> (r: Self)
        ensures
            r == (LuiInstruction { imm: instruction.imm_u, dest: instruction.rd }),
    {
        LuiInstruction { imm: instruction.imm_u, dest: instruction.rd }
    }

    /// Execute the instruction against `registers`.
    pub fn execute(&self, registers: &mut RegisterFile, _mem: i32) -> (r: Result<InstructionResult, ProcessorException>)
        requires
            self.wf(),
            old(registers).wf(),
        ensures
            final(registers).wf(),
            (final(registers)@, r) == self.spec_execute(old(registers)@),
    {
        registers.store(self.dest, self.imm)?;
        Ok(InstructionResult::default())
    }

    /// Render the instruction as assembly-like text.
    pub fn format(&self) -> (r: String)
        requires
            self.wf(),
        ensures
            r@ == self.spec_format(),
    {
        let mut s = String::from_str("lui ");
        push_reg(&mut s, self.dest);
        s.append(", ");
        push_hex_imm(&mut s, self.imm);
        s
    }
}

/// AUIPC instruction: rd receives the address of the instruction plus the U-format immediate,
/// wrapping.
#[derive(Clone, Copy, Debug, PartialEq, Eq, Structural, Hash)]
pub struct AUIPCInstruction {
    /// Address of the instruction.
    pub pc: u32,
    /// The immediate value.
    pub imm: i32,
    /// Destination register.
    pub dest: u8,
}

impl AUIPCInstruction {
    /// The destination register is in range.
    pub open spec fn wf(&self) -> bool {
        self.dest < 32
    }

    /// The register values after execution, and the outcome.
    pub open spec fn spec_execute(&self, regs: Seq<i32>) -> (Seq<i32>, Result<InstructionResult, ProcessorException>) {
        (written(regs, self.dest as int, (self.pc as i32).wrapping_add(self.imm)), Ok(no_effect()))
    }

    /// The assembly-like text of the instruction.
    pub open spec fn spec_format(&self) -> Seq<char> {
        "auipc "@ + reg_name(self.dest) + ", "@ + hex_imm(self.imm)
    }

    /// Create the instruction from the parts of its word, found at address `pc`.
    pub fn new(instruction: &InstructionWordParts, pc: u32) -> (r: Self)
        ensures
            r == (AUIPCInstruction { pc, imm: instruction.imm_u, dest: instruction.rd }),
    {
        AUIPCInstruction { pc, imm: instruction.imm_u, dest: instruction.rd }
    }

    /// Execute the instruction against `registers`.
    pub fn execute(&self, registers: &mut RegisterFile, _mem: i32) -> (r: Result<InstructionResult, ProcessorException>)
        requires
            self.wf(),
            old(registers).wf(),
        ensures
            final(registers).wf(),
            (final(registers)@, r) == self.spec_execute(old(registers)@),
    {
        let result = (self.pc as i32).wrapping_add(self.imm);
        registers.store(self.dest, result)?;
        Ok(InstructionResult::default())
    }

    /// Render the instruction as assembly-like text.
    pub fn format(&self) -> (r: String)
        requires
            self.wf(),
        ensures
            r@ == self.spec_format(),
    {
        let mut s = String::from_str("auipc ");
        push_reg(&mut s, self.dest);
        s.append(", ");
        push_hex_imm(&mut s, self.imm);
        s
    }
}

} // verus!
