//! JAL and JALR: unconditional jumps that save the return address.

use crate::error::ProcessorException;
use crate::instruction::InstructionResult;
use crate::parts::InstructionWordParts;
use crate::register::{written, RegisterFile};
use crate::text::{hex_imm, push_hex_imm, push_reg, reg_name};
use vstd::prelude::*;

verus! {

/// The outcome of jumping to `target` from the instruction at `pc`, saving the return address
/// in register `dest`: a target that is not a multiple of four is misaligned.
pub open spec fn jump_and_link(regs: Seq<i32>, pc: u32, dest: u8, target: u32) -> (
    Seq<i32>,
    Result<InstructionResult, ProcessorException>,
) {
    if target % 4 != 0 {
        (regs, Err(ProcessorException::InstructionAddressMisaligned))
    } else {
        (
            written(regs, dest as int, pc.wrapping_add(4) as i32),
            Ok(InstructionResult { jump: Some(target), store: None }),
        )
    }
}

/// JAL instruction: jump to the instruction address plus the J-format offset.
#[derive(Clone, Copy, Debug, PartialEq, Eq, Structural, Hash)]
pub struct JalInstruction {
    /// Address of the instruction.
    pub pc: u32,
    /// Offset of the target from the instruction.
    pub offset: i32,
    /// Register that receives the return address.
    pub dest: u8,
}

impl JalInstruction {
    /// The destination register is in range.
    pub open spec fn wf(&self) -> bool {
        self.dest < 32
    }

    /// The address that the instruction jumps to.
    pub open spec fn target(&self) -> u32 {
        self.pc.wrapping_add(self.offset as u32)
    }

    /// The register values after execution, and the outcome.
    pub open spec fn spec_execute(&self, regs: Seq<i32>) -> (Seq<i32>, Result<InstructionResult, ProcessorException>) {
        jump_and_link(regs, self.pc, self.dest, self.target())
    }

    /// The assembly-like text of the instruction.
    pub open spec fn spec_format(&self) -> Seq<char> {
        "jal "@ + reg_name(self.dest) + ", "@ + hex_imm(self.offset)
    }

    /// Create the instruction from the parts of its word, found at address `pc`.
    pub fn new(instruction: &InstructionWordParts, pc: u32) -> (r: Self)
        ensures
            r == (JalInstruction { pc, offset: instruction.imm_j, dest: instruction.rd }),
    {
        JalInstruction { pc, offset: instruction.imm_j, dest: instruction.rd }
    }

    /// Execute the instruction against `registers`.
    pub fn execute(&self, registers: &mut RegisterFile, _mem: i32) -> (r: Result<InstructionResult, ProcessorException>)
        requires
            self.wf(),
            old(registers).wf(),
        ensures
            final(registers).wf(),
            (final(registers)@, r) == self.spec_execute(old(registers)@),
    {
        let jump_addr = self.pc.wrapping_add(self.offset as u32);
        if jump_addr % 4 != 0 {
            return Err(ProcessorException::InstructionAddressMisaligned);
        }
        let ret_addr = self.pc.wrapping_add(4);
        registers.store(self.dest, ret_addr as i32)?;
        Ok(InstructionResult::set_jump(jump_addr))
    }

    /// Render the instruction as assembly-like text.
    pub fn format(&self) -> (r: String)
        requires
            self.wf(),
        ensures
            r@ == self.spec_format(),
    {
        let mut s = String::from_str("jal ");
        push_reg(&mut s, self.dest);
        s.append(", ");
        push_hex_imm(&mut s, self.offset);
        s
    }
}

/// JALR instruction: jump to a base register plus the I-format offset, with the low bit cleared.
#[derive(Clone, Copy, Debug, PartialEq, Eq, Structural, Hash)]
pub struct JalrInstruction {
    /// Address of the instruction.
    pub pc: u32,
    /// Base register.
    pub base: u8,
    /// Offset added to the base register.
    pub offset: i32,
    /// Register that receives the return address.
    pub dest: u8,
}

impl JalrInstruction {
    /// The register numbers are in range.
    pub open spec fn wf(&self) -> bool {
        self.base < 32 && self.dest < 32
    }

    /// The address that the instruction jumps to, given the value of the base register.
    pub open spec fn target(&self, base: i32) -> u32 {
        (base as u32).wrapping_add(self.offset as u32) & 0xfffffffe
    }

    /// The register values after execution, and the outcome.
    pub open spec fn spec_execute(&self, regs: Seq<i32>) -> (Seq<i32>, Result<InstructionResult, ProcessorException>) {
        jump_and_link(regs, self.pc, self.dest, self.target(regs[self.base as int]))
    }

    /// The assembly-like text of the instruction: `jalr xD, 0xOFFSET(xB)`.
    pub open spec fn spec_format(&self) -> Seq<char> {
        "jalr "@ + reg_name(self.dest) + ", "@ + hex_imm(self.offset) + "("@ + reg_name(self.base) + ")"@
    }

    /// Create the instruction from the parts of its word, found at address `pc`.
    pub fn new(instruction: &InstructionWordParts, pc: u32) -> (r: Self)
        ensures
            r == (JalrInstruction { pc, base: instruction.rs1, offset: instruction.imm_i, dest: instruction.rd }),
    {
        JalrInstruction { pc, base: instruction.rs1, offset: instruction.imm_i, dest: instruction.rd }
    }

    /// Execute the instruction against `registers`.
    pub fn execute(&self, registers: &mut RegisterFile, _mem: i32) -> (r: Result<InstructionResult, ProcessorException>)
        requires
            self.wf(),
            old(registers).wf(),
        ensures
            final(registers).wf(),
            (final(registers)@, r) == self.spec_execute(old(registers)@),
    {
        let base = registers.load(self.base)? as u32;
        let jump_addr = base.wrapping_add(self.offset as u32) & 0xfffffffe;
        if jump_addr % 4 != 0 {
            return Err(ProcessorException::InstructionAddressMisaligned);
        }
        let ret_addr = self.pc.wrapping_add(4);
        registers.store(self.dest, ret_addr as i32)?;
        Ok(InstructionResult::set_jump(jump_addr))
    }

    /// Render the instruction as assembly-like text.
    pub fn format(&self) -> (r: String)
        requires
            self.wf(),
        ensures
            r@ == self.spec_format(),
    {
        let mut s = String::from_str("jalr ");
        push_reg(&mut s, self.dest);
        s.append(", ");
        push_hex_imm(&mut s, self.offset);
        s.append("(");
        push_reg(&mut s, self.base);
        s.append(")");
        s
    }
}

} // verus!
