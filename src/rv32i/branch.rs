//! BRANCH opcode instructions: conditional jumps that compare two registers.

use crate::error::ProcessorException;
use crate::instruction::{no_effect, InstructionResult};
use crate::parts::InstructionWordParts;
use crate::register::RegisterFile;
use crate::text::{hex_imm, push_hex_imm, push_reg, reg_name};
use vstd::prelude::*;

verus! {

/// Condition that decides whether a branch is taken.
#[derive(Clone, Copy, Debug, PartialEq, Eq, Structural, Hash)]
pub enum BranchCondition {
    /// The values are equal.
    Equal,
    /// The values are not equal.
    NotEqual,
    /// The first value is less than the second, as signed values.
    Less,
    /// The first value is greater than or equal to the second, as signed values.
    GreaterOrEqual,
    /// The first value is less than the second, as unsigned values.
    LessUnsigned,
    /// The first value is greater than or equal to the second, as unsigned values.
    GreaterOrEqualUnsigned,
}

/// The condition that a `funct3` field selects, if any.
pub open spec fn spec_condition(funct3: u8) -> Option<BranchCondition> {
    if funct3 == 0b000 {
        Some(BranchCondition::Equal)
    } else if funct3 == 0b001 {
        Some(BranchCondition::NotEqual)
    } else if funct3 == 0b100 {
        Some(BranchCondition::Less)
    } else if funct3 == 0b101 {
        Some(BranchCondition::GreaterOrEqual)
    } else if funct3 == 0b110 {
        Some(BranchCondition::LessUnsigned)
    } else if funct3 == 0b111 {
        Some(BranchCondition::GreaterOrEqualUnsigned)
    } else {
        None
    }
}

/// Whether the condition holds of the values `a` and `b`.
pub open spec fn condition_holds(c: BranchCondition, a: i32, b: i32) -> bool {
    match c {
        BranchCondition::Equal => a == b,
        BranchCondition::NotEqual => a != b,
        BranchCondition::Less => a < b,
        BranchCondition::GreaterOrEqual => a >= b,
        BranchCondition::LessUnsigned => (a as u32) < (b as u32),
        BranchCondition::GreaterOrEqualUnsigned => (a as u32) >= (b as u32),
    }
}

/// The mnemonic of the branch with condition `c`.
pub open spec fn condition_name(c: BranchCondition) -> Seq<char> {
    match c {
        BranchCondition::Equal => "beq"@,
        BranchCondition::NotEqual => "bne"@,
        BranchCondition::Less => "blt"@,
        BranchCondition::GreaterOrEqual => "bge"@,
        BranchCondition::LessUnsigned => "bltu"@,
        BranchCondition::GreaterOrEqualUnsigned => "bgeu"@,
    }
}

impl BranchCondition {
    /// The mnemonic of the branch with this condition.
    pub fn name(&self) -> (r: &'static str)
        ensures
            r@ == condition_name(*self),
    {
        match self {
            BranchCondition::Equal => "beq",
            BranchCondition::NotEqual => "bne",
            BranchCondition::Less => "blt",
            BranchCondition::GreaterOrEqual => "bge",
            BranchCondition::LessUnsigned => "bltu",
            BranchCondition::GreaterOrEqualUnsigned => "bgeu",
        }
    }
}

/// BRANCH instruction: jump to the instruction address plus the B-format offset when the
/// condition holds of the two source registers.
#[derive(Clone, Copy, Debug, PartialEq, Eq, Structural, Hash)]
pub struct BranchInstruction {
    /// Address of the instruction.
    pub pc: u32,
    /// First source register.
    pub src1: u8,
    /// Second source register.
    pub src2: u8,
    /// Offset of the target from the instruction.
    pub offset: i32,
    /// The condition under which the branch is taken.
    pub condition: BranchCondition,
}

impl BranchInstruction {
    /// The register numbers are in range.
    pub open spec fn wf(&self) -> bool {
        self.src1 < 32 && self.src2 < 32
    }

    /// The address that the branch jumps to when taken.
    pub open spec fn target(&self) -> u32 {
        self.pc.wrapping_add(self.offset as u32)
    }

    /// Whether the branch is taken with the register values `regs`.
    pub open spec fn taken(&self, regs: Seq<i32>) -> bool {
        condition_holds(self.condition, regs[self.src1 as int], regs[self.src2 as int])
    }

    /// The register values after execution, and the outcome. A taken branch to a target that is
    /// not a multiple of four is misaligned.
    pub open spec fn spec_execute(&self, regs: Seq<i32>) -> (Seq<i32>, Result<InstructionResult, ProcessorException>) {
        if !self.taken(regs) {
            (regs, Ok(no_effect()))
        } else if self.target() % 4 != 0 {
            (regs, Err(ProcessorException::InstructionAddressMisaligned))
        } else {
            (regs, Ok(InstructionResult { jump: Some(self.target()), store: None }))
        }
    }

    /// The assembly-like text of the instruction.
    pub open spec fn spec_format(&self) -> Seq<char> {
        condition_name(self.condition) + " "@ + reg_name(self.src1) + ", "@ + reg_name(self.src2) + ", "@ + hex_imm(self.offset)
    }

    /// The instruction that the parts of a word decode to, or the reason they are illegal.
    pub open spec fn spec_new(instruction: InstructionWordParts, pc: u32) -> Result<Self, ProcessorException> {
        (match spec_condition(instruction.funct3) {
            Some(condition) => Ok(BranchInstruction {
                pc,
                src1: instruction.rs1,
                src2: instruction.rs2,
                offset: instruction.imm_b,
                condition,
            }),
            None => Err(ProcessorException::IllegalInstruction),
        })
    }

    /// Create the instruction from the parts of its word, found at address `pc`; `funct3` must
    /// select one of the six conditions.
    pub fn new(instruction: &InstructionWordParts, pc: u32) -> (r: Result<Self, ProcessorException>)
        ensures
            r == Self::spec_new(*instruction, pc),
    {
        let condition = match instruction.funct3 {
            0b000 => BranchCondition::Equal,
            0b001 => BranchCondition::NotEqual,
            0b100 => BranchCondition::Less,
            0b101 => BranchCondition::GreaterOrEqual,
            0b110 => BranchCondition::LessUnsigned,
            0b111 => BranchCondition::GreaterOrEqualUnsigned,
            _ => return Err(ProcessorException::IllegalInstruction),
        };
        Ok(BranchInstruction {
            pc,
            src1: instruction.rs1,
            src2: instruction.rs2,
            offset: instruction.imm_b,
            condition,
        })
    }

    /// Execute the instruction against `registers`.
    pub fn execute(&self, registers: &mut RegisterFile, _mem: i32) -> (r: Result<InstructionResult, ProcessorException>)
        requires
            self.wf(),
            old(registers).wf(),
        ensures
            final(registers).wf(),
            (final(registers)@, r) == self.spec_execute(old(registers)@),
    {
        let src1 = registers.load(self.src1)?;
        let src2 = registers.load(self.src2)?;
        let jump_cond = match self.condition {
            BranchCondition::Equal => src1 == src2,
            BranchCondition::NotEqual => src1 != src2,
            BranchCondition::Less => src1 < src2,
            BranchCondition::GreaterOrEqual => src1 >= src2,
            BranchCondition::LessUnsigned => (src1 as u32) < (src2 as u32),
            BranchCondition::GreaterOrEqualUnsigned => (src1 as u32) >= (src2 as u32),
        };
        if !jump_cond {
            return Ok(InstructionResult::default());
        }
        let jump_addr = self.pc.wrapping_add(self.offset as u32);
        if jump_addr % 4 != 0 {
            return Err(ProcessorException::InstructionAddressMisaligned);
        }
        Ok(InstructionResult::set_jump(jump_addr))
    }

    /// Render the instruction as assembly-like text.
    pub fn format(&self) -> (r: String)
        requires
            self.wf(),
        ensures
            r@ == self.spec_format(),
    {
        let mut s = String::from_str(self.condition.name());
        s.append(" ");
        push_reg(&mut s, self.src1);
        s.append(", ");
        push_reg(&mut s, self.src2);
        s.append(", ");
        push_hex_imm(&mut s, self.offset);
        s
    }
}

} // verus!
