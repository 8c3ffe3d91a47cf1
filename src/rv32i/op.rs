//! OP opcode instructions: integer computations on two registers, written to a register.
//!
//! Arithmetic wraps in two's complement; shifts take the low five bits of the shift amount.

use crate::error::ProcessorException;
use crate::instruction::{no_effect, InstructionResult};
use crate::parts::InstructionWordParts;
use crate::register::{written, RegisterFile};
use crate::rv32i::{right_shift, shift_name, RightShiftBehaviour};
use crate::text::{dec, push_dec, push_hex_imm, push_reg, hex_imm, reg_name};
use vstd::prelude::*;

verus! {

/// Whether an ADD/SUB instruction adds or subtracts.
#[derive(Clone, Copy, Debug, PartialEq, Eq, Structural, Hash)]
pub enum Operation {
    /// rd = rs1 + rs2.
    Add,
    /// rd = rs1 - rs2.
    Sub,
}

/// An ADD or SUB instruction.
#[derive(Clone, Copy, Debug, PartialEq, Eq, Structural, Hash)]
pub struct ArithmeticInstruction {
    /// First source register.
    pub src1: u8,
    /// Second source register.
    pub src2: u8,
    /// Destination register.
    pub dest: u8,
    /// Addition or subtraction.
    pub op: Operation,
}

impl ArithmeticInstruction {
    /// The register numbers are in range.
    pub open spec fn wf(&self) -> bool {
        self.src1 < 32 && self.src2 < 32 && self.dest < 32
    }

    /// The operation that a `funct7` field selects, if any.
    pub open spec fn spec_operation(funct7: u8) -> Option<Operation> {
        if funct7 == 0b0000000 {
            Some(Operation::Add)
        } else if funct7 == 0b0100000 {
            Some(Operation::Sub)
        } else {
            None
        }
    }

    /// The register values after execution, and the outcome.
    pub open spec fn spec_execute(&self, regs: Seq<i32>) -> (Seq<i32>, Result<InstructionResult, ProcessorException>) {
        let a = regs[self.src1 as int];
        let b = regs[self.src2 as int];
        (
            written(regs, self.dest as int, match self.op {
                Operation::Add => a.wrapping_add(b),
                Operation::Sub => a.wrapping_sub(b),
            }),
            Ok(no_effect()),
        )
    }

    /// The assembly-like text of the instruction.
    pub open spec fn spec_format(&self) -> Seq<char> {
        (match self.op {
            Operation::Add => "add "@,
            Operation::Sub => "sub "@,
        }) + reg_name(self.dest) + ", "@ + reg_name(self.src1) + ", "@ + reg_name(self.src2)
    }

    /// The instruction that the parts of a word decode to, or the reason they are illegal.
    pub open spec fn spec_new(instruction: InstructionWordParts) -> Result<Self, ProcessorException> {
        (match Self::spec_operation(instruction.funct7) {
            Some(op) => Ok(ArithmeticInstruction {
                src1: instruction.rs1,
                src2: instruction.rs2,
                dest: instruction.rd,
                op,
            }),
            None => Err(ProcessorException::IllegalInstruction),
        })
    }

    /// Create the instruction from the parts of its word; `funct7` must select ADD or SUB.
    pub fn new(instruction: &InstructionWordParts) -> (r: Result<Self, ProcessorException>)
        ensures
            r == Self::spec_new(*instruction),
    {
        let op = match instruction.funct7 {
            0b0000000 => Operation::Add,
            0b0100000 => Operation::Sub,
            _ => return Err(ProcessorException::IllegalInstruction),
        };
        Ok(ArithmeticInstruction { src1: instruction.rs1, src2: instruction.rs2, dest: instruction.rd, op })
    }

    /// Execute the instruction against `registers`.
    pub fn execute(&self, registers: &mut RegisterFile, _mem: i32) -> (r: Result<InstructionResult, ProcessorException>)
        requires
            self.wf(),
            old(registers).wf(),
        ensures
            final(registers).wf(),
            (final(registers)@, r) == self.spec_execute(old(registers)@),
    {
        let src1 = registers.load(self.src1)?;
        let src2 = registers.load(self.src2)?;
        let result = match self.op {
            Operation::Add => src1.wrapping_add(src2),
            Operation::Sub => src1.wrapping_sub(src2),
        };
        registers.store(self.dest, result)?;
        Ok(InstructionResult::default())
    }

    /// Render the instruction as assembly-like text.
    pub fn format(&self) -> (r: String)
        requires
            self.wf(),
        ensures
            r@ == self.spec_format(),
    {
        let mut s = match self.op {
            Operation::Add => String::from_str("add "),
            Operation::Sub => String::from_str("sub "),
        };
        push_reg(&mut s, self.dest);
        s.append(", ");
        push_reg(&mut s, self.src1);
        s.append(", ");
        push_reg(&mut s, self.src2);
        s
    }
}

/// SLT instruction: rd is 1 if rs1 < rs2 as signed values, else 0.
#[derive(Clone, Copy, Debug, PartialEq, Eq, Structural, Hash)]
pub struct SltInstruction {
    /// First source register.
    pub src1: u8,
    /// Second source register.
    pub src2: u8,
    /// Destination register.
    pub dest: u8,
}

impl SltInstruction {
    /// The register numbers are in range.
    pub open spec fn wf(&self) -> bool {
        self.src1 < 32 && self.src2 < 32 && self.dest < 32
    }

    /// The value written to the destination register, from the two source values.
    pub open spec fn compute(a: i32, b: i32) -> i32 {
        if a < b { 1 } else { 0 }
    }

    /// The register values after execution, and the outcome.
    pub open spec fn spec_execute(&self, regs: Seq<i32>) -> (Seq<i32>, Result<InstructionResult, ProcessorException>) {
        (
            written(regs, self.dest as int, Self::compute(regs[self.src1 as int], regs[self.src2 as int])),
            Ok(no_effect()),
        )
    }

    /// The assembly-like text of the instruction.
    pub open spec fn spec_format(&self) -> Seq<char> {
        "slt "@ + reg_name(self.dest) + ", "@ + reg_name(self.src1) + ", "@ + reg_name(self.src2)
    }

    /// Create the instruction from the parts of its word.
    pub fn new(instruction: &InstructionWordParts) -> (r: Self)
        ensures
            r == (SltInstruction { src1: instruction.rs1, src2: instruction.rs2, dest: instruction.rd }),
    {
        SltInstruction { src1: instruction.rs1, src2: instruction.rs2, dest: instruction.rd }
    }

    /// Execute the instruction against `registers`.
    pub fn execute(&self, registers: &mut RegisterFile, _mem: i32) -> (r: Result<InstructionResult, ProcessorException>)
        requires
            self.wf(),
            old(registers).wf(),
        ensures
            final(registers).wf(),
            (final(registers)@, r) == self.spec_execute(old(registers)@),
    {
        let src1 = registers.load(self.src1)?;
        let src2 = registers.load(self.src2)?;
        let result = if src1 < src2 { 1 } else { 0 };
        registers.store(self.dest, result)?;
        Ok(InstructionResult::default())
    }

    /// Render the instruction as assembly-like text.
    pub fn format(&self) -> (r: String)
        requires
            self.wf(),
        ensures
            r@ == self.spec_format(),
    {
        let mut s = String::from_str("slt ");
        push_reg(&mut s, self.dest);
        s.append(", ");
        push_reg(&mut s, self.src1);
        s.append(", ");
        push_reg(&mut s, self.src2);
        s
    }
}

/// SLTU instruction: rd is 1 if rs1 < rs2 as unsigned values, else 0.
#[derive(Clone, Copy, Debug, PartialEq, Eq, Structural, Hash)]
pub struct SltUInstruction {
    /// First source register.
    pub src1: u8,
    /// Second source register.
    pub src2: u8,
    /// Destination register.
    pub dest: u8,
}

impl SltUInstruction {
    /// The register numbers are in range.
    pub open spec fn wf(&self) -> bool {
        self.src1 < 32 && self.src2 < 32 && self.dest < 32
    }

    /// The value written to the destination register, from the two source values.
    pub open spec fn compute(a: i32, b: i32) -> i32 {
        if (a as u32) < (b as u32) { 1 } else { 0 }
    }

    /// The register values after execution, and the outcome.
    pub open spec fn spec_execute(&self, regs: Seq<i32>) -> (Seq<i32>, Result<InstructionResult, ProcessorException>) {
        (
            written(regs, self.dest as int, Self::compute(regs[self.src1 as int], regs[self.src2 as int])),
            Ok(no_effect()),
        )
    }

    /// The assembly-like text of the instruction.
    pub open spec fn spec_format(&self) -> Seq<char> {
        "sltu "@ + reg_name(self.dest) + ", "@ + reg_name(self.src1) + ", "@ + reg_name(self.src2)
    }

    /// Create the instruction from the parts of its word.
    pub fn new(instruction: &InstructionWordParts) -> (r: Self)
        ensures
            r == (SltUInstruction { src1: instruction.rs1, src2: instruction.rs2, dest: instruction.rd }),
    {
        SltUInstruction { src1: instruction.rs1, src2: instruction.rs2, dest: instruction.rd }
    }

    /// Execute the instruction against `registers`.
    pub fn execute(&self, registers: &mut RegisterFile, _mem: i32) -> (r: Result<InstructionResult, ProcessorException>)
        requires
            self.wf(),
            old(registers).wf(),
        ensures
            final(registers).wf(),
            (final(registers)@, r) == self.spec_execute(old(registers)@),
    {
        let src1 = registers.load(self.src1)?;
        let src2 = registers.load(self.src2)?;
        let result = if (src1 as u32) < (src2 as u32) { 1 } else { 0 };
        registers.store(self.dest, result)?;
        Ok(InstructionResult::default())
    }

    /// Render the instruction as assembly-like text.
    pub fn format(&self) -> (r: String)
        requires
            self.wf(),
        ensures
            r@ == self.spec_format(),
    {
        let mut s = String::from_str("sltu ");
        push_reg(&mut s, self.dest);
        s.append(", ");
        push_reg(&mut s, self.src1);
        s.append(", ");
        push_reg(&mut s, self.src2);
        s
    }
}

/// AND instruction: bitwise and of rs1 and rs2.
#[derive(Clone, Copy, Debug, PartialEq, Eq, Structural, Hash)]
pub struct AndInstruction {
    /// First source register.
    pub src1: u8,
    /// Second source register.
    pub src2: u8,
    /// Destination register.
    pub dest: u8,
}

impl AndInstruction {
    /// The register numbers are in range.
    pub open spec fn wf(&self) -> bool {
        self.src1 < 32 && self.src2 < 32 && self.dest < 32
    }

    /// The value written to the destination register, from the two source values.
    pub open spec fn compute(a: i32, b: i32) -> i32 {
        a & b
    }

    /// The register values after execution, and the outcome.
    pub open spec fn spec_execute(&self, regs: Seq<i32>) -> (Seq<i32>, Result<InstructionResult, ProcessorException>) {
        (
            written(regs, self.dest as int, Self::compute(regs[self.src1 as int], regs[self.src2 as int])),
            Ok(no_effect()),
        )
    }

    /// The assembly-like text of the instruction.
    pub open spec fn spec_format(&self) -> Seq<char> {
        "and "@ + reg_name(self.dest) + ", "@ + reg_name(self.src1) + ", "@ + reg_name(self.src2)
    }

    /// Create the instruction from the parts of its word.
    pub fn new(instruction: &InstructionWordParts) -> (r: Self)
        ensures
            r == (AndInstruction { src1: instruction.rs1, src2: instruction.rs2, dest: instruction.rd }),
    {
        AndInstruction { src1: instruction.rs1, src2: instruction.rs2, dest: instruction.rd }
    }

    /// Execute the instruction against `registers`.
    pub fn execute(&self, registers: &mut RegisterFile, _mem: i32) -> (r: Result<InstructionResult, ProcessorException>)
        requires
            self.wf(),
            old(registers).wf(),
        ensures
            final(registers).wf(),
            (final(registers)@, r) == self.spec_execute(old(registers)@),
    {
        let src1 = registers.load(self.src1)?;
        let src2 = registers.load(self.src2)?;
        let result = src1 & src2;
        registers.store(self.dest, result)?;
        Ok(InstructionResult::default())
    }

    /// Render the instruction as assembly-like text.
    pub fn format(&self) -> (r: String)
        requires
            self.wf(),
        ensures
            r@ == self.spec_format(),
    {
        let mut s = String::from_str("and ");
        push_reg(&mut s, self.dest);
        s.append(", ");
        push_reg(&mut s, self.src1);
        s.append(", ");
        push_reg(&mut s, self.src2);
        s
    }
}

/// OR instruction: bitwise or of rs1 and rs2.
#[derive(Clone, Copy, Debug, PartialEq, Eq, Structural, Hash)]
pub struct OrInstruction {
    /// First source register.
    pub src1: u8,
    /// Second source register.
    pub src2: u8,
    /// Destination register.
    pub dest: u8,
}

impl OrInstruction {
    /// The register numbers are in range.
    pub open spec fn wf(&self) -> bool {
        self.src1 < 32 && self.src2 < 32 && self.dest < 32
    }

    /// The value written to the destination register, from the two source values.
    pub open spec fn compute(a: i32, b: i32) -> i32 {
        a | b
    }

    /// The register values after execution, and the outcome.
    pub open spec fn spec_execute(&self, regs: Seq<i32>) -> (Seq<i32>, Result<InstructionResult, ProcessorException>) {
        (
            written(regs, self.dest as int, Self::compute(regs[self.src1 as int], regs[self.src2 as int])),
            Ok(no_effect()),
        )
    }

    /// The assembly-like text of the instruction.
    pub open spec fn spec_format(&self) -> Seq<char> {
        "or "@ + reg_name(self.dest) + ", "@ + reg_name(self.src1) + ", "@ + reg_name(self.src2)
    }

    /// Create the instruction from the parts of its word.
    pub fn new(instruction: &InstructionWordParts) -> (r: Self)
        ensures
            r == (OrInstruction { src1: instruction.rs1, src2: instruction.rs2, dest: instruction.rd }),
    {
        OrInstruction { src1: instruction.rs1, src2: instruction.rs2, dest: instruction.rd }
    }

    /// Execute the instruction against `registers`.
    pub fn execute(&self, registers: &mut RegisterFile, _mem: i32) -> (r: Result<InstructionResult, ProcessorException>)
        requires
            self.wf(),
            old(registers).wf(),
        ensures
            final(registers).wf(),
            (final(registers)@, r) == self.spec_execute(old(registers)@),
    {
        let src1 = registers.load(self.src1)?;
        let src2 = registers.load(self.src2)?;
        let result = src1 | src2;
        registers.store(self.dest, result)?;
        Ok(InstructionResult::default())
    }

    /// Render the instruction as assembly-like text.
    pub fn format(&self) -> (r: String)
        requires
            self.wf(),
        ensures
            r@ == self.spec_format(),
    {
        let mut s = String::from_str("or ");
        push_reg(&mut s, self.dest);
        s.append(", ");
        push_reg(&mut s, self.src1);
        s.append(", ");
        push_reg(&mut s, self.src2);
        s
    }
}

/// XOR instruction: bitwise exclusive or of rs1 and rs2.
#[derive(Clone, Copy, Debug, PartialEq, Eq, Structural, Hash)]
pub struct XorInstruction {
    /// First source register.
    pub src1: u8,
    /// Second source register.
    pub src2: u8,
    /// Destination register.
    pub dest: u8,
}

impl XorInstruction {
    /// The register numbers are in range.
    pub open spec fn wf(&self) -> bool {
        self.src1 < 32 && self.src2 < 32 && self.dest < 32
    }

    /// The value written to the destination register, from the two source values.
    pub open spec fn compute(a: i32, b: i32) -> i32 {
        a ^ b
    }

    /// The register values after execution, and the outcome.
    pub open spec fn spec_execute(&self, regs: Seq<i32>) -> (Seq<i32>, Result<InstructionResult, ProcessorException>) {
        (
            written(regs, self.dest as int, Self::compute(regs[self.src1 as int], regs[self.src2 as int])),
            Ok(no_effect()),
        )
    }

    /// The assembly-like text of the instruction.
    pub open spec fn spec_format(&self) -> Seq<char> {
        "xor "@ + reg_name(self.dest) + ", "@ + reg_name(self.src1) + ", "@ + reg_name(self.src2)
    }

    /// Create the instruction from the parts of its word.
    pub fn new(instruction: &InstructionWordParts) -> (r: Self)
        ensures
            r == (XorInstruction { src1: instruction.rs1, src2: instruction.rs2, dest: instruction.rd }),
    {
        XorInstruction { src1: instruction.rs1, src2: instruction.rs2, dest: instruction.rd }
    }

    /// Execute the instruction against `registers`.
    pub fn execute(&self, registers: &mut RegisterFile, _mem: i32) -> (r: Result<InstructionResult, ProcessorException>)
        requires
            self.wf(),
            old(registers).wf(),
        ensures
            final(registers).wf(),
            (final(registers)@, r) == self.spec_execute(old(registers)@),
    {
        let src1 = registers.load(self.src1)?;
        let src2 = registers.load(self.src2)?;
        let result = src1 ^ src2;
        registers.store(self.dest, result)?;
        Ok(InstructionResult::default())
    }

    /// Render the instruction as assembly-like text.
    pub fn format(&self) -> (r: String)
        requires
            self.wf(),
        ensures
            r@ == self.spec_format(),
    {
        let mut s = String::from_str("xor ");
        push_reg(&mut s, self.dest);
        s.append(", ");
        push_reg(&mut s, self.src1);
        s.append(", ");
        push_reg(&mut s, self.src2);
        s
    }
}

/// SLL instruction: rs1 shifted left by the low five bits of rs2.
#[derive(Clone, Copy, Debug, PartialEq, Eq, Structural, Hash)]
pub struct SllInstruction {
    /// First source register.
    pub src1: u8,
    /// Second source register.
    pub src2: u8,
    /// Destination register.
    pub dest: u8,
}

impl SllInstruction {
    /// The register numbers are in range.
    pub open spec fn wf(&self) -> bool {
        self.src1 < 32 && self.src2 < 32 && self.dest < 32
    }

    /// The value written to the destination register, from the two source values.
    pub open spec fn compute(a: i32, b: i32) -> i32 {
        a.wrapping_shl((b & 0x1f) as u32)
    }

    /// The register values after execution, and the outcome.
    pub open spec fn spec_execute(&self, regs: Seq<i32>) -> (Seq<i32>, Result<InstructionResult, ProcessorException>) {
        (
            written(regs, self.dest as int, Self::compute(regs[self.src1 as int], regs[self.src2 as int])),
            Ok(no_effect()),
        )
    }

    /// The assembly-like text of the instruction.
    pub open spec fn spec_format(&self) -> Seq<char> {
        "sll "@ + reg_name(self.dest) + ", "@ + reg_name(self.src1) + ", "@ + reg_name(self.src2)
    }

    /// Create the instruction from the parts of its word.
    pub fn new(instruction: &InstructionWordParts) -> (r: Self)
        ensures
            r == (SllInstruction { src1: instruction.rs1, src2: instruction.rs2, dest: instruction.rd }),
    {
        SllInstruction { src1: instruction.rs1, src2: instruction.rs2, dest: instruction.rd }
    }

    /// Execute the instruction against `registers`.
    pub fn execute(&self, registers: &mut RegisterFile, _mem: i32) -> (r: Result<InstructionResult, ProcessorException>)
        requires
            self.wf(),
            old(registers).wf(),
        ensures
            final(registers).wf(),
            (final(registers)@, r) == self.spec_execute(old(registers)@),
    {
        let src1 = registers.load(self.src1)?;
        let src2 = registers.load(self.src2)?;
        let result = src1.wrapping_shl((src2 & 0x1f) as u32);
        registers.store(self.dest, result)?;
        Ok(InstructionResult::default())
    }

    /// Render the instruction as assembly-like text.
    pub fn format(&self) -> (r: String)
        requires
            self.wf(),
        ensures
            r@ == self.spec_format(),
    {
        let mut s = String::from_str("sll ");
        push_reg(&mut s, self.dest);
        s.append(", ");
        push_reg(&mut s, self.src1);
        s.append(", ");
        push_reg(&mut s, self.src2);
        s
    }
}

/// SRL or SRA instruction: rs1 shifted right by the low five bits of rs2.
#[derive(Clone, Copy, Debug, PartialEq, Eq, Structural, Hash)]
pub struct SrInstruction {
    /// First source register.
    pub src1: u8,
    /// Second source register.
    pub src2: u8,
    /// Destination register.
    pub dest: u8,
    /// Logical (zero-extending) or arithmetic (sign-extending) shift.
    pub behaviour: RightShiftBehaviour,
}

impl SrInstruction {
    /// The register numbers are in range.
    pub open spec fn wf(&self) -> bool {
        self.src1 < 32 && self.src2 < 32 && self.dest < 32
    }

    /// The register values after execution, and the outcome.
    pub open spec fn spec_execute(&self, regs: Seq<i32>) -> (Seq<i32>, Result<InstructionResult, ProcessorException>) {
        (
            written(regs, self.dest as int, right_shift(
                self.behaviour,
                regs[self.src1 as int],
                (regs[self.src2 as int] & 0x1f) as u32,
            )),
            Ok(no_effect()),
        )
    }

    /// The assembly-like text of the instruction.
    pub open spec fn spec_format(&self) -> Seq<char> {
        "sr"@ + shift_name(self.behaviour) + " "@ + reg_name(self.dest) + ", "@ + reg_name(self.src1) + ", "@ + reg_name(self.src2)
    }

    /// The instruction that the parts of a word decode to, or the reason they are illegal.
    pub open spec fn spec_new(instruction: InstructionWordParts) -> Result<Self, ProcessorException> {
        (if instruction.funct7 == 0b0000000 {
            Ok(SrInstruction { src1: instruction.rs1, src2: instruction.rs2, dest: instruction.rd, behaviour: RightShiftBehaviour::Logical })
        } else if instruction.funct7 == 0b0100000 {
            Ok(SrInstruction { src1: instruction.rs1, src2: instruction.rs2, dest: instruction.rd, behaviour: RightShiftBehaviour::Arithmetic })
        } else {
            Err(ProcessorException::IllegalInstruction)
        })
    }

    /// Create the instruction from the parts of its word; `funct7` must select SRL or SRA.
    pub fn new(instruction: &InstructionWordParts) -> (r: Result<Self, ProcessorException>)
        ensures
            r == Self::spec_new(*instruction),
    {
        let behaviour = match instruction.funct7 {
            0b0000000 => RightShiftBehaviour::Logical,
            0b0100000 => RightShiftBehaviour::Arithmetic,
            _ => return Err(ProcessorException::IllegalInstruction),
        };
        Ok(SrInstruction { src1: instruction.rs1, src2: instruction.rs2, dest: instruction.rd, behaviour })
    }

    /// Execute the instruction against `registers`.
    pub fn execute(&self, registers: &mut RegisterFile, _mem: i32) -> (r: Result<InstructionResult, ProcessorException>)
        requires
            self.wf(),
            old(registers).wf(),
        ensures
            final(registers).wf(),
            (final(registers)@, r) == self.spec_execute(old(registers)@),
    {
        let src1 = registers.load(self.src1)?;
        let src2 = registers.load(self.src2)?;
        let result = self.behaviour.shift(src1, (src2 & 0x1f) as u32);
        registers.store(self.dest, result)?;
        Ok(InstructionResult::default())
    }

    /// Render the instruction as assembly-like text.
    pub fn format(&self) -> (r: String)
        requires
            self.wf(),
        ensures
            r@ == self.spec_format(),
    {
        let mut s = String::from_str("sr");
        s.append(self.behaviour.name());
        s.append(" ");
        push_reg(&mut s, self.dest);
        s.append(", ");
        push_reg(&mut s, self.src1);
        s.append(", ");
        push_reg(&mut s, self.src2);
        s
    }
}

} // verus!
