//! OP-IMM opcode instructions: integer computations on a register and an immediate, written to
//! a register.

use crate::error::ProcessorException;
use crate::instruction::{no_effect, InstructionResult};
use crate::parts::InstructionWordParts;
use crate::register::{written, RegisterFile};
use crate::rv32i::{lemma_low_five_bits, right_shift, shift_name, RightShiftBehaviour};
use crate::text::{dec, push_dec, push_hex_imm, push_reg, hex_imm, reg_name};
use vstd::prelude::*;

verus! {

/// ADDI instruction: rs1 plus the immediate, wrapping.
#[derive(Clone, Copy, Debug, PartialEq, Eq, Structural, Hash)]
pub struct AddIInstruction {
    /// Source register.
    pub src: u8,
    /// Immediate operand.
    pub imm: i32,
    /// Destination register.
    pub dest: u8,
}

impl AddIInstruction {
    /// The register numbers are in range.
    pub open spec fn wf(&self) -> bool {
        self.src < 32 && self.dest < 32
    }

    /// The value written to the destination register, from the source value and the immediate.
    pub open spec fn compute(a: i32, imm: i32) -> i32 {
        a.wrapping_add(imm)
    }

    /// The register values after execution, and the outcome.
    pub open spec fn spec_execute(&self, regs: Seq<i32>) -> (Seq<i32>, Result<InstructionResult, ProcessorException>) {
        (written(regs, self.dest as int, Self::compute(regs[self.src as int], self.imm)), Ok(no_effect()))
    }

    /// The assembly-like text of the instruction.
    pub open spec fn spec_format(&self) -> Seq<char> {
        "addi "@ + reg_name(self.dest) + ", "@ + reg_name(self.src) + ", "@ + hex_imm(self.imm)
    }

    /// Create the instruction from the parts of its word.
    pub fn new(instruction: &InstructionWordParts) -> (r: Self)
        ensures
            r == (AddIInstruction { src: instruction.rs1, imm: instruction.imm_i, dest: instruction.rd }),
    {
        AddIInstruction { src: instruction.rs1, imm: instruction.imm_i, dest: instruction.rd }
    }

    /// Execute the instruction against `registers`.
    pub fn execute(&self, registers: &mut RegisterFile, _mem: i32) -> (r: Result<InstructionResult, ProcessorException>)
        requires
            self.wf(),
            old(registers).wf(),
        ensures
            final(registers).wf(),
            (final(registers)@, r) == self.spec_execute(old(registers)@),
    {
        let src = registers.load(self.src)?;
        let imm = self.imm;
        let result = src.wrapping_add(imm);
        registers.store(self.dest, result)?;
        Ok(InstructionResult::default())
    }

    /// Render the instruction as assembly-like text.
    pub fn format(&self) -> (r: String)
        requires
            self.wf(),
        ensures
            r@ == self.spec_format(),
    {
        let mut s = String::from_str("addi ");
        push_reg(&mut s, self.dest);
        s.append(", ");
        push_reg(&mut s, self.src);
        s.append(", ");
        push_hex_imm(&mut s, self.imm);
        s
    }
}

/// SLTI instruction: rd is 1 if rs1 < the immediate as signed values, else 0.
#[derive(Clone, Copy, Debug, PartialEq, Eq, Structural, Hash)]
pub struct SltIInstruction {
    /// Source register.
    pub src: u8,
    /// Immediate operand.
    pub imm: i32,
    /// Destination register.
    pub dest: u8,
}

impl SltIInstruction {
    /// The register numbers are in range.
    pub open spec fn wf(&self) -> bool {
        self.src < 32 && self.dest < 32
    }

    /// The value written to the destination register, from the source value and the immediate.
    pub open spec fn compute(a: i32, imm: i32) -> i32 {
        if a < imm { 1 } else { 0 }
    }

    /// The register values after execution, and the outcome.
    pub open spec fn spec_execute(&self, regs: Seq<i32>) -> (Seq<i32>, Result<InstructionResult, ProcessorException>) {
        (written(regs, self.dest as int, Self::compute(regs[self.src as int], self.imm)), Ok(no_effect()))
    }

    /// The assembly-like text of the instruction.
    pub open spec fn spec_format(&self) -> Seq<char> {
        "slti "@ + reg_name(self.dest) + ", "@ + reg_name(self.src) + ", "@ + hex_imm(self.imm)
    }

    /// Create the instruction from the parts of its word.
    pub fn new(instruction: &InstructionWordParts) -> (r: Self)
        ensures
            r == (SltIInstruction { src: instruction.rs1, imm: instruction.imm_i, dest: instruction.rd }),
    {
        SltIInstruction { src: instruction.rs1, imm: instruction.imm_i, dest: instruction.rd }
    }

    /// Execute the instruction against `registers`.
    pub fn execute(&self, registers: &mut RegisterFile, _mem: i32) -> (r: Result<InstructionResult, ProcessorException>)
        requires
            self.wf(),
            old(registers).wf(),
        ensures
            final(registers).wf(),
            (final(registers)@, r) == self.spec_execute(old(registers)@),
    {
        let src = registers.load(self.src)?;
        let imm = self.imm;
        let result = if src < imm { 1 } else { 0 };
        registers.store(self.dest, result)?;
        Ok(InstructionResult::default())
    }

    /// Render the instruction as assembly-like text.
    pub fn format(&self) -> (r: String)
        requires
            self.wf(),
        ensures
            r@ == self.spec_format(),
    {
        let mut s = String::from_str("slti ");
        push_reg(&mut s, self.dest);
        s.append(", ");
        push_reg(&mut s, self.src);
        s.append(", ");
        push_hex_imm(&mut s, self.imm);
        s
    }
}

/// SLTIU instruction: rd is 1 if rs1 < the sign-extended immediate as unsigned values, else 0.
#[derive(Clone, Copy, Debug, PartialEq, Eq, Structural, Hash)]
pub struct SltIUInstruction {
    /// Source register.
    pub src: u8,
    /// Immediate operand.
    pub imm: i32,
    /// Destination register.
    pub dest: u8,
}

impl SltIUInstruction {
    /// The register numbers are in range.
    pub open spec fn wf(&self) -> bool {
        self.src < 32 && self.dest < 32
    }

    /// The value written to the destination register, from the source value and the immediate.
    pub open spec fn compute(a: i32, imm: i32) -> i32 {
        if (a as u32) < (imm as u32) { 1 } else { 0 }
    }

    /// The register values after execution, and the outcome.
    pub open spec fn spec_execute(&self, regs: Seq<i32>) -> (Seq<i32>, Result<InstructionResult, ProcessorException>) {
        (written(regs, self.dest as int, Self::compute(regs[self.src as int], self.imm)), Ok(no_effect()))
    }

    /// The assembly-like text of the instruction.
    pub open spec fn spec_format(&self) -> Seq<char> {
        "sltiu "@ + reg_name(self.dest) + ", "@ + reg_name(self.src) + ", "@ + hex_imm(self.imm)
    }

    /// Create the instruction from the parts of its word.
    pub fn new(instruction: &InstructionWordParts) -> (r: Self)
        ensures
            r == (SltIUInstruction { src: instruction.rs1, imm: instruction.imm_i, dest: instruction.rd }),
    {
        SltIUInstruction { src: instruction.rs1, imm: instruction.imm_i, dest: instruction.rd }
    }

    /// Execute the instruction against `registers`.
    pub fn execute(&self, registers: &mut RegisterFile, _mem: i32) -> (r: Result<InstructionResult, ProcessorException>)
        requires
            self.wf(),
            old(registers).wf(),
        ensures
            final(registers).wf(),
            (final(registers)@, r) == self.spec_execute(old(registers)@),
    {
        let src = registers.load(self.src)?;
        let imm = self.imm;
        let result = if (src as u32) < (imm as u32) { 1 } else { 0 };
        registers.store(self.dest, result)?;
        Ok(InstructionResult::default())
    }

    /// Render the instruction as assembly-like text.
    pub fn format(&self) -> (r: String)
        requires
            self.wf(),
        ensures
            r@ == self.spec_format(),
    {
        let mut s = String::from_str("sltiu ");
        push_reg(&mut s, self.dest);
        s.append(", ");
        push_reg(&mut s, self.src);
        s.append(", ");
        push_hex_imm(&mut s, self.imm);
        s
    }
}

/// ANDI instruction: bitwise and of rs1 and the immediate.
#[derive(Clone, Copy, Debug, PartialEq, Eq, Structural, Hash)]
pub struct AndIInstruction {
    /// Source register.
    pub src: u8,
    /// Immediate operand.
    pub imm: i32,
    /// Destination register.
    pub dest: u8,
}

impl AndIInstruction {
    /// The register numbers are in range.
    pub open spec fn wf(&self) -> bool {
        self.src < 32 && self.dest < 32
    }

    /// The value written to the destination register, from the source value and the immediate.
    pub open spec fn compute(a: i32, imm: i32) -> i32 {
        a & imm
    }

    /// The register values after execution, and the outcome.
    pub open spec fn spec_execute(&self, regs: Seq<i32>) -> (Seq<i32>, Result<InstructionResult, ProcessorException>) {
        (written(regs, self.dest as int, Self::compute(regs[self.src as int], self.imm)), Ok(no_effect()))
    }

    /// The assembly-like text of the instruction.
    pub open spec fn spec_format(&self) -> Seq<char> {
        "andi "@ + reg_name(self.dest) + ", "@ + reg_name(self.src) + ", "@ + hex_imm(self.imm)
    }

    /// Create the instruction from the parts of its word.
    pub fn new(instruction: &InstructionWordParts) -> (r: Self)
        ensures
            r == (AndIInstruction { src: instruction.rs1, imm: instruction.imm_i, dest: instruction.rd }),
    {
        AndIInstruction { src: instruction.rs1, imm: instruction.imm_i, dest: instruction.rd }
    }

    /// Execute the instruction against `registers`.
    pub fn execute(&self, registers: &mut RegisterFile, _mem: i32) -> (r: Result<InstructionResult, ProcessorException>)
        requires
            self.wf(),
            old(registers).wf(),
        ensures
            final(registers).wf(),
            (final(registers)@, r) == self.spec_execute(old(registers)@),
    {
        let src = registers.load(self.src)?;
        let imm = self.imm;
        let result = src & imm;
        registers.store(self.dest, result)?;
        Ok(InstructionResult::default())
    }

    /// Render the instruction as assembly-like text.
    pub fn format(&self) -> (r: String)
        requires
            self.wf(),
        ensures
            r@ == self.spec_format(),
    {
        let mut s = String::from_str("andi ");
        push_reg(&mut s, self.dest);
        s.append(", ");
        push_reg(&mut s, self.src);
        s.append(", ");
        push_hex_imm(&mut s, self.imm);
        s
    }
}

/// ORI instruction: bitwise or of rs1 and the immediate.
#[derive(Clone, Copy, Debug, PartialEq, Eq, Structural, Hash)]
pub struct OrIInstruction {
    /// Source register.
    pub src: u8,
    /// Immediate operand.
    pub imm: i32,
    /// Destination register.
    pub dest: u8,
}

impl OrIInstruction {
    /// The register numbers are in range.
    pub open spec fn wf(&self) -> bool {
        self.src < 32 && self.dest < 32
    }

    /// The value written to the destination register, from the source value and the immediate.
    pub open spec fn compute(a: i32, imm: i32) -> i32 {
        a | imm
    }

    /// The register values after execution, and the outcome.
    pub open spec fn spec_execute(&self, regs: Seq<i32>) -> (Seq<i32>, Result<InstructionResult, ProcessorException>) {
        (written(regs, self.dest as int, Self::compute(regs[self.src as int], self.imm)), Ok(no_effect()))
    }

    /// The assembly-like text of the instruction.
    pub open spec fn spec_format(&self) -> Seq<char> {
        "ori "@ + reg_name(self.dest) + ", "@ + reg_name(self.src) + ", "@ + hex_imm(self.imm)
    }

    /// Create the instruction from the parts of its word.
    pub fn new(instruction: &InstructionWordParts) -> (r: Self)
        ensures
            r == (OrIInstruction { src: instruction.rs1, imm: instruction.imm_i, dest: instruction.rd }),
    {
        OrIInstruction { src: instruction.rs1, imm: instruction.imm_i, dest: instruction.rd }
    }

    /// Execute the instruction against `registers`.
    pub fn execute(&self, registers: &mut RegisterFile, _mem: i32) -> (r: Result<InstructionResult, ProcessorException>)
        requires
            self.wf(),
            old(registers).wf(),
        ensures
            final(registers).wf(),
            (final(registers)@, r) == self.spec_execute(old(registers)@),
    {
        let src = registers.load(self.src)?;
        let imm = self.imm;
        let result = src | imm;
        registers.store(self.dest, result)?;
        Ok(InstructionResult::default())
    }

    /// Render the instruction as assembly-like text.
    pub fn format(&self) -> (r: String)
        requires
            self.wf(),
        ensures
            r@ == self.spec_format(),
    {
        let mut s = String::from_str("ori ");
        push_reg(&mut s, self.dest);
        s.append(", ");
        push_reg(&mut s, self.src);
        s.append(", ");
        push_hex_imm(&mut s, self.imm);
        s
    }
}

/// XORI instruction: bitwise exclusive or of rs1 and the immediate.
#[derive(Clone, Copy, Debug, PartialEq, Eq, Structural, Hash)]
pub struct XorIInstruction {
    /// Source register.
    pub src: u8,
    /// Immediate operand.
    pub imm: i32,
    /// Destination register.
    pub dest: u8,
}

impl XorIInstruction {
    /// The register numbers are in range.
    pub open spec fn wf(&self) -> bool {
        self.src < 32 && self.dest < 32
    }

    /// The value written to the destination register, from the source value and the immediate.
    pub open spec fn compute(a: i32, imm: i32) -> i32 {
        a ^ imm
    }

    /// The register values after execution, and the outcome.
    pub open spec fn spec_execute(&self, regs: Seq<i32>) -> (Seq<i32>, Result<InstructionResult, ProcessorException>) {
        (written(regs, self.dest as int, Self::compute(regs[self.src as int], self.imm)), Ok(no_effect()))
    }

    /// The assembly-like text of the instruction.
    pub open spec fn spec_format(&self) -> Seq<char> {
        "xori "@ + reg_name(self.dest) + ", "@ + reg_name(self.src) + ", "@ + hex_imm(self.imm)
    }

    /// Create the instruction from the parts of its word.
    pub fn new(instruction: &InstructionWordParts) -> (r: Self)
        ensures
            r == (XorIInstruction { src: instruction.rs1, imm: instruction.imm_i, dest: instruction.rd }),
    {
        XorIInstruction { src: instruction.rs1, imm: instruction.imm_i, dest: instruction.rd }
    }

    /// Execute the instruction against `registers`.
    pub fn execute(&self, registers: &mut RegisterFile, _mem: i32) -> (r: Result<InstructionResult, ProcessorException>)
        requires
            self.wf(),
            old(registers).wf(),
        ensures
            final(registers).wf(),
            (final(registers)@, r) == self.spec_execute(old(registers)@),
    {
        let src = registers.load(self.src)?;
        let imm = self.imm;
        let result = src ^ imm;
        registers.store(self.dest, result)?;
        Ok(InstructionResult::default())
    }

    /// Render the instruction as assembly-like text.
    pub fn format(&self) -> (r: String)
        requires
            self.wf(),
        ensures
            r@ == self.spec_format(),
    {
        let mut s = String::from_str("xori ");
        push_reg(&mut s, self.dest);
        s.append(", ");
        push_reg(&mut s, self.src);
        s.append(", ");
        push_hex_imm(&mut s, self.imm);
        s
    }
}

/// SLLI instruction: rs1 shifted left by a constant amount.
#[derive(Clone, Copy, Debug, PartialEq, Eq, Structural, Hash)]
pub struct SllIInstruction {
    /// Source register.
    pub src: u8,
    /// Shift amount, the low five bits of the immediate.
    pub shift: u32,
    /// Destination register.
    pub dest: u8,
}

impl SllIInstruction {
    /// The register numbers and the shift amount are in range.
    pub open spec fn wf(&self) -> bool {
        self.src < 32 && self.dest < 32 && self.shift < 32
    }

    /// The register values after execution, and the outcome.
    pub open spec fn spec_execute(&self, regs: Seq<i32>) -> (Seq<i32>, Result<InstructionResult, ProcessorException>) {
        (written(regs, self.dest as int, regs[self.src as int].wrapping_shl(self.shift)), Ok(no_effect()))
    }

    /// The assembly-like text of the instruction.
    pub open spec fn spec_format(&self) -> Seq<char> {
        "slli "@ + reg_name(self.dest) + ", "@ + reg_name(self.src) + ", "@ + dec(self.shift as nat)
    }

    /// The instruction that the parts of a word decode to, or the reason they are illegal.
    pub open spec fn spec_new(instruction: InstructionWordParts) -> Result<Self, ProcessorException> {
        (if instruction.imm_i & 0b111111100000 == 0 {
            Ok(SllIInstruction { src: instruction.rs1, shift: (instruction.imm_i & 0x1f) as u32, dest: instruction.rd })
        } else {
            Err(ProcessorException::IllegalInstruction)
        })
    }

    /// Create the instruction from the parts of its word; bits [11:5] of the immediate must be
    /// zero.
    pub fn new(instruction: &InstructionWordParts) -> (r: Result<Self, ProcessorException>)
        ensures
            r == Self::spec_new(*instruction),
            r matches Ok(i) ==> i.shift < 32,
    {
        if instruction.imm_i & 0b111111100000 != 0 {
            return Err(ProcessorException::IllegalInstruction);
        }
        let shift = (instruction.imm_i & 0x1f) as u32;
        proof {
            lemma_low_five_bits(instruction.imm_i);
        }
        Ok(SllIInstruction { src: instruction.rs1, shift, dest: instruction.rd })
    }

    /// Execute the instruction against `registers`.
    pub fn execute(&self, registers: &mut RegisterFile, _mem: i32) -> (r: Result<InstructionResult, ProcessorException>)
        requires
            self.wf(),
            old(registers).wf(),
        ensures
            final(registers).wf(),
            (final(registers)@, r) == self.spec_execute(old(registers)@),
    {
        let src = registers.load(self.src)?;
        let result = src.wrapping_shl(self.shift);
        registers.store(self.dest, result)?;
        Ok(InstructionResult::default())
    }

    /// Render the instruction as assembly-like text.
    pub fn format(&self) -> (r: String)
        requires
            self.wf(),
        ensures
            r@ == self.spec_format(),
    {
        let mut s = String::from_str("slli ");
        push_reg(&mut s, self.dest);
        s.append(", ");
        push_reg(&mut s, self.src);
        s.append(", ");
        push_dec(&mut s, self.shift);
        s
    }
}

/// SRLI or SRAI instruction: rs1 shifted right by a constant amount.
#[derive(Clone, Copy, Debug, PartialEq, Eq, Structural, Hash)]
pub struct SrIInstruction {
    /// Source register.
    pub src: u8,
    /// Logical (zero-extending) or arithmetic (sign-extending) shift.
    pub behaviour: RightShiftBehaviour,
    /// Shift amount, the low five bits of the immediate.
    pub imm: u32,
    /// Destination register.
    pub dest: u8,
}

impl SrIInstruction {
    /// The register numbers and the shift amount are in range.
    pub open spec fn wf(&self) -> bool {
        self.src < 32 && self.dest < 32 && self.imm < 32
    }

    /// The register values after execution, and the outcome.
    pub open spec fn spec_execute(&self, regs: Seq<i32>) -> (Seq<i32>, Result<InstructionResult, ProcessorException>) {
        (written(regs, self.dest as int, right_shift(self.behaviour, regs[self.src as int], self.imm)), Ok(no_effect()))
    }

    /// The assembly-like text of the instruction.
    pub open spec fn spec_format(&self) -> Seq<char> {
        "sr"@ + shift_name(self.behaviour) + "i "@ + reg_name(self.dest) + ", "@ + reg_name(self.src) + ", "@ + dec(self.imm as nat)
    }

    /// The instruction that the parts of a word decode to, or the reason they are illegal.
    pub open spec fn spec_new(instruction: InstructionWordParts) -> Result<Self, ProcessorException> {
        (if instruction.imm_i & 0b111111100000 == 0 {
            Ok(SrIInstruction { src: instruction.rs1, behaviour: RightShiftBehaviour::Logical, imm: (instruction.imm_i & 0x1f) as u32, dest: instruction.rd })
        } else if instruction.imm_i & 0b111111100000 == 0b010000000000 {
            Ok(SrIInstruction { src: instruction.rs1, behaviour: RightShiftBehaviour::Arithmetic, imm: (instruction.imm_i & 0x1f) as u32, dest: instruction.rd })
        } else {
            Err(ProcessorException::IllegalInstruction)
        })
    }

    /// Create the instruction from the parts of its word; bits [11:5] of the immediate must
    /// select SRLI (`0000000`) or SRAI (`0100000`).
    pub fn new(instruction: &InstructionWordParts) -> (r: Result<Self, ProcessorException>)
        ensures
            r == Self::spec_new(*instruction),
            r matches Ok(i) ==> i.imm < 32,
    {
        let behaviour = match instruction.imm_i & 0b111111100000 {
            0 => RightShiftBehaviour::Logical,
            0b010000000000 => RightShiftBehaviour::Arithmetic,
            _ => return Err(ProcessorException::IllegalInstruction),
        };
        proof {
            lemma_low_five_bits(instruction.imm_i);
        }
        Ok(SrIInstruction { src: instruction.rs1, behaviour, imm: (instruction.imm_i & 0x1f) as u32, dest: instruction.rd })
    }

    /// Execute the instruction against `registers`.
    pub fn execute(&self, registers: &mut RegisterFile, _mem: i32) -> (r: Result<InstructionResult, ProcessorException>)
        requires
            self.wf(),
            old(registers).wf(),
        ensures
            final(registers).wf(),
            (final(registers)@, r) == self.spec_execute(old(registers)@),
    {
        let src = registers.load(self.src)?;
        let result = self.behaviour.shift(src, self.imm);
        registers.store(self.dest, result)?;
        Ok(InstructionResult::default())
    }

    /// Render the instruction as assembly-like text.
    pub fn format(&self) -> (r: String)
        requires
            self.wf(),
        ensures
            r@ == self.spec_format(),
    {
        let mut s = String::from_str("sr");
        s.append(self.behaviour.name());
        s.append("i ");
        push_reg(&mut s, self.dest);
        s.append(", ");
        push_reg(&mut s, self.src);
        s.append(", ");
        push_dec(&mut s, self.imm);
        s
    }
}

} // verus!
