//! LOAD and STORE opcode instructions: copying values between registers and memory.

use crate::error::ProcessorException;
use crate::instruction::{no_effect, InstructionResult};
use crate::mmu::{width_suffix, LoadSpec, MemoryAccessType, StoreSpec};
use crate::parts::InstructionWordParts;
use crate::register::{written, RegisterFile};
use crate::text::{hex_imm, push_hex_imm, push_reg, reg_name};
use vstd::prelude::*;

verus! {

/// The 32-bit address `base + offset`, wrapping.
pub open spec fn effective_address(base: i32, offset: i32) -> usize {
    base.wrapping_add(offset) as u32 as usize
}

/// The width that a LOAD `funct3` field selects, if any.
pub open spec fn spec_load_width(funct3: u8) -> Option<MemoryAccessType> {
    if funct3 == 0b000 {
        Some(MemoryAccessType::SignedByte)
    } else if funct3 == 0b001 {
        Some(MemoryAccessType::SignedHalfWord)
    } else if funct3 == 0b010 {
        Some(MemoryAccessType::Word)
    } else if funct3 == 0b100 {
        Some(MemoryAccessType::UnsignedByte)
    } else if funct3 == 0b101 {
        Some(MemoryAccessType::UnsignedHalfWord)
    } else {
        None
    }
}

/// The width that a STORE `funct3` field selects, if any.
pub open spec fn spec_store_width(funct3: u8) -> Option<MemoryAccessType> {
    if funct3 == 0b000 {
        Some(MemoryAccessType::SignedByte)
    } else if funct3 == 0b001 {
        Some(MemoryAccessType::SignedHalfWord)
    } else if funct3 == 0b010 {
        Some(MemoryAccessType::Word)
    } else {
        None
    }
}

/// LOAD instruction: rd receives the value at a base register plus the I-format offset.
///
/// The load is announced when the instruction is decoded; the processor performs it and hands
/// the extended value to the execution.
#[derive(Clone, Copy, Debug, PartialEq, Eq, Structural, Hash)]
pub struct LoadInstruction {
    /// Base register.
    pub base: u8,
    /// Offset added to the base register.
    pub offset: i32,
    /// Destination register.
    pub dest: u8,
    /// Width and extension of the loaded value.
    pub width: MemoryAccessType,
}

impl LoadInstruction {
    /// The register numbers are in range.
    pub open spec fn wf(&self) -> bool {
        self.base < 32 && self.dest < 32
    }

    /// The load that the instruction needs, with the register values `regs`.
    pub open spec fn spec_load(&self, regs: Seq<i32>) -> LoadSpec {
        LoadSpec {
            access_type: self.width,
            addr: effective_address(regs[self.base as int], self.offset),
        }
    }

    /// The register values after execution with the loaded value `mem`, and the outcome.
    pub open spec fn spec_execute(&self, regs: Seq<i32>, mem: i32) -> (Seq<i32>, Result<InstructionResult, ProcessorException>) {
        (written(regs, self.dest as int, mem), Ok(no_effect()))
    }

    /// The assembly-like text of the instruction.
    pub open spec fn spec_format(&self) -> Seq<char> {
        "l"@ + width_suffix(self.width) + " "@ + reg_name(self.dest) + ", "@ + hex_imm(self.offset) + "("@ + reg_name(self.base) + ")"@
    }

    /// The instruction that the parts of a word decode to, or the reason they are illegal.
    pub open spec fn spec_new(instruction: InstructionWordParts) -> Result<Self, ProcessorException> {
        (match spec_load_width(instruction.funct3) {
            Some(width) => Ok(LoadInstruction {
                base: instruction.rs1,
                offset: instruction.imm_i,
                dest: instruction.rd,
                width,
            }),
            None => Err(ProcessorException::IllegalInstruction),
        })
    }

    /// Create the instruction from the parts of its word; `funct3` must select a width.
    pub fn new(instruction: &InstructionWordParts) -> (r: Result<Self, ProcessorException>)
        ensures
            r == Self::spec_new(*instruction),
    {
        let width = match instruction.funct3 {
            0b000 => MemoryAccessType::SignedByte,
            0b001 => MemoryAccessType::SignedHalfWord,
            0b010 => MemoryAccessType::Word,
            0b100 => MemoryAccessType::UnsignedByte,
            0b101 => MemoryAccessType::UnsignedHalfWord,
            _ => return Err(ProcessorException::IllegalInstruction),
        };
        Ok(LoadInstruction { base: instruction.rs1, offset: instruction.imm_i, dest: instruction.rd, width })
    }

    /// The memory load this instruction needs before it executes.
    pub fn load(&self, registers: &RegisterFile) -> (r: Result<Option<LoadSpec>, ProcessorException>)
        requires
            self.wf(),
            registers.wf(),
        ensures
            r == Ok::<Option<LoadSpec>, ProcessorException>(Some(self.spec_load(registers@))),
    {
        let base = registers.load(self.base)?;
        let addr = base.wrapping_add(self.offset) as u32 as usize;
        Ok(Some(LoadSpec::new(self.width, addr)))
    }

    /// Execute the instruction against `registers`, with the loaded value `mem`.
    pub fn execute(&self, registers: &mut RegisterFile, mem: i32) -> (r: Result<InstructionResult, ProcessorException>)
        requires
            self.wf(),
            old(registers).wf(),
        ensures
            final(registers).wf(),
            (final(registers)@, r) == self.spec_execute(old(registers)@, mem),
    {
        registers.store(self.dest, mem)?;
        Ok(InstructionResult::default())
    }

    /// Render the instruction as assembly-like text.
    pub fn format(&self) -> (r: String)
        requires
            self.wf(),
        ensures
            r@ == self.spec_format(),
    {
        let mut s = String::from_str("l");
        s.append(self.width.suffix());
        s.append(" ");
        push_reg(&mut s, self.dest);
        s.append(", ");
        push_hex_imm(&mut s, self.offset);
        s.append("(");
        push_reg(&mut s, self.base);
        s.append(")");
        s
    }
}

/// STORE instruction: the low bits of a source register are written at a base register plus
/// the S-format offset.
#[derive(Clone, Copy, Debug, PartialEq, Eq, Structural, Hash)]
pub struct StoreInstruction {
    /// Register holding the value to store.
    pub src: u8,
    /// Base register.
    pub base: u8,
    /// Offset added to the base register.
    pub offset: i32,
    /// Width of the stored value.
    pub width: MemoryAccessType,
}

impl StoreInstruction {
    /// The register numbers are in range.
    pub open spec fn wf(&self) -> bool {
        self.src < 32 && self.base < 32
    }

    /// The register values after execution, and the outcome: a request to store.
    pub open spec fn spec_execute(&self, regs: Seq<i32>) -> (Seq<i32>, Result<InstructionResult, ProcessorException>) {
        (
            regs,
            Ok(InstructionResult {
                jump: None,
                store: Some(StoreSpec {
                    access_type: self.width,
                    addr: effective_address(regs[self.base as int], self.offset),
                    value: regs[self.src as int],
                }),
            }),
        )
    }

    /// The assembly-like text of the instruction.
    pub open spec fn spec_format(&self) -> Seq<char> {
        "s"@ + width_suffix(self.width) + " "@ + reg_name(self.src) + ", "@ + hex_imm(self.offset) + "("@ + reg_name(self.base) + ")"@
    }

    /// The instruction that the parts of a word decode to, or the reason they are illegal.
    pub open spec fn spec_new(instruction: InstructionWordParts) -> Result<Self, ProcessorException> {
        (match spec_store_width(instruction.funct3) {
            Some(width) => Ok(StoreInstruction {
                src: instruction.rs2,
                base: instruction.rs1,
                offset: instruction.imm_s,
                width,
            }),
            None => Err(ProcessorException::IllegalInstruction),
        })
    }

    /// Create the instruction from the parts of its word; `funct3` must select a width.
    pub fn new(instruction: &InstructionWordParts) -> (r: Result<Self, ProcessorException>)
        ensures
            r == Self::spec_new(*instruction),
    {
        let width = match instruction.funct3 {
            0b000 => MemoryAccessType::SignedByte,
            0b001 => MemoryAccessType::SignedHalfWord,
            0b010 => MemoryAccessType::Word,
            _ => return Err(ProcessorException::IllegalInstruction),
        };
        Ok(StoreInstruction { src: instruction.rs2, base: instruction.rs1, offset: instruction.imm_s, width })
    }

    /// Execute the instruction against `registers`.
    pub fn execute(&self, registers: &mut RegisterFile, _mem: i32) -> (r: Result<InstructionResult, ProcessorException>)
        requires
            self.wf(),
            old(registers).wf(),
        ensures
            final(registers).wf(),
            (final(registers)@, r) == self.spec_execute(old(registers)@),
    {
        let src = registers.load(self.src)?;
        let base = registers.load(self.base)?;
        let addr = base.wrapping_add(self.offset) as u32 as usize;
        Ok(InstructionResult::set_store(StoreSpec::new(self.width, addr, src)))
    }

    /// Render the instruction as assembly-like text.
    pub fn format(&self) -> (r: String)
        requires
            self.wf(),
        ensures
            r@ == self.spec_format(),
    {
        let mut s = String::from_str("s");
        s.append(self.width.suffix());
        s.append(" ");
        push_reg(&mut s, self.src);
        s.append(", ");
        push_hex_imm(&mut s, self.offset);
        s.append("(");
        push_reg(&mut s, self.base);
        s.append(")");
        s
    }
}

} // verus!
