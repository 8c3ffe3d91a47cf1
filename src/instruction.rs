//! Decoded instructions and the result of executing them.
//!
//! An [`Instruction`] is what an opcode handler produces from an instruction word. The hart keeps
//! it for one cycle: it may announce a memory load when it is decoded, then it is executed against
//! the register file and the loaded value, and it can be rendered as assembly-like text.

use crate::error::ProcessorException;
use crate::mmu::{LoadSpec, StoreSpec};
use crate::register::RegisterFile;
use crate::rv32i::branch::{BranchInstruction};
use crate::rv32i::fence::{FenceInstruction};
use crate::rv32i::jump::{JalInstruction, JalrInstruction};
use crate::rv32i::memory::{LoadInstruction, StoreInstruction};
use crate::rv32i::op::{ArithmeticInstruction, SltInstruction, SltUInstruction, AndInstruction, OrInstruction, XorInstruction, SllInstruction, SrInstruction};
use crate::rv32i::op_imm::{AddIInstruction, SltIInstruction, SltIUInstruction, AndIInstruction, OrIInstruction, XorIInstruction, SllIInstruction, SrIInstruction};
use crate::rv32i::system::{ECallInstruction, EBreakInstruction};
use crate::rv32i::upper::{LuiInstruction, AUIPCInstruction};
use vstd::prelude::*;

verus! {

/// Result of executing an instruction: whether the hart must jump, and whether a value must be
/// stored to memory.
#[derive(Clone, Copy, Debug, PartialEq, Eq, Structural, Hash)]
pub struct InstructionResult {
    /// If set to `Some(addr)`, the hart jumps to `addr` after the instruction.
    pub jump: Option<u32>,
    /// If set, a value is stored to memory as the [`StoreSpec`] describes.
    pub store: Option<StoreSpec>,
}

/// The result of an instruction that neither jumps nor stores.
pub open spec fn no_effect() -> InstructionResult {
    InstructionResult { jump: None, store: None }
}

impl Default for InstructionResult {
    fn default() -> (r: Self)
        ensures
            r == no_effect(),
    {
        InstructionResult { jump: None, store: None }
    }
}

impl InstructionResult {
    /// A result that makes the hart jump to `addr`.
    pub fn set_jump(addr: u32) -> (r: Self)
        ensures
            r == (InstructionResult { jump: Some(addr), store: None }),
    {
        let mut result = InstructionResult::default();
        result.jump = Some(addr);
        result
    }

    /// A result that makes the processor store a value to memory as `store` describes.
    pub fn set_store(store: StoreSpec) -> (r: Self)
        ensures
            r == (InstructionResult { jump: None, store: Some(store) }),
    {
        let mut result = InstructionResult::default();
        result.store = Some(store);
        result
    }
}

/// A decoded instruction of the RV32I base instruction set.
#[derive(Clone, Copy, Debug, PartialEq, Eq, Structural, Hash)]
pub enum Instruction {
    /// A decoded `LuiInstruction`.
    Lui(LuiInstruction),
    /// A decoded `AUIPCInstruction`.
    Auipc(AUIPCInstruction),
    /// A decoded `JalInstruction`.
    Jal(JalInstruction),
    /// A decoded `JalrInstruction`.
    Jalr(JalrInstruction),
    /// A decoded `BranchInstruction`.
    Branch(BranchInstruction),
    /// A decoded `LoadInstruction`.
    Load(LoadInstruction),
    /// A decoded `StoreInstruction`.
    Store(StoreInstruction),
    /// A decoded `FenceInstruction`.
    Fence(FenceInstruction),
    /// A decoded `ECallInstruction`.
    ECall(ECallInstruction),
    /// A decoded `EBreakInstruction`.
    EBreak(EBreakInstruction),
    /// A decoded `ArithmeticInstruction`.
    Arithmetic(ArithmeticInstruction),
    /// A decoded `SltInstruction`.
    Slt(SltInstruction),
    /// A decoded `SltUInstruction`.
    SltU(SltUInstruction),
    /// A decoded `AndInstruction`.
    And(AndInstruction),
    /// A decoded `OrInstruction`.
    Or(OrInstruction),
    /// A decoded `XorInstruction`.
    Xor(XorInstruction),
    /// A decoded `SllInstruction`.
    Sll(SllInstruction),
    /// A decoded `SrInstruction`.
    Sr(SrInstruction),
    /// A decoded `AddIInstruction`.
    AddI(AddIInstruction),
    /// A decoded `SltIInstruction`.
    SltI(SltIInstruction),
    /// A decoded `SltIUInstruction`.
    SltIU(SltIUInstruction),
    /// A decoded `AndIInstruction`.
    AndI(AndIInstruction),
    /// A decoded `OrIInstruction`.
    OrI(OrIInstruction),
    /// A decoded `XorIInstruction`.
    XorI(XorIInstruction),
    /// A decoded `SllIInstruction`.
    SllI(SllIInstruction),
    /// A decoded `SrIInstruction`.
    SrI(SrIInstruction),
}

impl Instruction {
    /// The register numbers and shift amounts of the instruction are in range.
    pub open spec fn wf(&self) -> bool {
        match self {
            Instruction::Lui(i) => i.wf(),
            Instruction::Auipc(i) => i.wf(),
            Instruction::Jal(i) => i.wf(),
            Instruction::Jalr(i) => i.wf(),
            Instruction::Branch(i) => i.wf(),
            Instruction::Load(i) => i.wf(),
            Instruction::Store(i) => i.wf(),
            Instruction::Fence(i) => true,
            Instruction::ECall(i) => true,
            Instruction::EBreak(i) => true,
            Instruction::Arithmetic(i) => i.wf(),
            Instruction::Slt(i) => i.wf(),
            Instruction::SltU(i) => i.wf(),
            Instruction::And(i) => i.wf(),
            Instruction::Or(i) => i.wf(),
            Instruction::Xor(i) => i.wf(),
            Instruction::Sll(i) => i.wf(),
            Instruction::Sr(i) => i.wf(),
            Instruction::AddI(i) => i.wf(),
            Instruction::SltI(i) => i.wf(),
            Instruction::SltIU(i) => i.wf(),
            Instruction::AndI(i) => i.wf(),
            Instruction::OrI(i) => i.wf(),
            Instruction::XorI(i) => i.wf(),
            Instruction::SllI(i) => i.wf(),
            Instruction::SrI(i) => i.wf(),
        }
    }

    /// The memory load that the instruction needs before it executes, given the register values
    /// `regs`. Only LOAD instructions need one.
    pub open spec fn spec_load(&self, regs: Seq<i32>) -> Option<LoadSpec> {
        match self {
            Instruction::Load(i) => Some(i.spec_load(regs)),
            _ => None,
        }
    }

    /// The register values after executing the instruction against the register values `regs`
    /// and the loaded value `mem`, and the outcome.
    pub open spec fn spec_execute(&self, regs: Seq<i32>, mem: i32) -> (Seq<i32>, Result<InstructionResult, ProcessorException>) {
        match self {
            Instruction::Lui(i) => i.spec_execute(regs),
            Instruction::Auipc(i) => i.spec_execute(regs),
            Instruction::Jal(i) => i.spec_execute(regs),
            Instruction::Jalr(i) => i.spec_execute(regs),
            Instruction::Branch(i) => i.spec_execute(regs),
            Instruction::Load(i) => i.spec_execute(regs, mem),
            Instruction::Store(i) => i.spec_execute(regs),
            Instruction::Fence(i) => i.spec_execute(regs),
            Instruction::ECall(i) => (regs, Err(ProcessorException::EnvironmentCall)),
            Instruction::EBreak(i) => (regs, Err(ProcessorException::EnvironmentBreak)),
            Instruction::Arithmetic(i) => i.spec_execute(regs),
            Instruction::Slt(i) => i.spec_execute(regs),
            Instruction::SltU(i) => i.spec_execute(regs),
            Instruction::And(i) => i.spec_execute(regs),
            Instruction::Or(i) => i.spec_execute(regs),
            Instruction::Xor(i) => i.spec_execute(regs),
            Instruction::Sll(i) => i.spec_execute(regs),
            Instruction::Sr(i) => i.spec_execute(regs),
            Instruction::AddI(i) => i.spec_execute(regs),
            Instruction::SltI(i) => i.spec_execute(regs),
            Instruction::SltIU(i) => i.spec_execute(regs),
            Instruction::AndI(i) => i.spec_execute(regs),
            Instruction::OrI(i) => i.spec_execute(regs),
            Instruction::XorI(i) => i.spec_execute(regs),
            Instruction::SllI(i) => i.spec_execute(regs),
            Instruction::SrI(i) => i.spec_execute(regs),
        }
    }

    /// The assembly-like text of the instruction.
    pub open spec fn spec_format(&self) -> Seq<char> {
        match self {
            Instruction::Lui(i) => i.spec_format(),
            Instruction::Auipc(i) => i.spec_format(),
            Instruction::Jal(i) => i.spec_format(),
            Instruction::Jalr(i) => i.spec_format(),
            Instruction::Branch(i) => i.spec_format(),
            Instruction::Load(i) => i.spec_format(),
            Instruction::Store(i) => i.spec_format(),
            Instruction::Fence(i) => i.spec_format(),
            Instruction::ECall(i) => "ecall"@,
            Instruction::EBreak(i) => "ebreak"@,
            Instruction::Arithmetic(i) => i.spec_format(),
            Instruction::Slt(i) => i.spec_format(),
            Instruction::SltU(i) => i.spec_format(),
            Instruction::And(i) => i.spec_format(),
            Instruction::Or(i) => i.spec_format(),
            Instruction::Xor(i) => i.spec_format(),
            Instruction::Sll(i) => i.spec_format(),
            Instruction::Sr(i) => i.spec_format(),
            Instruction::AddI(i) => i.spec_format(),
            Instruction::SltI(i) => i.spec_format(),
            Instruction::SltIU(i) => i.spec_format(),
            Instruction::AndI(i) => i.spec_format(),
            Instruction::OrI(i) => i.spec_format(),
            Instruction::XorI(i) => i.spec_format(),
            Instruction::SllI(i) => i.spec_format(),
            Instruction::SrI(i) => i.spec_format(),
        }
    }

    /// The memory load this instruction needs before it executes, if any.
    pub fn load(&self, registers: &RegisterFile) -> (r: Result<Option<LoadSpec>, ProcessorException>)
        requires
            self.wf(),
            registers.wf(),
        ensures
            r == Ok::<Option<LoadSpec>, ProcessorException>(self.spec_load(registers@)),
    {
        match self {
            Instruction::Load(i) => i.load(registers),
            _ => Ok(None),
        }
    }

    /// Execute this instruction against `registers`, with the loaded value `mem` (0 when the
    /// instruction needed no load).
    pub fn execute(&self, registers: &mut RegisterFile, mem: i32) -> (r: Result<InstructionResult, ProcessorException>)
        requires
            self.wf(),
            old(registers).wf(),
        ensures
            final(registers).wf(),
            (final(registers)@, r) == self.spec_execute(old(registers)@, mem),
    {
        match self {
            Instruction::Lui(i) => i.execute(registers, mem),
            Instruction::Auipc(i) => i.execute(registers, mem),
            Instruction::Jal(i) => i.execute(registers, mem),
            Instruction::Jalr(i) => i.execute(registers, mem),
            Instruction::Branch(i) => i.execute(registers, mem),
            Instruction::Load(i) => i.execute(registers, mem),
            Instruction::Store(i) => i.execute(registers, mem),
            Instruction::Fence(i) => i.execute(registers, mem),
            Instruction::ECall(i) => i.execute(registers, mem),
            Instruction::EBreak(i) => i.execute(registers, mem),
            Instruction::Arithmetic(i) => i.execute(registers, mem),
            Instruction::Slt(i) => i.execute(registers, mem),
            Instruction::SltU(i) => i.execute(registers, mem),
            Instruction::And(i) => i.execute(registers, mem),
            Instruction::Or(i) => i.execute(registers, mem),
            Instruction::Xor(i) => i.execute(registers, mem),
            Instruction::Sll(i) => i.execute(registers, mem),
            Instruction::Sr(i) => i.execute(registers, mem),
            Instruction::AddI(i) => i.execute(registers, mem),
            Instruction::SltI(i) => i.execute(registers, mem),
            Instruction::SltIU(i) => i.execute(registers, mem),
            Instruction::AndI(i) => i.execute(registers, mem),
            Instruction::OrI(i) => i.execute(registers, mem),
            Instruction::XorI(i) => i.execute(registers, mem),
            Instruction::SllI(i) => i.execute(registers, mem),
            Instruction::SrI(i) => i.execute(registers, mem),
        }
    }

    /// Render this instruction as assembly-like text, such as `addi x5, x6, 0x00000010`.
    pub fn format(&self) -> (r: String)
        requires
            self.wf(),
        ensures
            r@ == self.spec_format(),
    {
        match self {
            Instruction::Lui(i) => i.format(),
            Instruction::Auipc(i) => i.format(),
            Instruction::Jal(i) => i.format(),
            Instruction::Jalr(i) => i.format(),
            Instruction::Branch(i) => i.format(),
            Instruction::Load(i) => i.format(),
            Instruction::Store(i) => i.format(),
            Instruction::Fence(i) => i.format(),
            Instruction::ECall(i) => i.format(),
            Instruction::EBreak(i) => i.format(),
            Instruction::Arithmetic(i) => i.format(),
            Instruction::Slt(i) => i.format(),
            Instruction::SltU(i) => i.format(),
            Instruction::And(i) => i.format(),
            Instruction::Or(i) => i.format(),
            Instruction::Xor(i) => i.format(),
            Instruction::Sll(i) => i.format(),
            Instruction::Sr(i) => i.format(),
            Instruction::AddI(i) => i.format(),
            Instruction::SltI(i) => i.format(),
            Instruction::SltIU(i) => i.format(),
            Instruction::AndI(i) => i.format(),
            Instruction::OrI(i) => i.format(),
            Instruction::XorI(i) => i.format(),
            Instruction::SllI(i) => i.format(),
            Instruction::SrI(i) => i.format(),
        }
    }
}

} // verus!
