//! ISA extensions and the opcode handlers they install.
//!
//! An extension installs [`OpcodeHandler`]s into a hart's opcode table, keyed by the 7-bit
//! opcode. Installation is imperative and overwriting, so a later extension can replace the
//! handler of an opcode that an earlier one installed.

use crate::error::ProcessorException;
use crate::hart::Hart;
use crate::instruction::Instruction;
use crate::parts::{InstructionParts, InstructionWordParts};
use crate::rv32i::handlers::{
    AUIPCHandler, BranchHandler, FenceHandler, JalHandler, JalrHandler, LoadHandler, LuiHandler,
    OpHandler, OpImmHandler, StoreHandler, SystemHandler,
};
use vstd::prelude::*;

verus! {

/// A decoder for the instructions of one opcode.
#[derive(Clone, Copy, Debug, PartialEq, Eq, Structural, Hash)]
pub enum OpcodeHandler {
    /// The LOAD opcode.
    Load(LoadHandler),
    /// The MISC-MEM opcode (FENCE).
    Fence(FenceHandler),
    /// The OP-IMM opcode.
    OpImm(OpImmHandler),
    /// The AUIPC opcode.
    Auipc(AUIPCHandler),
    /// The STORE opcode.
    Store(StoreHandler),
    /// The OP opcode.
    Op(OpHandler),
    /// The LUI opcode.
    Lui(LuiHandler),
    /// The BRANCH opcode.
    Branch(BranchHandler),
    /// The JALR opcode.
    Jalr(JalrHandler),
    /// The JAL opcode.
    Jal(JalHandler),
    /// The SYSTEM opcode.
    System(SystemHandler),
}

impl OpcodeHandler {
    /// What the handler decodes the parts `w`, found at address `pc`, to.
    pub open spec fn spec_decode(self, w: InstructionWordParts, pc: u32) -> Result<
        Instruction,
        ProcessorException,
    > {
        match self {
            OpcodeHandler::Load(_) => LoadHandler::spec_decode(w),
            OpcodeHandler::Fence(_) => FenceHandler::spec_decode(w),
            OpcodeHandler::OpImm(_) => OpImmHandler::spec_decode(w),
            OpcodeHandler::Auipc(_) => AUIPCHandler::spec_decode(w, pc),
            OpcodeHandler::Store(_) => StoreHandler::spec_decode(w),
            OpcodeHandler::Op(_) => OpHandler::spec_decode(w),
            OpcodeHandler::Lui(_) => LuiHandler::spec_decode(w),
            OpcodeHandler::Branch(_) => BranchHandler::spec_decode(w, pc),
            OpcodeHandler::Jalr(_) => JalrHandler::spec_decode(w, pc),
            OpcodeHandler::Jal(_) => JalHandler::spec_decode(w, pc),
            OpcodeHandler::System(_) => SystemHandler::spec_decode(w),
        }
    }

    /// Decode `instruction`, found at address `pc`, into an instruction, or fail with
    /// `IllegalInstruction` when its encoding is invalid for the opcode.
    pub fn decode(&self, instruction: InstructionParts, pc: u32) -> (r: Result<
        Instruction,
        ProcessorException,
    >)
        requires
            instruction.spec_word().wf(),
        ensures
            r == self.spec_decode(instruction.spec_word(), pc),
            r matches Ok(i) ==> i.wf(),
    {
        match self {
            OpcodeHandler::Load(h) => h.decode(instruction, pc),
            OpcodeHandler::Fence(h) => h.decode(instruction, pc),
            OpcodeHandler::OpImm(h) => h.decode(instruction, pc),
            OpcodeHandler::Auipc(h) => h.decode(instruction, pc),
            OpcodeHandler::Store(h) => h.decode(instruction, pc),
            OpcodeHandler::Op(h) => h.decode(instruction, pc),
            OpcodeHandler::Lui(h) => h.decode(instruction, pc),
            OpcodeHandler::Branch(h) => h.decode(instruction, pc),
            OpcodeHandler::Jalr(h) => h.decode(instruction, pc),
            OpcodeHandler::Jal(h) => h.decode(instruction, pc),
            OpcodeHandler::System(h) => h.decode(instruction, pc),
        }
    }
}

/// A RISC-V ISA extension: a set of opcode handlers to install into a hart.
pub trait Extension {
    /// The short name of the extension in the RISC-V specification, such as `"M"`.
    fn code(&self) -> &'static str;

    /// A human-readable name of the extension.
    fn name(&self) -> &'static str;

    /// The opcode table after installing this extension into a hart whose table is `table`.
    spec fn install(&self, table: Seq<Option<OpcodeHandler>>) -> Seq<Option<OpcodeHandler>>;

    /// Install this extension's opcode handlers into `hart`.
    ///
    /// Only the opcode table changes: the registers and the pipeline state stay as they were.
    fn register(&self, hart: &mut Hart)
        requires
            old(hart).wf(),
        ensures
            final(hart).wf(),
            final(hart).state() == old(hart).state(),
            final(hart).handlers() == self.install(old(hart).handlers()),
    ;
}

} // verus!
