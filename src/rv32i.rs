//! The RV32I base instruction set.
//!
//! Eleven opcode handlers decode the instruction words of their opcode into the instructions of
//! the submodules. [`RV32I`] installs all of them into a hart.

pub mod branch;
pub mod fence;
pub mod handlers;
pub mod jump;
pub mod memory;
pub mod op;
pub mod op_imm;
pub mod system;
pub mod upper;

use crate::extension::{Extension, OpcodeHandler};
use crate::hart::Hart;
use handlers::{
    AUIPCHandler, BranchHandler, FenceHandler, JalHandler, JalrHandler, LoadHandler, LuiHandler,
    OpHandler, OpImmHandler, StoreHandler, SystemHandler,
};
use vstd::prelude::*;

verus! {

/// The opcode table `table` with the eleven RV32I handlers installed.
pub open spec fn rv32i_table(table: Seq<Option<OpcodeHandler>>) -> Seq<Option<OpcodeHandler>> {
    table.update(0x03, Some(OpcodeHandler::Load(LoadHandler)))
        .update(0x0f, Some(OpcodeHandler::Fence(FenceHandler)))
        .update(0x13, Some(OpcodeHandler::OpImm(OpImmHandler)))
        .update(0x17, Some(OpcodeHandler::Auipc(AUIPCHandler)))
        .update(0x23, Some(OpcodeHandler::Store(StoreHandler)))
        .update(0x33, Some(OpcodeHandler::Op(OpHandler)))
        .update(0x37, Some(OpcodeHandler::Lui(LuiHandler)))
        .update(0x63, Some(OpcodeHandler::Branch(BranchHandler)))
        .update(0x67, Some(OpcodeHandler::Jalr(JalrHandler)))
        .update(0x6f, Some(OpcodeHandler::Jal(JalHandler)))
        .update(0x73, Some(OpcodeHandler::System(SystemHandler)))
}

/// The RV32I base instruction set, as an extension.
#[derive(Clone, Copy, Debug, PartialEq, Eq, Structural, Hash)]
pub struct RV32I;

impl Extension for RV32I {
    open spec fn install(&self, table: Seq<Option<OpcodeHandler>>) -> Seq<Option<OpcodeHandler>> {
        rv32i_table(table)
    }

    fn code(&self) -> (r: &'static str)
        ensures
            r@ == "RV32I"@,
    {
        "RV32I"
    }

    fn name(&self) -> (r: &'static str)
        ensures
            r@ == "32-bit Base Integer Instruction Set"@,
    {
        "32-bit Base Integer Instruction Set"
    }

    fn register(&self, hart: &mut Hart) {
        hart.set_handler(0x03, OpcodeHandler::Load(LoadHandler));
        hart.set_handler(0x0f, OpcodeHandler::Fence(FenceHandler));
        hart.set_handler(0x13, OpcodeHandler::OpImm(OpImmHandler));
        hart.set_handler(0x17, OpcodeHandler::Auipc(AUIPCHandler));
        hart.set_handler(0x23, OpcodeHandler::Store(StoreHandler));
        hart.set_handler(0x33, OpcodeHandler::Op(OpHandler));
        hart.set_handler(0x37, OpcodeHandler::Lui(LuiHandler));
        hart.set_handler(0x63, OpcodeHandler::Branch(BranchHandler));
        hart.set_handler(0x67, OpcodeHandler::Jalr(JalrHandler));
        hart.set_handler(0x6f, OpcodeHandler::Jal(JalHandler));
        hart.set_handler(0x73, OpcodeHandler::System(SystemHandler));
    }
}

/// Behaviour of a right-shift instruction.
#[derive(Clone, Copy, Debug, PartialEq, Eq, Structural, Hash)]
pub enum RightShiftBehaviour {
    /// Zero-extend.
    Logical,
    /// Sign-extend.
    Arithmetic,
}

/// `a` shifted right by `amount` bits (`amount < 32`), filling with zeros or with the sign bit.
pub open spec fn right_shift(b: RightShiftBehaviour, a: i32, amount: u32) -> i32 {
    match b {
        RightShiftBehaviour::Logical => (a as u32).wrapping_shr(amount) as i32,
        RightShiftBehaviour::Arithmetic => a.wrapping_shr(amount),
    }
}

/// The letter that names a right shift in assembly: `l` or `a`.
pub open spec fn shift_name(b: RightShiftBehaviour) -> Seq<char> {
    match b {
        RightShiftBehaviour::Logical => "l"@,
        RightShiftBehaviour::Arithmetic => "a"@,
    }
}

impl RightShiftBehaviour {
    /// Shift `a` right by `amount` bits.
    pub fn shift(&self, a: i32, amount: u32) -> (r: i32)
        ensures
            r == right_shift(*self, a, amount),
    {
        match self {
            RightShiftBehaviour::Logical => (a as u32).wrapping_shr(amount) as i32,
            RightShiftBehaviour::Arithmetic => a.wrapping_shr(amount),
        }
    }

    /// The letter that names this shift in assembly.
    pub fn name(&self) -> (r: &'static str)
        ensures
            r@ == shift_name(*self),
    {
        match self {
            RightShiftBehaviour::Logical => "l",
            RightShiftBehaviour::Arithmetic => "a",
        }
    }
}

/// The low five bits of a value, as a shift amount, are below 32.
pub proof fn lemma_low_five_bits(x: i32)
    by (bit_vector)
    ensures
        ((x & 0x1f) as u32) < 32,
{
}

} // verus!
