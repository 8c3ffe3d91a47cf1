//! Error types.

use vstd::prelude::*;

verus! {

/// An exception relating to a load/store from the MMU.
#[derive(Clone, Copy, Debug, PartialEq, Eq, Structural, Hash)]
pub enum MemoryAccessError {
    /// Tried to load/store from a range which is (at least partially) out of bounds.
    ///
    /// This indicates the load/store overlapped with a portion of the address space which is not
    /// mapped to a memory device.
    OutOfBounds,
    /// Tried to store to a range which is read-only, such as the boot image.
    ReadOnly,
    /// Mismatch in the length of the value to store and the range to which it should be stored.
    ///
    /// This indicates an error in the implementation of the processor or MMU, not an error on
    /// the part of the emulated program.
    LengthMismatch,
}

/// An exception encountered by a hart during execution.
#[derive(Clone, Copy, Debug, PartialEq, Eq, Structural, Hash)]
pub enum ProcessorException {
    /// Tried to decode an unrecognised instruction.
    IllegalInstruction,
    /// Tried to jump to an address that is not a multiple of four.
    InstructionAddressMisaligned,
    /// Attempted an invalid memory load/store.
    InvalidMemoryAccess(MemoryAccessError),
    /// Encountered an unhandled `ECALL` instruction.
    EnvironmentCall,
    /// Encountered an unhandled `EBREAK` instruction.
    EnvironmentBreak,
}

impl From<MemoryAccessError> for ProcessorException {
    fn from(value: MemoryAccessError) -> (r: Self)
        ensures
            r == ProcessorException::InvalidMemoryAccess(value),
    {
        ProcessorException::InvalidMemoryAccess(value)
    }
}

impl vstd::std_specs::convert::FromSpecImpl<MemoryAccessError> for ProcessorException {
    open spec fn obeys_from_spec() -> bool {
        true
    }

    open spec fn from_spec(v: MemoryAccessError) -> Self {
        ProcessorException::InvalidMemoryAccess(v)
    }
}

/// Helper trait for adding a program counter value to an error.
pub trait WithPC<T, E>: Sized {
    /// Pairs the error value of this result with the program counter `pc`.
    fn with_pc(self, pc: u32) -> Result<T, (E, u32)>;
}

impl<T, E> WithPC<T, E> for Result<T, E> {
    fn with_pc(self, pc: u32) -> (r: Result<T, (E, u32)>)
        ensures
            r == tag_pc(self, pc),
    {
        match self {
            Ok(v) => Ok(v),
            Err(e) => Err((e, pc)),
        }
    }
}

/// The result `r` with its error, if any, paired with the program counter `pc`.
pub open spec fn tag_pc<T, E>(r: Result<T, E>, pc: u32) -> Result<T, (E, u32)> {
    match r {
        Ok(v) => Ok(v),
        Err(e) => Err((e, pc)),
    }
}

} // verus!
