//! Read-Only Memory: the boot image.
//!
//! An immutable storage region holding the program that runs from address `0x00000000`.

use crate::error::{MemoryAccessError, ProcessorException};
use crate::mmu::{bytes_of, device_load, Addressable};
use core::ops::Range;
use vstd::prelude::*;

verus! {

/// The boot image device.
#[derive(Debug)]
pub struct ROM {
    contents: Vec<u8>,
}

impl View for ROM {
    type V = Seq<u8>;

    closed spec fn view(&self) -> Seq<u8> {
        self.contents@
    }
}

impl ROM {
    /// Create a boot image holding `contents`.
    pub fn new(contents: Vec<u8>) -> (r: Self)
        ensures
            r@ == contents@,
    {
        ROM { contents }
    }
}

impl Addressable for ROM {
    open spec fn bytes(&self) -> Seq<u8> {
        self@
    }

    fn load_raw(&self, range: Range<usize>) -> (r: Result<&[u8], ProcessorException>)
        ensures
            bytes_of(r) == device_load(self@, range.start as int, range.end as int),
    {
        if range.end > self.contents.len() || range.start > range.end {
            return Err(ProcessorException::InvalidMemoryAccess(MemoryAccessError::OutOfBounds));
        }
        Ok(&self.contents.as_slice()[range])
    }

    fn store_raw(&mut self, range: Range<usize>, values: &[u8]) -> (r: Result<
        (),
        ProcessorException,
    >)
        ensures
            r == Err::<(), ProcessorException>(
                ProcessorException::InvalidMemoryAccess(MemoryAccessError::ReadOnly),
            ),
            final(self)@ == old(self)@,
    {
        Err(ProcessorException::InvalidMemoryAccess(MemoryAccessError::ReadOnly))
    }
}

} // verus!
