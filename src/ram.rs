//! Random Access Memory: a volatile, writable storage region.

use crate::error::{MemoryAccessError, ProcessorException};
use crate::mmu::{bytes_of, device_load, device_store, Addressable};
use core::ops::Range;
use vstd::prelude::*;

verus! {

/// The RAM device.
#[derive(Debug)]
pub struct RAM {
    contents: Vec<u8>,
}

impl View for RAM {
    type V = Seq<u8>;

    closed spec fn view(&self) -> Seq<u8> {
        self.contents@
    }
}

impl RAM {
    /// Create a zero-filled RAM device of `size` bytes.
    pub fn new(size: usize) -> (r: Self)
        ensures
            r@ == Seq::new(size as nat, |i: int| 0u8),
    {
        let contents = vec![0u8; size];
        assert(contents@ =~= Seq::new(size as nat, |i: int| 0u8));
        RAM { contents }
    }
}

impl RAM {
    /// The size of the RAM in bytes.
    pub fn len(&self) -> (r: usize)
        ensures
            r == self@.len(),
    {
        self.contents.len()
    }
}

impl Addressable for RAM {
    open spec fn bytes(&self) -> Seq<u8> {
        self@
    }

    fn load_raw(&self, range: Range<usize>) -> (r: Result<&[u8], ProcessorException>)
        ensures
            bytes_of(r) == device_load(self@, range.start as int, range.end as int),
    {
        if range.end > self.contents.len() || range.start > range.end {
            return Err(ProcessorException::InvalidMemoryAccess(MemoryAccessError::OutOfBounds));
        }
        Ok(&self.contents.as_slice()[range])
    }

    fn store_raw(&mut self, range: Range<usize>, values: &[u8]) -> (r: Result<
        (),
        ProcessorException,
    >)
        ensures
            (final(self)@, r) == device_store(
                old(self)@,
                range.start as int,
                range.end as int,
                values@,
            ),
    {
        if range.end > self.contents.len() || range.start > range.end {
            return Err(ProcessorException::InvalidMemoryAccess(MemoryAccessError::OutOfBounds));
        } else if values.len() != range.end - range.start {
            return Err(ProcessorException::InvalidMemoryAccess(MemoryAccessError::LengthMismatch));
        }
        let start = range.start;
        let end = range.end;
        let ghost before = self.contents@;
        let mut i: usize = start;
        while i < end
            invariant
                start <= i <= end,
                end <= before.len(),
                values@.len() == end - start,
                self.contents@.len() == before.len(),
                forall|j: int|
                    0 <= j < before.len() ==> #[trigger] self.contents@[j] == if start <= j < i {
                        values@[j - start]
                    } else {
                        before[j]
                    },
            decreases end - i,
        {
            self.contents.set(i, values[i - start]);
            i = i + 1;
        }
        assert(self.contents@ =~= before.subrange(0, start as int) + values@ + before.subrange(
            end as int,
            before.len() as int,
        ));
        Ok(())
    }
}

} // verus!
