//! Processor registers.
//!
//! A register is a cell with a load and a store operation. The [`GeneralPurposeRegister`] holds a
//! 32-bit value; the [`ZeroRegister`] discards stores and always loads zero. A [`RegisterFile`]
//! maps the 5-bit register numbers to cells: number 0 is a zero register, numbers 1 to 31 are
//! general-purpose.

use crate::error::ProcessorException;
use vstd::prelude::*;

verus! {

/// A 32-bit register.
pub trait Register {
    /// The value that the register currently loads.
    spec fn value(&self) -> i32;

    /// Get the current value stored in this register.
    fn load(&self) -> (r: Result<i32, ProcessorException>)
        ensures
            r == Ok::<i32, ProcessorException>(self.value()),
    ;

    /// Store a value in this register, returning the value it held before.
    fn store(&mut self, val: i32) -> (r: Result<i32, ProcessorException>)
        ensures
            r == Ok::<i32, ProcessorException>(old(self).value()),
    ;
}

/// A general-purpose register: a stored value is reflected in later loads.
#[derive(Clone, Copy, Debug, PartialEq, Eq, Structural, Hash)]
pub struct GeneralPurposeRegister {
    value: i32,
}

impl GeneralPurposeRegister {
    /// Create a general-purpose register holding zero.
    pub fn new() -> (r: Self)
        ensures
            r.value() == 0,
    {
        GeneralPurposeRegister { value: 0 }
    }
}

impl Register for GeneralPurposeRegister {
    closed spec fn value(&self) -> i32 {
        self.value
    }

    fn load(&self) -> (r: Result<i32, ProcessorException>) {
        Ok(self.value)
    }

    fn store(&mut self, val: i32) -> (r: Result<i32, ProcessorException>)
        ensures
            final(self).value() == val,
    {
        let prev = self.value;
        self.value = val;
        Ok(prev)
    }
}

/// A zero register: stores are accepted and discarded, and every load gives zero.
#[derive(Clone, Copy, Debug, PartialEq, Eq, Structural, Hash)]
pub struct ZeroRegister;

impl Register for ZeroRegister {
    open spec fn value(&self) -> i32 {
        0
    }

    fn load(&self) -> (r: Result<i32, ProcessorException>) {
        Ok(0)
    }

    fn store(&mut self, _val: i32) -> (r: Result<i32, ProcessorException>) {
        Ok(0)
    }
}

/// One cell of a register file.
#[derive(Clone, Copy, Debug, PartialEq, Eq, Structural, Hash)]
pub enum RegisterCell {
    /// A cell that always reads zero.
    Zero(ZeroRegister),
    /// A cell that holds the last value stored.
    GeneralPurpose(GeneralPurposeRegister),
}

impl RegisterCell {
    /// The value the cell loads.
    pub open spec fn value(self) -> i32 {
        match self {
            RegisterCell::Zero(z) => z.value(),
            RegisterCell::GeneralPurpose(g) => g.value(),
        }
    }
}

/// Number of registers of the RV32I base instruction set.
pub const NUM_REGISTERS: usize = 32;

/// The register values after storing `v` to register `i` of a register file whose values are
/// `regs`: register 0 discards the store.
pub open spec fn written(regs: Seq<i32>, i: int, v: i32) -> Seq<i32> {
    if i == 0 {
        regs
    } else {
        regs.update(i, v)
    }
}

/// A register file: register 0 is a zero register, registers 1 to 31 are general-purpose.
#[derive(Debug)]
pub struct RegisterFile {
    cells: Vec<RegisterCell>,
}

impl View for RegisterFile {
    type V = Seq<i32>;

    /// The values of the registers, by register number.
    closed spec fn view(&self) -> Seq<i32> {
        Seq::new(self.cells@.len(), |i: int| self.cells@[i].value())
    }
}

impl RegisterFile {
    /// The register file is well formed: 32 cells, the first a zero register and the others
    /// general-purpose.
    pub closed spec fn wf(&self) -> bool {
        &&& self.cells@.len() == NUM_REGISTERS
        &&& self.cells@[0] is Zero
        &&& forall|i: int| 1 <= i < NUM_REGISTERS ==> #[trigger] self.cells@[i] is GeneralPurpose
    }

    /// A register file of 32 registers, all holding zero.
    pub fn new() -> (r: Self)
        ensures
            r.wf(),
            r@ == Seq::new(NUM_REGISTERS as nat, |i: int| 0i32),
    {
        let mut cells: Vec<RegisterCell> = Vec::new();
        cells.push(RegisterCell::Zero(ZeroRegister));
        let mut i: usize = 1;
        while i < NUM_REGISTERS
            invariant
                1 <= i <= NUM_REGISTERS,
                cells@.len() == i,
                cells@[0] is Zero,
                forall|j: int| 1 <= j < i ==> #[trigger] cells@[j] is GeneralPurpose,
                forall|j: int| 0 <= j < i ==> #[trigger] cells@[j].value() == 0,
            decreases NUM_REGISTERS - i,
        {
            cells.push(RegisterCell::GeneralPurpose(GeneralPurposeRegister::new()));
            i = i + 1;
        }
        let r = RegisterFile { cells };
        assert(r@ =~= Seq::new(NUM_REGISTERS as nat, |i: int| 0i32));
        r
    }

    /// A well-formed register file has 32 registers, and register 0 reads zero.
    pub proof fn lemma_wf(&self)
        requires
            self.wf(),
        ensures
            self@.len() == NUM_REGISTERS,
            self@[0] == 0,
    {
    }

    /// Load register `idx`.
    pub fn load(&self, idx: u8) -> (r: Result<i32, ProcessorException>)
        requires
            self.wf(),
            idx < NUM_REGISTERS,
        ensures
            r == Ok::<i32, ProcessorException>(self@[idx as int]),
    {
        match self.cells[idx as usize] {
            RegisterCell::Zero(z) => z.load(),
            RegisterCell::GeneralPurpose(g) => g.load(),
        }
    }

    /// Store `val` to register `idx`, returning the value it held before. A store to register 0
    /// is discarded.
    pub fn store(&mut self, idx: u8, val: i32) -> (r: Result<i32, ProcessorException>)
        requires
            old(self).wf(),
            idx < NUM_REGISTERS,
        ensures
            final(self).wf(),
            r == Ok::<i32, ProcessorException>(old(self)@[idx as int]),
            final(self)@ == written(old(self)@, idx as int, val),
    {
        let i = idx as usize;
        let mut cell = self.cells[i];
        let r = match &mut cell {
            RegisterCell::Zero(z) => z.store(val),
            RegisterCell::GeneralPurpose(g) => g.store(val),
        };
        self.cells.set(i, cell);
        assert(self@ =~= written(old(self)@, idx as int, val));
        r
    }

    /// The values of all registers, by register number.
    pub fn values(&self) -> (r: Vec<i32>)
        requires
            self.wf(),
        ensures
            r@ == self@,
    {
        let mut out: Vec<i32> = Vec::new();
        let mut i: usize = 0;
        while i < NUM_REGISTERS
            invariant
                self.wf(),
                i <= NUM_REGISTERS,
                out@ == self@.subrange(0, i as int),
            decreases NUM_REGISTERS - i,
        {
            let v = match self.load(i as u8) {
                Ok(v) => v,
                Err(_) => 0,
            };
            out.push(v);
            i = i + 1;
        }
        out
    }
}

/// Register 0 is a sink: whatever value is stored to it, it reads zero afterwards, and the
/// register file keeps its 32 registers.
pub proof fn lemma_zero_register_sink(regs: RegisterFile, v: i32)
    requires
        regs.wf(),
    ensures
        written(regs@, 0, v)[0] == 0,
        written(regs@, 0, v).len() == NUM_REGISTERS,
{
}

} // verus!
