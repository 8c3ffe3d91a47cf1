//! Memory Management Unit (MMU).
//!
//! The processor reaches every memory-mapped device through one flat 32-bit address space. The
//! MMU divides that space between its devices: addresses with the top bit clear route to the boot
//! image at offset `addr`, addresses with the top bit set route to RAM at offset
//! `addr & 0x7fffffff`.

use crate::error::{MemoryAccessError, ProcessorException};
use crate::ram::RAM;
use crate::rom::ROM;
use core::ops::Range;
use vstd::prelude::*;

verus! {

/// Width of a value to load from or store to memory.
///
/// Loads always produce an `i32` for a register: narrower values are sign-extended (signed
/// widths) or zero-extended (unsigned widths) to 32 bits. Stores write the low bits of a value.
#[derive(Clone, Copy, Debug, PartialEq, Eq, Structural, Hash)]
pub enum MemoryAccessType {
    /// A 32-bit word.
    Word,
    /// A half-word, sign-extended to 32 bits.
    SignedHalfWord,
    /// A half-word, zero-extended to 32 bits.
    UnsignedHalfWord,
    /// A byte, sign-extended to 32 bits.
    SignedByte,
    /// A byte, zero-extended to 32 bits.
    UnsignedByte,
}

/// The assembly suffix of a width: `w`, `h`, `hu`, `b` or `bu`.
pub open spec fn width_suffix(w: MemoryAccessType) -> Seq<char> {
    match w {
        MemoryAccessType::Word => seq!['w'],
        MemoryAccessType::SignedHalfWord => seq!['h'],
        MemoryAccessType::UnsignedHalfWord => seq!['h', 'u'],
        MemoryAccessType::SignedByte => seq!['b'],
        MemoryAccessType::UnsignedByte => seq!['b', 'u'],
    }
}

/// Number of bytes that a width covers.
pub open spec fn width_bytes(w: MemoryAccessType) -> int {
    match w {
        MemoryAccessType::Word => 4,
        MemoryAccessType::SignedHalfWord | MemoryAccessType::UnsignedHalfWord => 2,
        MemoryAccessType::SignedByte | MemoryAccessType::UnsignedByte => 1,
    }
}

impl MemoryAccessType {
    /// The assembly suffix of this width, as used in `lw`, `lhu`, `sb` and the like.
    pub fn suffix(&self) -> (r: &'static str)
        ensures
            r@ == width_suffix(*self),
    {
        match self {
            MemoryAccessType::Word => {
                proof {
                    reveal_strlit("w");
                }
                "w"
            },
            MemoryAccessType::SignedHalfWord => {
                proof {
                    reveal_strlit("h");
                }
                "h"
            },
            MemoryAccessType::UnsignedHalfWord => {
                proof {
                    reveal_strlit("hu");
                }
                "hu"
            },
            MemoryAccessType::SignedByte => {
                proof {
                    reveal_strlit("b");
                }
                "b"
            },
            MemoryAccessType::UnsignedByte => {
                proof {
                    reveal_strlit("bu");
                }
                "bu"
            },
        }
    }
}

/// Specification for loading a value from memory.
#[derive(Clone, Copy, Debug, PartialEq, Eq, Structural, Hash)]
pub struct LoadSpec {
    /// Width of the value to load.
    pub access_type: MemoryAccessType,
    /// Address of the value to load.
    pub addr: usize,
}

impl LoadSpec {
    /// Create a new LoadSpec.
    pub fn new(width: MemoryAccessType, addr: usize) -> (r: Self)
        ensures
            r == (LoadSpec { access_type: width, addr }),
    {
        LoadSpec { access_type: width, addr }
    }
}

/// Specification for storing a value to memory.
#[derive(Clone, Copy, Debug, PartialEq, Eq, Structural, Hash)]
pub struct StoreSpec {
    /// Width of the value to store: only the low bits of `value` that this covers are written.
    pub access_type: MemoryAccessType,
    /// Address at which the value should be stored.
    pub addr: usize,
    /// Value to store.
    pub value: i32,
}

impl StoreSpec {
    /// Create a new StoreSpec.
    pub fn new(width: MemoryAccessType, addr: usize, value: i32) -> (r: Self)
        ensures
            r == (StoreSpec { access_type: width, addr, value }),
    {
        StoreSpec { access_type: width, addr, value }
    }
}

/// The bytes of a load result, or its error.
pub open spec fn bytes_of(r: Result<&[u8], ProcessorException>) -> Result<Seq<u8>, ProcessorException> {
    match r {
        Ok(s) => Ok(s@),
        Err(e) => Err(e),
    }
}

/// The error for an access outside a device.
pub open spec fn out_of_bounds() -> ProcessorException {
    ProcessorException::InvalidMemoryAccess(MemoryAccessError::OutOfBounds)
}

/// Loading the bytes at offsets `start..end` of a device holding `bytes`.
pub open spec fn device_load(bytes: Seq<u8>, start: int, end: int) -> Result<
    Seq<u8>,
    ProcessorException,
> {
    if end > bytes.len() || start > end {
        Err(out_of_bounds())
    } else {
        Ok(bytes.subrange(start, end))
    }
}

/// Storing `values` at offsets `start..end` of a writable device holding `bytes`: the new
/// contents and the outcome.
pub open spec fn device_store(bytes: Seq<u8>, start: int, end: int, values: Seq<u8>) -> (
    Seq<u8>,
    Result<(), ProcessorException>,
) {
    if end > bytes.len() || start > end {
        (bytes, Err(out_of_bounds()))
    } else if values.len() != end - start {
        (bytes, Err(ProcessorException::InvalidMemoryAccess(MemoryAccessError::LengthMismatch)))
    } else {
        (bytes.subrange(0, start) + values + bytes.subrange(end, bytes.len() as int), Ok(()))
    }
}

/// A device that can be mapped into the address space.
pub trait Addressable {
    /// The current contents of the device.
    spec fn bytes(&self) -> Seq<u8>;

    /// Load the bytes at device offsets `range`.
    ///
    /// Fails with `OutOfBounds` when the range does not lie within the device.
    fn load_raw(&self, range: Range<usize>) -> (r: Result<&[u8], ProcessorException>)
        ensures
            bytes_of(r) == device_load(self.bytes(), range.start as int, range.end as int),
    ;

    /// Store `values` at device offsets `range`.
    ///
    /// Fails, leaving the device as it was, when the range does not lie within the device,
    /// when `values` has another length than the range, or when the device is read-only.
    fn store_raw(&mut self, range: Range<usize>, values: &[u8]) -> (r: Result<
        (),
        ProcessorException,
    >)
        ensures
            r is Ok ==> (final(self).bytes(), r) == device_store(
                old(self).bytes(),
                range.start as int,
                range.end as int,
                values@,
            ),
            r is Err ==> final(self).bytes() == old(self).bytes(),
    ;
}

/// Mask selecting the top bit of a 32-bit address: set for RAM, clear for the boot image.
pub const RAM_BIT: usize = 0x80000000;

/// Mask giving the RAM offset of an address.
pub const RAM_OFFSET_MASK: usize = 0x7fffffff;

/// The RAM offset just past a range of addresses `start..end` that routes to RAM: the masked
/// start offset plus the length of the range. It is below the start offset for a range that
/// ends before it starts.
pub open spec fn ram_end(start: usize, end: usize) -> int {
    (start & RAM_OFFSET_MASK) + (end - start)
}

/// Loading the bytes at addresses `start..end` from the address space of a boot image `rom`
/// and a RAM `ram`. A RAM range keeps its length, so one that runs past the end of RAM fails.
pub open spec fn mmu_load(rom: Seq<u8>, ram: Seq<u8>, start: usize, end: usize) -> Result<
    Seq<u8>,
    ProcessorException,
> {
    if start & RAM_BIT == 0 {
        device_load(rom, start as int, end as int)
    } else {
        device_load(ram, (start & RAM_OFFSET_MASK) as int, ram_end(start, end))
    }
}

/// Storing `values` at addresses `start..end`: the new RAM contents and the outcome.
///
/// The boot image is read-only, so every store that routes to it fails.
pub open spec fn mmu_store(ram: Seq<u8>, start: usize, end: usize, values: Seq<u8>) -> (
    Seq<u8>,
    Result<(), ProcessorException>,
) {
    if start & RAM_BIT == 0 {
        (ram, Err(ProcessorException::InvalidMemoryAccess(MemoryAccessError::ReadOnly)))
    } else {
        device_store(ram, (start & RAM_OFFSET_MASK) as int, ram_end(start, end), values)
    }
}

/// The little-endian value of the first `n` bytes of `b` (`n` is 1, 2 or 4).
pub open spec fn le_value(b: Seq<u8>, n: int) -> u32 {
    if n == 1 {
        b[0] as u32
    } else if n == 2 {
        (b[0] + 256 * b[1]) as u32
    } else {
        (b[0] + 256 * b[1] + 65536 * b[2] + 16777216 * b[3]) as u32
    }
}

/// The end address of an access of `n` bytes at `addr`, if it can be represented.
pub open spec fn access_end(addr: usize, n: int) -> Option<usize> {
    if addr + n <= usize::MAX {
        Some((addr + n) as usize)
    } else {
        None
    }
}

/// The unsigned little-endian value of the `n` bytes at `addr` (`n` is 1, 2 or 4).
pub open spec fn mmu_load_le(rom: Seq<u8>, ram: Seq<u8>, addr: usize, n: int) -> Result<
    u32,
    ProcessorException,
> {
    match access_end(addr, n) {
        None => Err(out_of_bounds()),
        Some(end) => match mmu_load(rom, ram, addr, end) {
            Ok(b) => Ok(le_value(b, n)),
            Err(e) => Err(e),
        },
    }
}

/// A half-word, sign-extended to 32 bits.
pub open spec fn sign_extend_half(h: u32) -> i32 {
    (if h < 0x8000 {
        h as int
    } else {
        h - 0x10000
    }) as i32
}

/// A byte, sign-extended to 32 bits.
pub open spec fn sign_extend_byte(b: u32) -> i32 {
    (if b < 0x80 {
        b as int
    } else {
        b - 0x100
    }) as i32
}

/// The value that a typed load reads from the address space of `rom` and `ram`, sign- or
/// zero-extended to 32 bits as its width says.
pub open spec fn mmu_load_typed(rom: Seq<u8>, ram: Seq<u8>, load: LoadSpec) -> Result<
    i32,
    ProcessorException,
> {
    match mmu_load_le(rom, ram, load.addr, width_bytes(load.access_type)) {
        Err(e) => Err(e),
        Ok(v) => Ok(
            match load.access_type {
                MemoryAccessType::Word => v as i32,
                MemoryAccessType::SignedHalfWord => sign_extend_half(v),
                MemoryAccessType::SignedByte => sign_extend_byte(v),
                _ => v as i32,
            },
        ),
    }
}

/// The four bytes of `v`, least significant first.
pub open spec fn le_word_bytes(v: u32) -> Seq<u8> {
    seq![(v % 256) as u8, (v / 256 % 256) as u8, (v / 65536 % 256) as u8, (v / 16777216) as u8]
}

/// The `n` low-order bytes of `v`, least significant first.
pub open spec fn le_bytes(v: u32, n: int) -> Seq<u8> {
    le_word_bytes(v).subrange(0, n)
}

/// Storing the low bytes of a value, as a typed store does: the new RAM and the outcome.
pub open spec fn mmu_store_typed(ram: Seq<u8>, store: StoreSpec) -> (
    Seq<u8>,
    Result<(), ProcessorException>,
) {
    let n = width_bytes(store.access_type);
    match access_end(store.addr, n) {
        None => (ram, Err(out_of_bounds())),
        Some(end) => mmu_store(ram, store.addr, end, le_bytes(store.value as u32, n)),
    }
}

/// Memory-management unit: the boot image and the RAM, in one address space.
#[derive(Debug)]
pub struct MMU {
    rom: ROM,
    ram: RAM,
}

impl MMU {
    /// The contents of the boot image.
    pub closed spec fn rom_view(&self) -> Seq<u8> {
        self.rom@
    }

    /// The contents of the RAM.
    pub closed spec fn ram_view(&self) -> Seq<u8> {
        self.ram@
    }

    /// Create an MMU over a boot image and a RAM.
    pub fn new(rom: ROM, ram: RAM) -> (r: Self)
        ensures
            r.rom_view() == rom@,
            r.ram_view() == ram@,
    {
        MMU { rom, ram }
    }

    /// Load the bytes at addresses `range`.
    ///
    /// The request routes by the top bit of `range.start`: to the boot image when it is clear,
    /// to RAM at the masked start offset when it is set.
    pub fn load_raw(&self, range: Range<usize>) -> (r: Result<&[u8], ProcessorException>)
        ensures
            bytes_of(r) == mmu_load(self.rom_view(), self.ram_view(), range.start, range.end),
    {
        if range.start & RAM_BIT == 0 {
            self.rom.load_raw(range)
        } else {
            match Self::ram_range(range, self.ram.len()) {
                Some(offsets) => self.ram.load_raw(offsets),
                None => Err(ProcessorException::InvalidMemoryAccess(MemoryAccessError::OutOfBounds)),
            }
        }
    }

    /// The RAM offsets of the addresses `range`, whose start routes to RAM; `None` when the
    /// range ends before it starts or runs past the end of a RAM of `size` bytes.
    fn ram_range(range: Range<usize>, size: usize) -> (r: Option<Range<usize>>)
        ensures
            r matches Some(o) ==> o.start == range.start & RAM_OFFSET_MASK && o.end == ram_end(
                range.start,
                range.end,
            ),
            r is None ==> range.start > range.end || ram_end(range.start, range.end) > size,
    {
        if range.end < range.start {
            return None;
        }
        let offset = range.start & RAM_OFFSET_MASK;
        match offset.checked_add(range.end - range.start) {
            Some(end) => if end <= size {
                Some(Range { start: offset, end })
            } else {
                None
            },
            None => None,
        }
    }

    /// Store `values` at addresses `range`.
    ///
    /// Every store to the boot image fails with `ReadOnly`; the boot image never changes.
    pub fn store_raw(&mut self, range: Range<usize>, values: &[u8]) -> (r: Result<
        (),
        ProcessorException,
    >)
        ensures
            (final(self).ram_view(), r) == mmu_store(
                old(self).ram_view(),
                range.start,
                range.end,
                values@,
            ),
            final(self).rom_view() == old(self).rom_view(),
    {
        if range.start & RAM_BIT == 0 {
            self.rom.store_raw(range, values)
        } else {
            match Self::ram_range(range, self.ram.len()) {
                Some(offsets) => self.ram.store_raw(offsets, values),
                None => Err(ProcessorException::InvalidMemoryAccess(MemoryAccessError::OutOfBounds)),
            }
        }
    }

    /// The unsigned little-endian value of the `n` bytes at `addr`.
    fn load_le(&self, addr: usize, n: usize) -> (r: Result<u32, ProcessorException>)
        requires
            n == 1 || n == 2 || n == 4,
        ensures
            r == mmu_load_le(self.rom_view(), self.ram_view(), addr, n as int),
    {
        let end = match addr.checked_add(n) {
            Some(e) => e,
            None => {
                return Err(ProcessorException::InvalidMemoryAccess(MemoryAccessError::OutOfBounds));
            },
        };
        let b = match self.load_raw(Range { start: addr, end }) {
            Ok(b) => b,
            Err(e) => {
                return Err(e);
            },
        };
        if n == 1 {
            Ok(b[0] as u32)
        } else if n == 2 {
            Ok(b[0] as u32 + 256 * b[1] as u32)
        } else {
            Ok(b[0] as u32 + 256 * b[1] as u32 + 65536 * b[2] as u32 + 16777216 * b[3] as u32)
        }
    }

    /// Load a word from memory.
    pub fn load_word(&self, addr: usize) -> (r: Result<i32, ProcessorException>)
        ensures
            r == mmu_load_typed(
                self.rom_view(),
                self.ram_view(),
                LoadSpec { access_type: MemoryAccessType::Word, addr },
            ),
    {
        match self.load_le(addr, 4) {
            Ok(v) => Ok(v as i32),
            Err(e) => Err(e),
        }
    }

    /// Load a half-word from memory, then sign-extend it to a full word.
    pub fn load_signed_halfword(&self, addr: usize) -> (r: Result<i32, ProcessorException>)
        ensures
            r == mmu_load_typed(
                self.rom_view(),
                self.ram_view(),
                LoadSpec { access_type: MemoryAccessType::SignedHalfWord, addr },
            ),
    {
        match self.load_unsigned_halfword(addr) {
            Ok(h) => Ok(
                if h < 0x8000 {
                    h as i32
                } else {
                    (h as i32) - 0x10000
                },
            ),
            Err(e) => Err(e),
        }
    }

    /// Load a half-word from memory, then zero-extend it to a full word.
    pub fn load_unsigned_halfword(&self, addr: usize) -> (r: Result<u32, ProcessorException>)
        ensures
            r == mmu_load_le(self.rom_view(), self.ram_view(), addr, 2),
            r matches Ok(h) ==> h < 0x10000,
    {
        let r = self.load_le(addr, 2);
        proof {
            lemma_le_value_bounds(r, self.rom_view(), self.ram_view(), addr);
        }
        r
    }

    /// Load a byte from memory, then sign-extend it to a full word.
    pub fn load_signed_byte(&self, addr: usize) -> (r: Result<i32, ProcessorException>)
        ensures
            r == mmu_load_typed(
                self.rom_view(),
                self.ram_view(),
                LoadSpec { access_type: MemoryAccessType::SignedByte, addr },
            ),
    {
        match self.load_unsigned_byte(addr) {
            Ok(b) => Ok(
                if b < 0x80 {
                    b as i32
                } else {
                    (b as i32) - 0x100
                },
            ),
            Err(e) => Err(e),
        }
    }

    /// Load a byte from memory, then zero-extend it to a full word.
    pub fn load_unsigned_byte(&self, addr: usize) -> (r: Result<u32, ProcessorException>)
        ensures
            r == mmu_load_le(self.rom_view(), self.ram_view(), addr, 1),
            r matches Ok(b) ==> b < 0x100,
    {
        self.load_le(addr, 1)
    }

    /// Load a value from memory, as `load` describes.
    pub fn load(&self, load: LoadSpec) -> (r: Result<i32, ProcessorException>)
        ensures
            r == mmu_load_typed(self.rom_view(), self.ram_view(), load),
    {
        match load.access_type {
            MemoryAccessType::Word => self.load_word(load.addr),
            MemoryAccessType::SignedHalfWord => self.load_signed_halfword(load.addr),
            MemoryAccessType::UnsignedHalfWord => match self.load_unsigned_halfword(load.addr) {
                Ok(h) => Ok(h as i32),
                Err(e) => Err(e),
            },
            MemoryAccessType::SignedByte => self.load_signed_byte(load.addr),
            MemoryAccessType::UnsignedByte => match self.load_unsigned_byte(load.addr) {
                Ok(b) => Ok(b as i32),
                Err(e) => Err(e),
            },
        }
    }

    /// Store the `n` low-order bytes of `value` at `addr`.
    fn store_le(&mut self, addr: usize, value: i32, n: usize) -> (r: Result<(), ProcessorException>)
        requires
            n == 1 || n == 2 || n == 4,
        ensures
            (final(self).ram_view(), r) == (match access_end(addr, n as int) {
                None => (old(self).ram_view(), Err(out_of_bounds())),
                Some(end) => mmu_store(
                    old(self).ram_view(),
                    addr,
                    end,
                    le_bytes(value as u32, n as int),
                ),
            }),
            final(self).rom_view() == old(self).rom_view(),
    {
        let end = match addr.checked_add(n) {
            Some(e) => e,
            None => {
                return Err(ProcessorException::InvalidMemoryAccess(MemoryAccessError::OutOfBounds));
            },
        };
        let v = value as u32;
        let mut bytes: Vec<u8> = Vec::new();
        bytes.push((v % 256) as u8);
        if n >= 2 {
            bytes.push((v / 256 % 256) as u8);
        }
        if n == 4 {
            bytes.push((v / 65536 % 256) as u8);
            bytes.push((v / 16777216) as u8);
        }
        assert(bytes@ =~= le_bytes(v, n as int));
        self.store_raw(Range { start: addr, end }, bytes.as_slice())
    }

    /// Store a word to memory.
    pub fn store_word(&mut self, addr: usize, value: i32) -> (r: Result<(), ProcessorException>)
        ensures
            (final(self).ram_view(), r) == mmu_store_typed(
                old(self).ram_view(),
                StoreSpec { access_type: MemoryAccessType::Word, addr, value },
            ),
            final(self).rom_view() == old(self).rom_view(),
    {
        self.store_le(addr, value, 4)
    }

    /// Store the low 16 bits of `value` to memory.
    pub fn store_halfword(&mut self, addr: usize, value: i32) -> (r: Result<(), ProcessorException>)
        ensures
            (final(self).ram_view(), r) == mmu_store_typed(
                old(self).ram_view(),
                StoreSpec { access_type: MemoryAccessType::UnsignedHalfWord, addr, value },
            ),
            final(self).rom_view() == old(self).rom_view(),
    {
        self.store_le(addr, value, 2)
    }

    /// Store the low 8 bits of `value` to memory.
    pub fn store_byte(&mut self, addr: usize, value: i32) -> (r: Result<(), ProcessorException>)
        ensures
            (final(self).ram_view(), r) == mmu_store_typed(
                old(self).ram_view(),
                StoreSpec { access_type: MemoryAccessType::UnsignedByte, addr, value },
            ),
            final(self).rom_view() == old(self).rom_view(),
    {
        self.store_le(addr, value, 1)
    }

    /// Store a value to memory, as `store` describes: exactly the low bytes that its width
    /// covers are written.
    pub fn store(&mut self, store: StoreSpec) -> (r: Result<(), ProcessorException>)
        ensures
            (final(self).ram_view(), r) == mmu_store_typed(old(self).ram_view(), store),
            final(self).rom_view() == old(self).rom_view(),
    {
        match store.access_type {
            MemoryAccessType::Word => self.store_word(store.addr, store.value),
            MemoryAccessType::SignedHalfWord | MemoryAccessType::UnsignedHalfWord => {
                self.store_halfword(store.addr, store.value)
            },
            MemoryAccessType::SignedByte | MemoryAccessType::UnsignedByte => {
                self.store_byte(store.addr, store.value)
            },
        }
    }
}

proof fn lemma_le_value_bounds(
    r: Result<u32, ProcessorException>,
    rom: Seq<u8>,
    ram: Seq<u8>,
    addr: usize,
)
    requires
        r == mmu_load_le(rom, ram, addr, 2),
    ensures
        r matches Ok(h) ==> h < 0x10000,
{
}

} // verus!

verus! {

/// The address space is partitioned by the top bit of the start address: a load whose start has
/// it clear reads the boot image alone, at offset `start`; a load whose start has it set reads
/// RAM alone, at offset `start & 0x7fffffff`, for the length of the range.
pub proof fn lemma_mmu_partition(
    rom1: Seq<u8>,
    ram1: Seq<u8>,
    rom2: Seq<u8>,
    ram2: Seq<u8>,
    start: usize,
    end: usize,
)
    ensures
        start & RAM_BIT == 0 ==> mmu_load(rom1, ram1, start, end) == device_load(
            rom1,
            start as int,
            end as int,
        ),
        start & RAM_BIT != 0 ==> mmu_load(rom1, ram1, start, end) == device_load(
            ram1,
            (start & RAM_OFFSET_MASK) as int,
            (start & RAM_OFFSET_MASK) + (end - start),
        ),
        start & RAM_BIT == 0 && rom1 == rom2 ==> mmu_load(rom1, ram1, start, end) == mmu_load(
            rom2,
            ram2,
            start,
            end,
        ),
        start & RAM_BIT != 0 && ram1 == ram2 ==> mmu_load(rom1, ram1, start, end) == mmu_load(
            rom2,
            ram2,
            start,
            end,
        ),
{
}

/// Every store to an address with the top bit clear fails with `ReadOnly` and changes nothing.
pub proof fn lemma_boot_image_read_only(ram: Seq<u8>, start: usize, end: usize, values: Seq<u8>)
    requires
        start & RAM_BIT == 0,
    ensures
        mmu_store(ram, start, end, values) == (
            ram,
            Err::<(), ProcessorException>(
                ProcessorException::InvalidMemoryAccess(MemoryAccessError::ReadOnly),
            ),
        ),
{
}

/// Storing `s` to a range that lies inside RAM succeeds, and loading that range afterwards
/// yields `s`.
pub proof fn lemma_ram_round_trip(rom: Seq<u8>, ram: Seq<u8>, start: usize, end: usize, s: Seq<u8>)
    requires
        start & RAM_BIT != 0,
        start <= end,
        (start & RAM_OFFSET_MASK) + (end - start) <= ram.len(),
        s.len() == end - start,
    ensures
        mmu_store(ram, start, end, s).1 == Ok::<(), ProcessorException>(()),
        mmu_load(rom, mmu_store(ram, start, end, s).0, start, end) == Ok::<
            Seq<u8>,
            ProcessorException,
        >(s),
{
    let a = (start & RAM_OFFSET_MASK) as int;
    let b = a + (end - start);
    let stored = ram.subrange(0, a) + s + ram.subrange(b, ram.len() as int);
    assert(stored.subrange(a, b) =~= s);
}

} // verus!
