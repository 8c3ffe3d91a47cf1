use z2l::error::{MemoryAccessError, ProcessorException};
use z2l::mmu::{Addressable, LoadSpec, MemoryAccessType, StoreSpec, MMU};
use z2l::ram::RAM;
use z2l::register::{GeneralPurposeRegister, Register, RegisterFile, ZeroRegister};
use z2l::rom::ROM;

fn mmu() -> MMU {
    MMU::new(ROM::new(vec![1, 2, 3, 4, 5, 6, 7, 8]), RAM::new(16))
}

const OOB: ProcessorException = ProcessorException::InvalidMemoryAccess(MemoryAccessError::OutOfBounds);

#[test]
fn partition_routes_by_top_bit() {
    let mut m = mmu();
    m.store_raw(0x8000_0000..0x8000_0004, &[9, 9, 9, 9]).unwrap();
    assert_eq!(m.load_raw(0..4).unwrap(), &[1, 2, 3, 4]);
    assert_eq!(m.load_raw(0x8000_0000..0x8000_0004).unwrap(), &[9, 9, 9, 9]);
    assert_eq!(m.load_raw(4..8).unwrap(), &[5, 6, 7, 8]);
    assert_eq!(m.load_raw(6..10), Err(OOB));
    assert_eq!(m.load_raw(0x8000_000e..0x8000_0012), Err(OOB));
}

#[test]
fn boot_image_is_read_only() {
    let mut m = mmu();
    assert_eq!(
        m.store_raw(0..2, &[0, 0]),
        Err(ProcessorException::InvalidMemoryAccess(MemoryAccessError::ReadOnly))
    );
    assert_eq!(
        m.store_word(4, 0),
        Err(ProcessorException::InvalidMemoryAccess(MemoryAccessError::ReadOnly))
    );
    assert_eq!(m.load_raw(0..8).unwrap(), &[1, 2, 3, 4, 5, 6, 7, 8]);
}

#[test]
fn ram_round_trip() {
    let mut m = mmu();
    let data = [0xde, 0xad, 0xbe, 0xef, 0x01];
    m.store_raw(0x8000_0003..0x8000_0008, &data).unwrap();
    assert_eq!(m.load_raw(0x8000_0003..0x8000_0008).unwrap(), &data);
    assert_eq!(m.load_raw(0x8000_0000..0x8000_0003).unwrap(), &[0, 0, 0]);
}

#[test]
fn raw_store_errors() {
    let mut m = mmu();
    assert_eq!(
        m.store_raw(0x8000_0000..0x8000_0004, &[1, 2]),
        Err(ProcessorException::InvalidMemoryAccess(MemoryAccessError::LengthMismatch))
    );
    assert_eq!(m.store_raw(0x8000_000f..0x8000_0011, &[1, 2]), Err(OOB));
    let mut ram = RAM::new(4);
    assert_eq!(ram.store_raw(2..6, &[1, 2, 3, 4]), Err(OOB));
    assert_eq!(ram.load_raw(0..4).unwrap(), &[0, 0, 0, 0]);
}

#[test]
fn typed_loads_extend() {
    let m = MMU::new(ROM::new(vec![0xfe, 0xff, 0x80, 0x7f]), RAM::new(0));
    assert_eq!(m.load_word(0), Ok(0x7f80_fffe));
    assert_eq!(m.load_signed_halfword(0), Ok(-2));
    assert_eq!(m.load_unsigned_halfword(0), Ok(0xfffe));
    assert_eq!(m.load_signed_byte(2), Ok(-128));
    assert_eq!(m.load_unsigned_byte(2), Ok(0x80));
    assert_eq!(m.load(LoadSpec::new(MemoryAccessType::UnsignedHalfWord, 2)), Ok(0x7f80));
    assert_eq!(m.load(LoadSpec::new(MemoryAccessType::SignedHalfWord, 2)), Ok(0x7f80));
    assert_eq!(m.load(LoadSpec::new(MemoryAccessType::Word, 1)), Err(OOB));
    assert_eq!(m.load_word(usize::MAX - 1), Err(OOB));
}

#[test]
fn typed_stores_write_low_bytes() {
    let mut m = mmu();
    m.store(StoreSpec::new(MemoryAccessType::Word, 0x8000_0000, 0x1122_3344)).unwrap();
    m.store(StoreSpec::new(MemoryAccessType::SignedByte, 0x8000_0000, 0x55aa)).unwrap();
    assert_eq!(m.load_raw(0x8000_0000..0x8000_0004).unwrap(), &[0xaa, 0x33, 0x22, 0x11]);
    m.store(StoreSpec::new(MemoryAccessType::UnsignedHalfWord, 0x8000_0001, -1)).unwrap();
    assert_eq!(m.load_raw(0x8000_0000..0x8000_0004).unwrap(), &[0xaa, 0xff, 0xff, 0x11]);
    m.store_byte(0x8000_0003, 0x1ff).unwrap();
    m.store_halfword(0x8000_0004, 0x12345).unwrap();
    assert_eq!(
        m.load_raw(0x8000_0000..0x8000_0007).unwrap(),
        &[0xaa, 0xff, 0xff, 0xff, 0x45, 0x23, 0]
    );
}

#[test]
fn zero_register_discards_stores() {
    let mut regs = RegisterFile::new();
    assert_eq!(regs.store(0, 42), Ok(0));
    assert_eq!(regs.load(0), Ok(0));
    assert_eq!(regs.store(0, -1), Ok(0));
    assert_eq!(regs.load(0), Ok(0));
    assert_eq!(regs.store(7, 42), Ok(0));
    assert_eq!(regs.store(7, 43), Ok(42));
    assert_eq!(regs.load(7), Ok(43));
    let values = regs.values();
    assert_eq!(values.len(), 32);
    assert_eq!(values[0], 0);
    assert_eq!(values[7], 43);
}

#[test]
fn register_cells() {
    let mut g = GeneralPurposeRegister::new();
    assert_eq!(g.load(), Ok(0));
    assert_eq!(g.store(9), Ok(0));
    assert_eq!(g.load(), Ok(9));
    let mut z = ZeroRegister;
    assert_eq!(z.store(9), Ok(0));
    assert_eq!(z.load(), Ok(0));
}

#[test]
fn ram_ranges_keep_their_length() {
    let mut m = mmu();
    assert_eq!(m.load_raw(0x8000_0000..0x1_0000_0000), Err(OOB));
    assert_eq!(m.load_raw(0x8000_0000..0x1_0000_0004), Err(OOB));
    assert_eq!(m.store_raw(0x8000_0000..0x1_0000_0000, &[]), Err(OOB));
    assert_eq!(m.load_raw(0x8000_0004..0x8000_0000), Err(OOB));
    assert_eq!(m.load_raw(0x8000_0010..0x8000_0010).unwrap(), &[] as &[u8]);
    assert_eq!(m.load_raw(0x8000_0010..0x8000_0011), Err(OOB));
    // Addresses above 2^32 with the RAM bit set still route by their masked start.
    m.store_raw(0x1_8000_0002..0x1_8000_0004, &[7, 8]).unwrap();
    assert_eq!(m.load_raw(0x8000_0002..0x8000_0004).unwrap(), &[7, 8]);
}
