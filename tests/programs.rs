use z2l::error::{MemoryAccessError, ProcessorException};
use z2l::mmu::MMU;
use z2l::processor::{Processor, ProcessorConfig};
use z2l::ram::RAM;
use z2l::rom::ROM;
use z2l::rv32i::RV32I;
use z2l::{cycle_and_log, InstructionLog};

fn processor(words: &[u32]) -> Processor {
    let mut bytes = Vec::new();
    for w in words {
        bytes.extend_from_slice(&w.to_le_bytes());
    }
    let mmu = MMU::new(ROM::new(bytes), RAM::new(32 * 1024));
    Processor::new(ProcessorConfig { harts: 1, mmu, extensions: vec![RV32I] })
}

/// Runs until the first exception; returns it with its address and the registers at that point.
fn run(words: &[u32]) -> (ProcessorException, u32, Vec<i32>) {
    let mut p = processor(words);
    for _ in 0..1000 {
        if let Err((e, pc)) = p.cycle() {
            let regs = p.hart.registers.values();
            return (e, pc, regs);
        }
    }
    panic!("program did not stop");
}

#[test]
fn addi_chain() {
    let (e, pc, regs) = run(&[0x00500093, 0x00308113, 0x00000073]);
    assert_eq!(regs[1], 5);
    assert_eq!(regs[2], 8);
    assert_eq!(e, ProcessorException::EnvironmentCall);
    assert_eq!(pc, 0x0000_0008);
}

#[test]
fn lui_and_auipc() {
    let (e, pc, regs) = run(&[0xdeadc537, 0xdeadb597, 0x00000073]);
    assert_eq!(regs[10], 0xdeadc000u32 as i32);
    assert_eq!(regs[11], 0xdeadb004u32 as i32);
    assert_eq!(e, ProcessorException::EnvironmentCall);
    assert_eq!(pc, 8);
}

#[test]
fn branch_taken() {
    let (e, pc, _) = run(&[0x00500093, 0x00500113, 0x00208463, 0x00000073, 0x00000073]);
    assert_eq!(e, ProcessorException::EnvironmentCall);
    assert_eq!(pc, 0x0000_0010);
}

#[test]
fn branch_not_taken() {
    let (e, pc, _) = run(&[0x00500093, 0x00600113, 0x00208463, 0x00000073, 0x00000073]);
    assert_eq!(e, ProcessorException::EnvironmentCall);
    assert_eq!(pc, 0x0000_000c);
}

#[test]
fn memory_round_trip() {
    let program = [
        0x800000b7, // lui x1, 0x80000
        0x12345137, // lui x2, 0x12345
        0x67810113, // addi x2, x2, 0x678
        0x0020a023, // sw x2, 0(x1)
        0x0000a183, // lw x3, 0(x1)
        0x00000073, // ecall
    ];
    let (e, pc, regs) = run(&program);
    assert_eq!(regs[3], 0x12345678);
    assert_eq!(e, ProcessorException::EnvironmentCall);
    assert_eq!(pc, 20);
}

#[test]
fn illegal_instruction() {
    let (e, pc, _) = run(&[0x00000013, 0x0000007f]);
    assert_eq!(e, ProcessorException::IllegalInstruction);
    assert_eq!(pc, 4);
    let (e, pc, _) = run(&[0xffff_ffff]);
    assert_eq!(e, ProcessorException::IllegalInstruction);
    assert_eq!(pc, 0);
}

#[test]
fn ebreak_stops() {
    let (e, pc, _) = run(&[0x00000013, 0x00100073]);
    assert_eq!(e, ProcessorException::EnvironmentBreak);
    assert_eq!(pc, 4);
}

#[test]
fn jump_discards_next_decoding() {
    // jal x5, +8; addi x1, x0, 1; ecall
    let (e, pc, regs) = run(&[0x008002ef, 0x00100093, 0x00000073]);
    assert_eq!(regs[1], 0);
    assert_eq!(regs[5], 4);
    assert_eq!(e, ProcessorException::EnvironmentCall);
    assert_eq!(pc, 8);
}

#[test]
fn bubble_cycle_executes_nothing() {
    // jal x0, +8; addi x1, x0, 1; addi x2, x0, 2; ecall
    let mut p = processor(&[0x0080006f, 0x00100093, 0x00200113, 0x00000073]);
    p.cycle().unwrap(); // decode jal
    p.cycle().unwrap(); // execute jal, decode addi x1 (discarded)
    assert_eq!(p.hart.pc, 8);
    p.cycle().unwrap(); // bubble: decode only
    assert_eq!(p.hart.last_instr, None);
    assert_eq!(p.hart.registers.values()[1], 0);
}

#[test]
fn misaligned_jalr() {
    // addi x2, x0, 6; jalr x1, 0(x2)
    let (e, pc, regs) = run(&[0x00600113, 0x000100e7, 0x00000073]);
    assert_eq!(e, ProcessorException::InstructionAddressMisaligned);
    assert_eq!(pc, 4);
    assert_eq!(regs[1], 0);
}

#[test]
fn misaligned_jal() {
    // addi x0, x0, 0; jal x0, +2
    let (e, pc, _) = run(&[0x00000013, 0x0020006f]);
    assert_eq!(e, ProcessorException::InstructionAddressMisaligned);
    assert_eq!(pc, 4);
}

#[test]
fn misaligned_branch_only_when_taken() {
    // beq x0, x1, +6 is not taken (x1 = 1), so execution reaches the ecall.
    // addi x1, x0, 1; beq x0, x1, 6; ecall
    let (e, pc, _) = run(&[0x00100093, 0x00100363, 0x00000073]);
    assert_eq!(e, ProcessorException::EnvironmentCall);
    assert_eq!(pc, 8);
    // beq x0, x0, +6 is taken and misaligned.
    let (e, pc, _) = run(&[0x00000013, 0x00000363, 0x00000073]);
    assert_eq!(e, ProcessorException::InstructionAddressMisaligned);
    assert_eq!(pc, 4);
}

#[test]
fn load_out_of_bounds() {
    // lw x1, 0x100(x0): the boot image has 8 bytes.
    let (e, pc, _) = run(&[0x10002083, 0x00000073]);
    assert_eq!(
        e,
        ProcessorException::InvalidMemoryAccess(MemoryAccessError::OutOfBounds)
    );
    assert_eq!(pc, 0);
}

#[test]
fn store_to_boot_image() {
    // sw x0, 0(x0)
    let (e, pc, _) = run(&[0x00002023, 0x00000073]);
    assert_eq!(e, ProcessorException::InvalidMemoryAccess(MemoryAccessError::ReadOnly));
    assert_eq!(pc, 0);
}

#[test]
fn store_byte_writes_one_byte() {
    let program = [
        0x800000b7, // lui x1, 0x80000
        0xfff00113, // addi x2, x0, -1
        0x0020a023, // sw x2, 0(x1)
        0x00000193, // addi x3, x0, 0
        0x00308023, // sb x3, 0(x1)
        0x0000a203, // lw x4, 0(x1)
        0x0000c283, // lbu x5, 0(x1)
        0x00108303, // lb x6, 1(x1)
        0x0000d383, // lhu x7, 0(x1)
        0x00000073, // ecall
    ];
    let (e, _, regs) = run(&program);
    assert_eq!(e, ProcessorException::EnvironmentCall);
    assert_eq!(regs[4], 0xffff_ff00u32 as i32);
    assert_eq!(regs[5], 0);
    assert_eq!(regs[6], -1);
    assert_eq!(regs[7], 0xff00);
}

#[test]
fn alu_operations() {
    let program = [
        0xff600093, // addi x1, x0, -10
        0x00300113, // addi x2, x0, 3
        0x002081b3, // add x3, x1, x2      -7
        0x40208233, // sub x4, x1, x2      -13
        0x0020a2b3, // slt x5, x1, x2      1
        0x0020b333, // sltu x6, x1, x2     0
        0x0020c3b3, // xor x7, x1, x2
        0x0020e433, // or x8, x1, x2
        0x0020f4b3, // and x9, x1, x2
        0x00209533, // sll x10, x1, x2     -80
        0x0020d5b3, // srl x11, x1, x2
        0x4020d633, // sra x12, x1, x2     -2
        0x0030b693, // sltiu x13, x1, 3    0
        0xfff13713, // sltiu x14, x2, -1   1
        0x4010d793, // srai x15, x1, 1     -5
        0x0010d813, // srli x16, x1, 1
        0x00311893, // slli x17, x2, 3     24
        0x00000073, // ecall
    ];
    let (e, _, regs) = run(&program);
    assert_eq!(e, ProcessorException::EnvironmentCall);
    assert_eq!(regs[3], -7);
    assert_eq!(regs[4], -13);
    assert_eq!(regs[5], 1);
    assert_eq!(regs[6], 0);
    assert_eq!(regs[7], -10 ^ 3);
    assert_eq!(regs[8], -10 | 3);
    assert_eq!(regs[9], -10 & 3);
    assert_eq!(regs[10], -80);
    assert_eq!(regs[11], ((-10i32 as u32) >> 3) as i32);
    assert_eq!(regs[12], -2);
    assert_eq!(regs[13], 0);
    assert_eq!(regs[14], 1);
    assert_eq!(regs[15], -5);
    assert_eq!(regs[16], ((-10i32 as u32) >> 1) as i32);
    assert_eq!(regs[17], 24);
}

#[test]
fn logs_report_each_cycle() {
    let mut p = processor(&[0x00500093, 0x00308113, 0x00000073]);
    let (log, stop) = cycle_and_log(&mut p);
    assert!(!stop);
    match log {
        InstructionLog::Executed { instr, pc, .. } => {
            assert_eq!(instr, None);
            assert_eq!(pc, 0);
        }
        _ => panic!("expected a completed cycle"),
    }
    let (log, stop) = cycle_and_log(&mut p);
    assert!(!stop);
    match log {
        InstructionLog::Executed { instr, registers, pc } => {
            assert_eq!(instr, Some(String::from("addi x1, x0, 0x00000005")));
            assert_eq!(registers[1], 5);
            assert_eq!(registers.len(), 32);
            assert_eq!(pc, 0);
        }
        _ => panic!("expected a completed cycle"),
    }
    cycle_and_log(&mut p);
    let (log, stop) = cycle_and_log(&mut p);
    assert!(stop);
    match log {
        InstructionLog::Exception { exception, registers, pc } => {
            assert_eq!(exception, ProcessorException::EnvironmentCall);
            assert_eq!(registers[2], 8);
            assert_eq!(pc, 8);
        }
        _ => panic!("expected an exception"),
    }
}

#[test]
fn reset_restarts_from_zero() {
    let mut p = processor(&[0x00500093, 0x00308113, 0x00000073]);
    p.cycle().unwrap();
    p.cycle().unwrap();
    p.cycle().unwrap();
    p.reset();
    assert_eq!(p.hart.pc, 0);
    assert_eq!(p.hart.prev_pc, 0);
    assert_eq!(p.hart.last_instr, None);
    p.cycle().unwrap();
    assert_eq!(p.hart.last_instr, None);
    assert_eq!(p.hart.pc, 4);
}

#[test]
fn register_zero_stays_zero() {
    // addi x0, x0, 5; lui x0, 0x12345; jal x0, +8; ecall; ecall
    let (e, pc, regs) = run(&[0x00500013, 0x12345037, 0x0080006f, 0x00000073, 0x00000073]);
    assert_eq!(regs[0], 0);
    assert_eq!(regs.len(), 32);
    assert_eq!(e, ProcessorException::EnvironmentCall);
    assert_eq!(pc, 16);
}
