use z2l::error::ProcessorException::IllegalInstruction;
use z2l::instruction::Instruction;
use z2l::parts::InstructionParts;
use z2l::rv32i::fence::{FenceInstruction, FenceMode};
use z2l::rv32i::RV32I;
use z2l::extension::Extension;
use z2l::hart::Hart;

/// Decodes `raw` at address `pc` with the RV32I handlers and renders it.
fn render(raw: u32, pc: u32) -> String {
    let mut hart = Hart::new();
    RV32I.register(&mut hart);
    hart.pc = pc;
    hart.cycle(raw, 0).unwrap();
    let _ = hart.cycle(0x00000013, 0);
    hart.last_instr.clone().unwrap()
}

#[test]
fn renders_instructions() {
    assert_eq!(render(0x01030293, 0), "addi x5, x6, 0x00000010");
    assert_eq!(render(0xfce08793, 0), "addi x15, x1, 0xffffffce");
    assert_eq!(render(0x0073_02b3, 0), "add x5, x6, x7");
    assert_eq!(render(0x4073_02b3, 0), "sub x5, x6, x7");
    assert_eq!(render(0xdeadc537, 0), "lui x10, 0xdeadc000");
    assert_eq!(render(0xdeadb597, 0), "auipc x11, 0xdeadb000");
    assert_eq!(render(0x0a40_02ef, 0), "jal x5, 0x000000a4");
    assert_eq!(render(0x004100e7, 0), "jalr x1, 0x00000004(x2)");
    assert_eq!(render(0x00a9_8863, 0), "beq x19, x10, 0x00000010");
    assert_eq!(render(0x0081_2783, 0), "lw x15, 0x00000008(x2)");
    assert_eq!(render(0x0000c283, 0), "lbu x5, 0x00000000(x1)");
    assert_eq!(render(0x00e1_2423, 0), "sw x14, 0x00000008(x2)");
    assert_eq!(render(0x00308023, 0), "sb x3, 0x00000000(x1)");
    assert_eq!(render(0x00311893, 0), "slli x17, x2, 3");
    assert_eq!(render(0x4010d793, 0), "srai x15, x1, 1");
    assert_eq!(render(0x4020d633, 0), "sra x12, x1, x2");
    assert_eq!(render(0x0030b693, 0), "sltiu x13, x1, 0x00000003");
    assert_eq!(render(0x00000073, 0), "ecall");
    assert_eq!(render(0x00100073, 0), "ebreak");
    assert_eq!(render(0x0ff0000f, 0), "fence IORW, IORW");
    assert_eq!(render(0x8330000f, 0), "fence.tso RW, RW");
}

#[test]
fn fence_without_predecessors() {
    let f = FenceInstruction {
        mode: FenceMode::Normal,
        pi: false,
        po: false,
        pr: false,
        pw: false,
        si: false,
        so: false,
        sr: true,
        sw: false,
    };
    assert_eq!(f.format(), "fence R");
    let i = Instruction::Fence(f);
    assert_eq!(i.format(), "fence R");
    let none = FenceInstruction { sr: false, ..f };
    assert_eq!(none.format(), "fence");
    let pred_only = FenceInstruction { sr: false, pw: true, ..f };
    assert_eq!(pred_only.format(), "fence W, ");
}

#[test]
fn decoding_rejects_invalid_encodings() {
    let mut hart = Hart::new();
    RV32I.register(&mut hart);
    for raw in [
        0x0000207f_u32, // unknown opcode 0x7f
        0x00002063,     // branch funct3 010
        0x00003003,     // load funct3 011
        0x00003023,     // store funct3 011
        0x02000033,     // add with funct7 0000001
        0x02001013,     // slli with imm[11:5] = 0000001
        0x00200073,     // system imm 2
        0x00100073 | (1 << 7), // ebreak with rd = 1
        0x1000000f,     // fence mode 0001
        0x023110b3,     // mulh x1, x2, x3 (M extension)
        0x023140b3,     // div x1, x2, x3 (M extension)
        0x023170b3,     // remu x1, x2, x3 (M extension)
        0x403110b3,     // sll with funct7 0100000
    ] {
        let mut h = Hart::new();
        RV32I.register(&mut h);
        h.cycle(raw, 0).unwrap();
        assert_eq!(h.cycle(0x13, 0), Err((IllegalInstruction, 0)), "{:08x}", raw);
    }
    assert!(InstructionParts::new(0x0000_0001).is_err());
}
