use z2l::parts::{InstructionLength, InstructionParts, InstructionWordParts};

#[test]
fn identify_instruction_length() {
    assert_eq!(
        InstructionParts::identify_instruction_length(0xfce0_8793),
        InstructionLength::Word
    );
    assert_eq!(
        // 32-bit instruction with a long, all-zero immediate value
        InstructionParts::identify_instruction_length(0x0000_02b7),
        InstructionLength::Word
    );
    assert!(matches!(
        InstructionParts::new(0xfce0_8793).unwrap(),
        InstructionParts::Word(_),
    ));

    assert_eq!(
        InstructionParts::identify_instruction_length(0x0000_12a9),
        InstructionLength::HalfWord,
    );
    assert_eq!(
        // 16-bit instruction immediately followed by a 32-bit instruction
        InstructionParts::identify_instruction_length(0x2423_12a9),
        InstructionLength::HalfWord,
    );
}

#[test]
fn split_r_format() {
    let instruction = InstructionWordParts::new(0x0073_02b3); // add x5, x6, x7
    assert_eq!(instruction.opcode, 0x33);
    assert_eq!(instruction.rd, 5);
    assert_eq!(instruction.funct3, 0);
    assert_eq!(instruction.rs1, 6);
    assert_eq!(instruction.rs2, 7);
    assert_eq!(instruction.funct7, 0);
}

#[test]
fn split_i_format() {
    let instruction = InstructionWordParts::new(0xfce0_8793); // addi x15, x1, -50
    assert_eq!(instruction.opcode, 0x13);
    assert_eq!(instruction.rd, 15);
    assert_eq!(instruction.funct3, 0);
    assert_eq!(instruction.rs1, 1);
    assert_eq!(instruction.imm_i, -50);

    let instruction = InstructionWordParts::new(0x0081_2783); // lw, x15, 8(x2)
    assert_eq!(instruction.opcode, 0x03);
    assert_eq!(instruction.rd, 15);
    assert_eq!(instruction.funct3, 2);
    assert_eq!(instruction.rs1, 2);
    assert_eq!(instruction.imm_i, 8);
}

#[test]
fn split_s_format() {
    let instruction = InstructionWordParts::new(0x00e1_2423); // sw x14, 8(x2)
    assert_eq!(instruction.opcode, 0x23);
    assert_eq!(instruction.funct3, 2);
    assert_eq!(instruction.rs1, 2);
    assert_eq!(instruction.rs2, 14);
    assert_eq!(instruction.imm_s, 8);
}

#[test]
fn split_b_format() {
    let instruction = InstructionWordParts::new(0x00a9_8863); // beq x19, x10, offset = 16 bytes
    assert_eq!(instruction.opcode, 0x63);
    assert_eq!(instruction.funct3, 0);
    assert_eq!(instruction.rs1, 19);
    assert_eq!(instruction.rs2, 10);
    assert_eq!(instruction.imm_b, 16);
}

#[test]
fn split_u_format() {
    let instruction = InstructionWordParts::new(0x8765_4537); // lui x10, 0x87654
    assert_eq!(instruction.opcode, 0x37);
    assert_eq!(instruction.rd, 10);
    assert_eq!(instruction.imm_u as u32, 0x8765_4000);

    let instruction = InstructionWordParts::new(0xdead_b797); // auipc x15, 0xdeadb
    assert_eq!(instruction.opcode, 0x17);
    assert_eq!(instruction.rd, 15);
    assert_eq!(instruction.imm_u as u32, 0xdead_b000);
}

#[test]
fn split_j_format() {
    let instruction = InstructionWordParts::new(0x0a40_02ef); // jal x5, offset = 164 bytes
    assert_eq!(instruction.opcode, 0x6f);
    assert_eq!(instruction.rd, 5);
    assert_eq!(instruction.imm_j, 164);
}

#[test]
fn other_lengths_are_illegal() {
    assert_eq!(
        InstructionParts::identify_instruction_length(0x0000_001f),
        InstructionLength::WordAndHalf
    );
    assert_eq!(
        InstructionParts::identify_instruction_length(0x0000_003f),
        InstructionLength::DoubleWord
    );
    assert_eq!(
        InstructionParts::identify_instruction_length(0x0000_007f),
        InstructionLength::Custom(80)
    );
    assert_eq!(
        InstructionParts::identify_instruction_length(0x0000_707f),
        InstructionLength::Reserved
    );
    assert_eq!(
        InstructionParts::new(0x0000_12a9),
        Err(z2l::error::ProcessorException::IllegalInstruction)
    );
}

/// Encodes the immediate fields of each format by hand and decodes them back.
#[test]
fn immediates_round_trip() {
    // addi x1, x2, -2048: imm[11:0] in bits 31:20.
    let i = InstructionWordParts::new((0x800 << 20) | (2 << 15) | (1 << 7) | 0x13);
    assert_eq!((i.rd, i.rs1, i.imm_i), (1, 2, -2048));

    // sw x3, -4(x4): imm[11:5] in 31:25, imm[4:0] in 11:7.
    let imm: u32 = (-4i32) as u32;
    let s = InstructionWordParts::new(
        (((imm >> 5) & 0x7f) << 25) | (3 << 20) | (4 << 15) | (2 << 12) | ((imm & 0x1f) << 7) | 0x23,
    );
    assert_eq!((s.rs1, s.rs2, s.imm_s), (4, 3, -4));

    // bne x5, x6, -4096
    let imm: u32 = (-4096i32) as u32;
    let b = InstructionWordParts::new(
        (((imm >> 12) & 1) << 31)
            | (((imm >> 5) & 0x3f) << 25)
            | (6 << 20)
            | (5 << 15)
            | (1 << 12)
            | (((imm >> 1) & 0xf) << 8)
            | (((imm >> 11) & 1) << 7)
            | 0x63,
    );
    assert_eq!((b.rs1, b.rs2, b.imm_b), (5, 6, -4096));

    // jal x1, -2
    let imm: u32 = (-2i32) as u32;
    let j = InstructionWordParts::new(
        (((imm >> 20) & 1) << 31)
            | (((imm >> 1) & 0x3ff) << 21)
            | (((imm >> 11) & 1) << 20)
            | (((imm >> 12) & 0xff) << 12)
            | (1 << 7)
            | 0x6f,
    );
    assert_eq!((j.rd, j.imm_j), (1, -2));

    // lui x7, 0xfffff
    let u = InstructionWordParts::new(0xffff_f000 | (7 << 7) | 0x37);
    assert_eq!((u.rd, u.imm_u), (7, -4096));
}
