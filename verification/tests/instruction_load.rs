use mips_sim::processor::instruction::{Instruction, InstructionType};
use mips_sim::processor::registers::Register;

#[test]
fn test_instruction_load() {
    let test_instruction: u32 = 0b001101_00000_00010_0000000000000100;
    let instruction = Instruction::load(test_instruction);
    println!("{:?}", instruction);
    assert_eq!(instruction.opcode, 0b001101);
    assert_eq!(instruction.instruction_type, InstructionType::I);
    assert_eq!(instruction.rs, Some(0b00000));
    assert_eq!(instruction.rt, Some(0b00010));
    assert_eq!(instruction.rd, None);
    assert_eq!(instruction.shamt, None);
    assert_eq!(instruction.funct, None);
    assert_eq!(instruction.imm, Some(0b0000000000000100));
    assert_eq!(instruction.addr, None);

    let rs_register = Register::from_u8(0b00000).unwrap();
    let rt_register = Register::from_u8(0b00010).unwrap();
    assert_eq!(rs_register, Register::Zero);
    assert_eq!(rt_register, Register::V0);
}

#[test]
fn load_r_type_extracts_all_fields() {
    // add $t0, $t1, $t2
    let word: u32 = (9 << 21) | (10 << 16) | (8 << 11) | 0x20;
    let i = Instruction::load(word);
    assert_eq!(i.opcode, 0);
    assert_eq!(i.instruction_type, InstructionType::R);
    assert_eq!(i.rs, Some(9));
    assert_eq!(i.rt, Some(10));
    assert_eq!(i.rd, Some(8));
    assert_eq!(i.shamt, Some(0));
    assert_eq!(i.funct, Some(0x20));
    assert_eq!(i.imm, None);
    assert_eq!(i.addr, None);
}

#[test]
fn load_shift_extracts_shamt() {
    // srl $t0, $t1, 4
    let word: u32 = (9 << 16) | (8 << 11) | (4 << 6) | 0x02;
    let i = Instruction::load(word);
    assert_eq!(i.instruction_type, InstructionType::R);
    assert_eq!(i.shamt, Some(4));
    assert_eq!(i.funct, Some(0x02));
}

#[test]
fn load_j_type_extracts_address() {
    let word: u32 = (2 << 26) | 0x03FF_FFFF;
    let i = Instruction::load(word);
    assert_eq!(i.opcode, 2);
    assert_eq!(i.instruction_type, InstructionType::J);
    assert_eq!(i.addr, Some(0x03FF_FFFF));
    assert_eq!(i.rs, None);
    assert_eq!(i.rt, None);
    assert_eq!(i.rd, None);
    assert_eq!(i.shamt, None);
    assert_eq!(i.funct, None);
    assert_eq!(i.imm, None);

    let jump: u32 = (1 << 26) | 0x0000_0010;
    let j = Instruction::load(jump);
    assert_eq!(j.opcode, 1);
    assert_eq!(j.instruction_type, InstructionType::J);
    assert_eq!(j.addr, Some(0x10));
}

#[test]
fn sign_extension_is_arithmetic() {
    // An I-type word whose 16-bit immediate is 0xFFFF must sign-extend to
    // all ones.
    let word: u32 = (0x08 << 26) | 0xFFFF;
    let i = Instruction::load(word);
    assert_eq!(i.imm, Some(0xFFFF_FFFF));

    // A positive immediate is untouched.
    let word_pos: u32 = (0x08 << 26) | 0x7FFF;
    let j = Instruction::load(word_pos);
    assert_eq!(j.imm, Some(0x7FFF));

    // The smallest negative immediate.
    let word_min: u32 = (0x08 << 26) | 0x8000;
    let k = Instruction::load(word_min);
    assert_eq!(k.imm, Some(0xFFFF_8000));
}

#[test]
fn decode_round_trip_reproduces_words() {
    let words: [u32; 7] = [
        0,
        0xFFFF_FFFF,
        (9 << 21) | (10 << 16) | (8 << 11) | (4 << 6) | 0x20,
        (2 << 26) | 0x03FF_FFFF,
        (1 << 26) | 0x123,
        (0x08 << 26) | (3 << 21) | (4 << 16) | 0x8000,
        0b001101_00000_00010_0000000000000100,
    ];
    for &word in words.iter() {
        let i = Instruction::load(word);
        let encoded: u32 = match i.instruction_type {
            InstructionType::R => ((i.rs.unwrap() as u32) << 21) | ((i.rt.unwrap() as u32) << 16)
                | ((i.rd.unwrap() as u32) << 11)
                | ((i.shamt.unwrap() as u32) << 6)
                | (i.funct.unwrap() as u32),
            InstructionType::J => ((i.opcode as u32) << 26) | i.addr.unwrap(),
            InstructionType::I => ((i.opcode as u32) << 26) | ((i.rs.unwrap() as u32) << 21)
                | ((i.rt.unwrap() as u32) << 16)
                | (i.imm.unwrap() & 0xFFFF),
            _ => panic!("decoder produced a floating-point format"),
        };
        assert_eq!(encoded, word);
    }
}
