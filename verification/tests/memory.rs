use mips_sim::processor::buffer::{EXMEMBuffer, MEMWBBuffer};
use mips_sim::processor::instruction::Instruction;
use mips_sim::processor::memory::{DataMemory, InstructionMemory, Memory};

#[test]
fn zero_capacity_memory_faults_everywhere() {
    let mut memory = Memory::new();
    // Address 0 in a zero-capacity memory is out of range.
    assert!(!memory.check_address(0));
    assert!(memory.try_read_word(0).is_none());
    assert!(memory.try_write_word(0, 1).is_none());
    assert!(memory.try_read_cstring(0).is_none());
}

#[test]
fn access_at_or_beyond_capacity_faults() {
    let mut memory = Memory::new_with_capacity(4);  // 16 bytes
    assert!(memory.check_address(15));
    assert!(!memory.check_address(16));
    assert!(!memory.check_address(17));
    // A word read must fit entirely below the capacity.
    assert!(memory.try_read_word(12).is_some());
    assert!(memory.try_read_word(13).is_none());
    assert!(memory.try_read_word(16).is_none());
    assert!(memory.try_read_word(0xFFFF_FFFF).is_none());
    assert!(memory.try_write_word(12, 1).is_some());
    assert!(memory.try_write_word(13, 1).is_none());
    assert!(memory.try_write_word(16, 1).is_none());
}

#[test]
fn fresh_memory_is_zeroed() {
    let memory = Memory::new_with_capacity(2);
    assert_eq!(memory.capacity(), 8);
    for address in 0..8 {
        assert_eq!(memory.read_byte(address), 0);
    }
    assert_eq!(memory.get_stack_pointer(), 0);
}

#[test]
fn word_round_trip_little_endian() {
    let mut memory = Memory::new_with_capacity(4);
    memory.write_word(5, 0xDEAD_BEEF);
    assert_eq!(memory.read_word(5), 0xDEAD_BEEF);
    // Little-endian byte order, no alignment requirement.
    assert_eq!(memory.read_byte(5), 0xEF);
    assert_eq!(memory.read_byte(6), 0xBE);
    assert_eq!(memory.read_byte(7), 0xAD);
    assert_eq!(memory.read_byte(8), 0xDE);
    assert_eq!(memory.read_halfword(5), 0xBEEF);
    assert_eq!(memory.read_halfword(6), 0xADBE);
}

#[test]
fn byte_and_halfword_round_trip() {
    let mut memory = Memory::new_with_capacity(4);
    memory.write_byte(3, 0x7A);
    assert_eq!(memory.read_byte(3), 0x7A);
    memory.write_halfword(10, 0xABCD);
    assert_eq!(memory.read_halfword(10), 0xABCD);
    assert_eq!(memory.read_byte(10), 0xCD);
    assert_eq!(memory.read_byte(11), 0xAB);
}

#[test]
fn doubleword_round_trip() {
    let mut memory = Memory::new_with_capacity(4);
    memory.write_doubleword(2, 0x0123_4567_89AB_CDEF);
    assert_eq!(memory.read_doubleword(2), 0x0123_4567_89AB_CDEF);
    assert_eq!(memory.read_byte(2), 0xEF);
    assert_eq!(memory.read_byte(9), 0x01);
    assert_eq!(memory.read_word(2), 0x89AB_CDEF);
    assert_eq!(memory.read_word(6), 0x0123_4567);
}

#[test]
fn alloc_tracks_highest_written_byte() {
    let mut memory = Memory::new_with_capacity(8);
    assert_eq!(memory.alloc, 0);
    memory.write_word(4, 1);
    assert_eq!(memory.alloc, 7);
    memory.write_byte(2, 1);
    assert_eq!(memory.alloc, 7);
    memory.write_halfword(20, 1);
    assert_eq!(memory.alloc, 21);
}

#[test]
fn cstring_round_trip() {
    let mut memory = Memory::new_with_capacity(16);
    let text: Vec<u8> = b"Enter a number:".to_vec();
    memory.write_cstring(7, &text);
    let back = memory.read_cstring(7);
    assert_eq!(back, text);
    // The terminator sits right after the content.
    assert_eq!(memory.read_byte(7 + text.len() as u32), 0);
}

#[test]
fn cstring_stops_at_first_nul() {
    let mut memory = Memory::new_with_capacity(4);
    memory.write_byte(0, b'H');
    memory.write_byte(1, b'i');
    // The rest of memory is zero, so the string ends at address 2.
    assert_eq!(memory.read_cstring(0), b"Hi".to_vec());
    // A string starting on the terminator is empty.
    assert_eq!(memory.read_cstring(2), Vec::<u8>::new());
}

#[test]
fn unterminated_cstring_faults() {
    let mut memory = Memory::new_with_capacity(1);
    memory.write_word(0, 0x0101_0101);
    assert!(memory.try_read_cstring(0).is_none());
    assert!(memory.try_read_cstring(4).is_none());
}

#[test]
fn load_program_places_words_and_stack_pointer() {
    let mut memory = Memory::new_with_capacity(8);
    memory.write_byte(30, 9);
    memory.load_program(vec![0x1111_1111, 0x2222_2222, 0x3333_3333]);
    assert_eq!(memory.read_word(0), 0x1111_1111);
    assert_eq!(memory.read_word(4), 0x2222_2222);
    assert_eq!(memory.read_word(8), 0x3333_3333);
    // The stack pointer lands immediately after the image.
    assert_eq!(memory.get_stack_pointer(), 12);
    // Memory beyond the image is untouched.
    assert_eq!(memory.read_byte(30), 9);
    // An empty program leaves the stack pointer at zero.
    let mut empty = Memory::new_with_capacity(1);
    empty.load_program(vec![]);
    assert_eq!(empty.get_stack_pointer(), 0);
}

#[test]
fn instruction_memory_serves_fixed_words() {
    let instruction_memory = InstructionMemory::new();
    assert_eq!(instruction_memory.load(0), 0b00000010001100101000000000100000);
    assert_eq!(instruction_memory.load(4), 0b00000010001100101000000000100001);
    assert_eq!(instruction_memory.load(8), 0b00000010001100101000000000100010);
    assert_eq!(instruction_memory.load(12), 0b00000010001100101000000000100011);
    // Unaligned addresses fall into the containing word.
    assert_eq!(instruction_memory.load(6), 0b00000010001100101000000000100001);
}

#[test]
fn data_memory_placeholders_read_zero() {
    let data_memory = DataMemory::new();
    assert_eq!(data_memory.read_byte(0), 0);
    assert_eq!(data_memory.read_halfword(100), 0);
    assert_eq!(data_memory.read_word(12), 0);
    assert_eq!(data_memory.read_cstring(3), Vec::<u8>::new());
}

#[test]
fn memory_stage_forwards_execute_result() {
    let exmem = EXMEMBuffer {
        instruction: Some(Instruction::load(0x20)),
        alu_result: 0xCAFE,
        pc: 0x40,
    };
    let mut memwb = MEMWBBuffer::new();
    DataMemory::execute(&exmem, &mut memwb);
    assert!(memwb.instruction.is_some());
    assert_eq!(memwb.data, 0xCAFE);
}
