use mips_sim::processor::registers::Register;
use mips_sim::processor::{CycleOutcome, Processor};

#[test]
fn fresh_processor_state() {
    let processor = Processor::new();
    assert_eq!(processor.program_counter.get(), 0);
    assert_eq!(processor.memory.capacity(), 4096);
    assert_eq!(processor.memory.get_stack_pointer(), 0);
    assert_eq!(processor.registers.get(Register::Sp), 0);
    assert!(!processor.is_halted());
    assert!(!processor.stall);
    assert!(processor.if_id_buffer.instruction.is_none());
}

#[test]
fn load_program_sets_stack_pointer_register() {
    let mut processor = Processor::new();
    processor.load_program(vec![0x1111_1111, 0x2222_2222]);
    assert_eq!(processor.memory.read_word(0), 0x1111_1111);
    assert_eq!(processor.memory.read_word(4), 0x2222_2222);
    assert_eq!(processor.registers.get(Register::Sp), 8);
}

#[test]
fn fetch_advances_the_counter() {
    let mut processor = Processor::new();
    let outcome = processor.cycle();
    assert!(matches!(outcome, CycleOutcome::Normal));
    assert_eq!(processor.program_counter.get(), 4);
    assert!(processor.if_id_buffer.instruction.is_some());
    assert_eq!(processor.if_id_buffer.pc, 4);
}

#[test]
fn taken_branch_inserts_exactly_one_bubble() {
    let mut processor = Processor::new();
    // beq $zero, $zero, 2 — always taken.
    processor.load_program(vec![(0x04 << 26) | 2]);
    // Cycle one fetches the branch.
    processor.cycle();
    assert!(processor.if_id_buffer.instruction.is_some());
    assert_eq!(processor.program_counter.get(), 4);
    // Cycle two decodes it: the stall suppresses this cycle's fetch — the
    // one bubble — and the counter does not advance.
    processor.cycle();
    assert!(processor.stall);
    assert!(processor.if_id_buffer.instruction.is_none());
    assert_eq!(processor.program_counter.get(), 4);
    // Cycle three resolves the branch in execute: the fetch is redirected
    // to the target — the next sequential address 4 plus (2 << 2), so 12 —
    // and an instruction is fetched again: exactly one bubble in all.
    processor.cycle();
    assert!(!processor.stall);
    assert!(processor.if_id_buffer.instruction.is_some());
    assert_eq!(processor.program_counter.get(), 16);
    assert_eq!(processor.if_id_buffer.pc, 16);
}

#[test]
fn untaken_branch_bubbles_then_continues_sequentially() {
    let mut processor = Processor::new();
    // beq $zero, $v0, 2 with differing operands.
    processor.registers.set(Register::V0, 1);
    processor.load_program(vec![(0x04 << 26) | (0 << 21) | (2 << 16) | 2]);
    processor.cycle();
    processor.cycle();
    // The same single bubble as a taken branch …
    assert!(processor.if_id_buffer.instruction.is_none());
    assert_eq!(processor.program_counter.get(), 4);
    // … but the following fetch continues sequentially.
    processor.cycle();
    assert!(processor.if_id_buffer.instruction.is_some());
    assert_eq!(processor.program_counter.get(), 8);
}

#[test]
fn jump_and_link_stores_return_address() {
    let mut processor = Processor::new();
    // A jump-and-link at address 0x40, targeting 0x10.
    let mut program: Vec<u32> = vec![0; 16];
    program.push((2 << 26) | (0x10 >> 2));
    processor.load_program(program);
    processor.set_entry_point(0x40);
    // Fetch the jump-and-link.
    processor.cycle();
    assert_eq!(processor.program_counter.get(), 0x44);
    // Decode it: the return-address register receives 0x44, and the very
    // next fetch happens at the target.
    processor.cycle();
    assert_eq!(processor.registers.get(Register::Ra), 0x44);
    assert_eq!(processor.program_counter.get(), 0x14);
    assert_eq!(processor.if_id_buffer.pc, 0x14);
}

#[test]
fn plain_jump_redirects_without_linking() {
    let mut processor = Processor::new();
    processor.load_program(vec![(1 << 26) | (0x20 >> 2)]);
    processor.cycle();
    processor.cycle();
    assert_eq!(processor.registers.get(Register::Ra), 0);
    assert_eq!(processor.program_counter.get(), 0x24);
}

#[test]
fn jump_register_redirects_next_fetch() {
    let mut processor = Processor::new();
    processor.registers.set(Register::T1, 0x20);
    // jr $t1
    processor.load_program(vec![(9 << 21) | 0x08]);
    processor.cycle();
    processor.cycle();
    assert_eq!(processor.program_counter.get(), 0x24);
}

#[test]
fn result_retires_through_the_pipeline() {
    let mut processor = Processor::new();
    // addiu $t0, $zero, 7 followed by pipeline drain.
    processor.load_program(vec![(0x09 << 26) | (0 << 21) | (8 << 16) | 7]);
    processor.cycle();
    processor.cycle();
    processor.cycle();
    // Fetched in cycle one, decoded in two, executed in three: not yet
    // written back.
    assert_eq!(processor.registers.get(Register::T0), 0);
    processor.cycle();
    // The memory stage forwards it and write-back commits it in cycle four.
    assert_eq!(processor.registers.get(Register::T0), 7);
}

#[test]
fn exit_syscall_terminates_before_any_further_cycle() {
    let mut processor = Processor::new();
    processor.registers.set(Register::V0, 10);
    processor.load_program(vec![0x0C]);
    processor.cycle();
    assert!(!processor.is_halted());
    let outcome = processor.cycle();
    assert!(matches!(outcome, CycleOutcome::Exit));
    assert!(processor.is_halted());
    // The exit takes effect before this cycle's fetch.
    assert_eq!(processor.program_counter.get(), 4);
    // A terminated machine no longer changes.
    let after = processor.cycle();
    assert!(matches!(after, CycleOutcome::Halted));
    assert_eq!(processor.program_counter.get(), 4);
    assert_eq!(processor.registers.get(Register::V0), 10);
    assert!(processor.is_halted());
}

#[test]
fn end_to_end_load_immediate_prints_once() {
    let mut processor = Processor::new();
    // Load-immediate the print-integer syscall number into the return-value
    // register, let it retire through the pipeline (one padding word), then
    // trap. The argument register still points at address zero, so the
    // printed word is the first program word itself.
    let load_immediate: u32 = (0x09 << 26) | (0 << 21) | (2 << 16) | 1;
    processor.load_program(vec![load_immediate, 0, 0x0C]);
    let mut printed: Vec<u32> = Vec::new();
    for _ in 0..12 {
        match processor.cycle() {
            CycleOutcome::PrintInt(value) => printed.push(value),
            CycleOutcome::Normal => {},
            other => panic!("unexpected outcome {:?}", other),
        }
    }
    // The correct number, printed exactly once.
    assert_eq!(printed, vec![load_immediate]);
}

#[test]
fn print_string_syscall_reports_the_bytes() {
    let mut processor = Processor::new();
    let text: Vec<u8> = b"Enter a number:".to_vec();
    processor.memory.write_cstring(100, &text);
    processor.registers.set(Register::V0, 4);
    processor.registers.set(Register::A0, 100);
    processor.load_program(vec![0x0C]);
    processor.cycle();
    let outcome = processor.cycle();
    match outcome {
        CycleOutcome::PrintString(bytes) => assert_eq!(bytes, text),
        other => panic!("unexpected outcome {:?}", other),
    }
    assert!(!processor.is_halted());
}

#[test]
fn print_at_bad_address_is_a_bus_fault() {
    let mut processor = Processor::new();
    processor.registers.set(Register::V0, 1);
    processor.registers.set(Register::A0, 0xFFFF_FF00);
    processor.load_program(vec![0x0C]);
    processor.cycle();
    let outcome = processor.cycle();
    assert!(matches!(outcome, CycleOutcome::Fault));
    assert!(processor.is_halted());
}

#[test]
fn unrecognized_syscall_numbers_are_ignored() {
    let mut processor = Processor::new();
    processor.registers.set(Register::V0, 99);
    processor.load_program(vec![0x0C]);
    processor.cycle();
    let outcome = processor.cycle();
    assert!(matches!(outcome, CycleOutcome::Normal));
    assert!(!processor.is_halted());
}

#[test]
fn read_int_syscall_requests_and_accepts_input() {
    let mut processor = Processor::new();
    processor.registers.set(Register::V0, 5);
    processor.load_program(vec![0x0C]);
    processor.cycle();
    let outcome = processor.cycle();
    assert!(matches!(outcome, CycleOutcome::ReadInt));
    assert!(!processor.is_halted());
    // The surrounding program obtains -42 and hands it back.
    processor.provide_input((-42i32) as u32);
    assert_eq!(processor.registers.get(Register::V0) as i32, -42);
    // The simulation carries on.
    assert!(matches!(processor.cycle(), CycleOutcome::Normal));
}

#[test]
fn fetch_beyond_capacity_is_a_bus_fault() {
    let mut processor = Processor::new();
    processor.set_entry_point(4096);
    let outcome = processor.cycle();
    assert!(matches!(outcome, CycleOutcome::Fault));
    assert!(processor.is_halted());
    assert_eq!(processor.program_counter.get(), 4096);
    // A word must fit entirely: 4093 + 4 exceeds the capacity too.
    let mut clipped = Processor::new();
    clipped.set_entry_point(4093);
    assert!(matches!(clipped.cycle(), CycleOutcome::Fault));
    assert!(clipped.is_halted());
}

#[test]
fn entry_point_steers_the_first_fetch() {
    let mut processor = Processor::new();
    let mut program: Vec<u32> = vec![0; 7];
    program.push((0x09 << 26) | (0 << 21) | (8 << 16) | 3);
    processor.load_program(program);
    processor.set_entry_point(0x1C);
    processor.cycle();
    assert_eq!(processor.program_counter.get(), 0x20);
    for _ in 0..3 {
        processor.cycle();
    }
    assert_eq!(processor.registers.get(Register::T0), 3);
}
