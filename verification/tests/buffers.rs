use mips_sim::processor::buffer::{EXMEMBuffer, IDEXBuffer, IFIDBuffer, MEMWBBuffer};
use mips_sim::processor::instruction::Instruction;
use mips_sim::processor::program_counter::ProgramCounter;

#[test]
fn buffers_start_as_bubbles() {
    let if_id = IFIDBuffer::new();
    assert!(if_id.instruction.is_none());
    assert_eq!(if_id.pc, 0);
    let id_ex = IDEXBuffer::new();
    assert!(id_ex.instruction.is_none());
    assert_eq!((id_ex.data_1, id_ex.data_2, id_ex.sign_extended, id_ex.pc), (0, 0, 0, 0));
    let ex_mem = EXMEMBuffer::new();
    assert!(ex_mem.instruction.is_none());
    assert_eq!((ex_mem.alu_result, ex_mem.pc), (0, 0));
    let mem_wb = MEMWBBuffer::new();
    assert!(mem_wb.instruction.is_none());
    assert_eq!(mem_wb.data, 0);
}

#[test]
fn fetch_buffer_accepts_an_instruction() {
    let mut if_id = IFIDBuffer::new();
    let instruction = Instruction::load(0x20);
    if_id.set(instruction, 0x44);
    assert!(if_id.instruction.is_some());
    assert_eq!(if_id.instruction.unwrap().funct, Some(0x20));
    assert_eq!(if_id.pc, 0x44);
}

#[test]
fn program_counter_sets_and_increments() {
    let mut counter = ProgramCounter::new();
    assert_eq!(counter.get(), 0);
    counter.increment();
    assert_eq!(counter.get(), 4);
    counter.set(0x100);
    assert_eq!(counter.get(), 0x100);
    counter.increment();
    assert_eq!(counter.get(), 0x104);
}
