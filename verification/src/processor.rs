//! The processor: owner of every pipeline component and of the per-cycle
//! orchestration.
//!
//! One `cycle` call advances the whole pipeline by one clock. The stages run
//! in reverse pipeline order — memory access, execute, decode with
//! write-back, control, fetch — so that every stage consumes the buffer
//! contents the previous cycle left behind before anything overwrites them,
//! which is exactly the behaviour of synchronous hardware registers updating
//! simultaneously.
//!
//! The pipeline relies on stalling, not forwarding: a branch inserts exactly
//! one bubble while its outcome resolves in the execute stage; jumps are
//! resolved already in decode and redirect the immediately following fetch
//! with no extra delay.
//!
//! All input and output stays outside this crate: a `cycle` reports what the
//! decoded syscall asks for — a value to print, a string to print, a
//! request for one integer of input — and the surrounding program performs
//! it and, for input, hands the value back through [`Processor::provide_input`].

pub mod alu;
pub mod buffer;
pub mod instruction;
pub mod memory;
pub mod program_counter;
pub mod registers;

use vstd::prelude::*;

use crate::processor::alu::{
    spec_branch_target, spec_execute_alu, spec_execute_exmem, spec_execute_redirect, spec_opcode_from,
    ALU, OpCode,
};
use crate::processor::buffer::{EXMEMBuffer, IDEXBuffer, IFIDBuffer, MEMWBBuffer};
use crate::processor::instruction::{
    spec_decode, spec_wf_instruction, Instruction, InstructionType,
};
use crate::processor::memory::{
    spec_cstring_bytes, spec_cstring_terminated, spec_read_word, DataMemory, Memory,
};
use crate::processor::program_counter::ProgramCounter;
use crate::processor::registers::{
    spec_decode_idex, spec_decode_regs, spec_decode_signal, spec_reg_set, spec_write_back,
    DecodeReturn, Register, Registers,
};

verus! {

/// The memory capacity a processor is built with, in 32-bit words.
pub const MEMORY_SIZE: u32 = 1024;

/// The whole machine: program counter, memory, register file, the
/// arithmetic/logic unit with its accumulators, the four inter-stage
/// buffers, the one-bit stall state of the control hazard machinery, and
/// whether the simulation has terminated.
pub struct Processor {
    pub program_counter: ProgramCounter,
    pub memory: Memory,
    pub if_id_buffer: IFIDBuffer,
    pub registers: Registers,
    pub id_ex_buffer: IDEXBuffer,
    pub alu: ALU,
    pub ex_mem_buffer: EXMEMBuffer,
    pub mem_wb_buffer: MEMWBBuffer,
    pub stall: bool,
    pub halted: bool,
}

/// What one cycle asks of the surrounding program. Printing and input are
/// deliberately kept outside the simulator: the caller performs them.
#[derive(Debug)]
pub enum CycleOutcome {
    /// The cycle completed with nothing to report.
    Normal,
    /// The print-integer syscall trapped in decode: print this word.
    PrintInt(u32),
    /// The print-string syscall trapped in decode: print these bytes.
    PrintString(Vec<u8>),
    /// The read-integer syscall trapped in decode: obtain one integer and
    /// hand it back through [`Processor::provide_input`] before the next
    /// cycle.
    ReadInt,
    /// The exit syscall trapped in decode: the simulation has terminated.
    Exit,
    /// A bus fault — an out-of-range memory access — terminated the
    /// simulation.
    Fault,
    /// No cycle was executed: the simulation had already terminated.
    Halted,
}

/// The mathematical image of one [`CycleOutcome`].
pub enum OutcomeModel {
    Normal,
    PrintInt(u32),
    PrintString(Seq<u8>),
    ReadInt,
    Exit,
    Fault,
    Halted,
}

/// Whether an outcome value carries exactly what its model says.
pub open spec fn outcome_matches(r: CycleOutcome, m: OutcomeModel) -> bool {
    match (r, m) {
        (CycleOutcome::Normal, OutcomeModel::Normal) => true,
        (CycleOutcome::PrintInt(a), OutcomeModel::PrintInt(b)) => a == b,
        (CycleOutcome::PrintString(v), OutcomeModel::PrintString(s)) => v@ == s,
        (CycleOutcome::ReadInt, OutcomeModel::ReadInt) => true,
        (CycleOutcome::Exit, OutcomeModel::Exit) => true,
        (CycleOutcome::Fault, OutcomeModel::Fault) => true,
        (CycleOutcome::Halted, OutcomeModel::Halted) => true,
        _ => false,
    }
}

/// The mathematical state of the whole machine: what every contract of the
/// processor speaks about.
#[verifier::ext_equal]
pub struct ProcState {
    pub pc: u32,
    pub mem: Seq<u8>,
    pub stack_pointer: u32,
    pub alloc: u32,
    pub regs: Seq<u32>,
    pub hi: u32,
    pub lo: u32,
    pub if_id: IFIDBuffer,
    pub id_ex: IDEXBuffer,
    pub ex_mem: EXMEMBuffer,
    pub mem_wb: MEMWBBuffer,
    pub stall: bool,
    pub halted: bool,
}

impl View for Processor {
    type V = ProcState;

    open spec fn view(&self) -> ProcState {
        ProcState {
            pc: self.program_counter.pc,
            mem: self.memory.bytes@,
            stack_pointer: self.memory.stack_pointer,
            alloc: self.memory.alloc,
            regs: self.registers.r@,
            hi: self.alu.hi,
            lo: self.alu.lo,
            if_id: self.if_id_buffer,
            id_ex: self.id_ex_buffer,
            ex_mem: self.ex_mem_buffer,
            mem_wb: self.mem_wb_buffer,
            stall: self.stall,
            halted: self.halted,
        }
    }
}

/// The memory-to-write-back buffer the memory-access stage produces this
/// cycle: the execute result forwarded for retirement.
pub open spec fn spec_memwb_next(s: ProcState) -> MEMWBBuffer {
    MEMWBBuffer { instruction: s.ex_mem.instruction, data: s.ex_mem.alu_result }
}

/// The accumulator pair as the execute stage sees it this cycle.
pub open spec fn spec_alu_state(s: ProcState) -> ALU {
    ALU { hi: s.hi, lo: s.lo }
}

/// The execute-to-memory buffer the execute stage produces this cycle.
pub open spec fn spec_cycle_exmem(s: ProcState) -> EXMEMBuffer {
    spec_execute_exmem(spec_alu_state(s), s.id_ex)
}

/// The accumulator pair after the execute stage.
pub open spec fn spec_cycle_alu(s: ProcState) -> ALU {
    spec_execute_alu(spec_alu_state(s), s.id_ex)
}

/// The register file after the write-back step.
pub open spec fn spec_cycle_regs_wb(s: ProcState) -> Seq<u32> {
    spec_write_back(s.regs, spec_memwb_next(s))
}

/// The control signal decode emits this cycle.
pub open spec fn spec_cycle_signal(s: ProcState) -> DecodeReturn {
    spec_decode_signal(spec_cycle_regs_wb(s), s.if_id)
}

/// The decode-to-execute buffer decode produces this cycle.
pub open spec fn spec_cycle_idex(s: ProcState) -> IDEXBuffer {
    spec_decode_idex(spec_cycle_regs_wb(s), s.if_id)
}

/// The register file after write-back and decode's own side effect.
pub open spec fn spec_cycle_regs(s: ProcState) -> Seq<u32> {
    spec_decode_regs(spec_cycle_regs_wb(s), s.if_id)
}

/// The program counter once the execute-stage redirect and the decode
/// signal have been applied, in that order: a taken branch redirects to the
/// resolved target, and a jump from decode overrides it.
pub open spec fn spec_cycle_pc_mid(s: ProcState) -> u32 {
    let pc0 = if spec_execute_redirect(s.id_ex) {
        spec_cycle_exmem(s).pc
    } else {
        s.pc
    };
    match spec_cycle_signal(s) {
        DecodeReturn::Jump(a) => a,
        _ => pc0,
    }
}

/// The stall bit after the control step: a branch sets it, the bubble it
/// forced clears it one cycle later, and nothing else touches it.
pub open spec fn spec_cycle_stall(s: ProcState) -> bool {
    match spec_cycle_signal(s) {
        DecodeReturn::Stall => true,
        DecodeReturn::Nop => false,
        _ => s.stall,
    }
}

/// What the syscall dispatcher asks for, reading the syscall number from
/// the return-value register: 1 prints the word at the address in the first
/// argument register, 4 prints the C-style string there, 5 requests one
/// integer of input, 10 exits, and every other number is a no-op. A print
/// whose address is out of range is a bus fault.
pub open spec fn spec_syscall_outcome(regs: Seq<u32>, mem: Seq<u8>) -> OutcomeModel {
    let v0 = regs[2];
    let a0 = regs[4];
    if v0 == 1 {
        if a0 + 4 <= mem.len() {
            OutcomeModel::PrintInt(spec_read_word(mem, a0 as int))
        } else {
            OutcomeModel::Fault
        }
    } else if v0 == 4 {
        if spec_cstring_terminated(mem, a0 as int) {
            OutcomeModel::PrintString(spec_cstring_bytes(mem, a0 as int))
        } else {
            OutcomeModel::Fault
        }
    } else if v0 == 5 {
        OutcomeModel::ReadInt
    } else if v0 == 10 {
        OutcomeModel::Exit
    } else {
        OutcomeModel::Normal
    }
}

/// Whether this cycle's decode traps into the syscall dispatcher.
pub open spec fn spec_cycle_is_syscall(s: ProcState) -> bool {
    spec_cycle_signal(s) == DecodeReturn::Syscall
}

/// What this cycle's syscall, if any, asks for.
pub open spec fn spec_cycle_sys_outcome(s: ProcState) -> OutcomeModel {
    spec_syscall_outcome(spec_cycle_regs(s), s.mem)
}

/// Whether the simulation terminates before this cycle's fetch: the exit
/// syscall, or a bus fault inside the dispatcher.
pub open spec fn spec_halts_before_fetch(s: ProcState) -> bool {
    spec_cycle_is_syscall(s) && (spec_cycle_sys_outcome(s) == OutcomeModel::Exit
        || spec_cycle_sys_outcome(s) == OutcomeModel::Fault)
}

/// Whether this cycle's fetch itself is a bus fault: a fetch is attempted
/// and no whole word fits at the fetch address.
pub open spec fn spec_fetch_faults(s: ProcState) -> bool {
    &&& !spec_halts_before_fetch(s)
    &&& !spec_cycle_stall(s)
    &&& spec_cycle_pc_mid(s) + 4 > s.mem.len()
}

/// What one `cycle` call reports, for any machine state.
pub open spec fn spec_outcome(s: ProcState) -> OutcomeModel {
    if s.halted {
        OutcomeModel::Halted
    } else if spec_cycle_is_syscall(s) {
        let o = spec_cycle_sys_outcome(s);
        if o == OutcomeModel::Normal && spec_fetch_faults(s) {
            OutcomeModel::Fault
        } else {
            o
        }
    } else if spec_fetch_faults(s) {
        OutcomeModel::Fault
    } else {
        OutcomeModel::Normal
    }
}

/// The machine state after one `cycle` call, for any machine state. A
/// terminated machine no longer changes.
pub open spec fn spec_cycle_state(s: ProcState) -> ProcState {
    if s.halted {
        s
    } else {
        let pc_mid = spec_cycle_pc_mid(s);
        let base = ProcState {
            pc: pc_mid,
            mem: s.mem,
            stack_pointer: s.stack_pointer,
            alloc: s.alloc,
            regs: spec_cycle_regs(s),
            hi: spec_cycle_alu(s).hi,
            lo: spec_cycle_alu(s).lo,
            if_id: s.if_id,
            id_ex: spec_cycle_idex(s),
            ex_mem: spec_cycle_exmem(s),
            mem_wb: spec_memwb_next(s),
            stall: spec_cycle_stall(s),
            halted: false,
        };
        if spec_halts_before_fetch(s) {
            ProcState { halted: true, ..base }
        } else if spec_cycle_stall(s) {
            ProcState { if_id: IFIDBuffer { instruction: None, pc: pc_mid }, ..base }
        } else if spec_fetch_faults(s) {
            ProcState { halted: true, ..base }
        } else {
            let word = spec_read_word(s.mem, pc_mid as int);
            ProcState {
                pc: (pc_mid + 4) as u32,
                if_id: IFIDBuffer {
                    instruction: Some(spec_decode(word)),
                    pc: (pc_mid + 4) as u32,
                },
                ..base
            }
        }
    }
}

impl Processor {
    /// Every component is well formed: the memory capacity fits the address
    /// space, the register file has its thirty-two registers with a zero in
    /// register zero, and every in-flight instruction is a faithfully
    /// decoded word.
    pub open spec fn wf(&self) -> bool {
        &&& self.memory.wf()
        &&& self.registers.wf()
        &&& (self.if_id_buffer.instruction matches Some(i) ==> spec_wf_instruction(i))
        &&& (self.id_ex_buffer.instruction matches Some(i) ==> spec_wf_instruction(i))
        &&& (self.ex_mem_buffer.instruction matches Some(i) ==> spec_wf_instruction(i))
        &&& (self.mem_wb_buffer.instruction matches Some(i) ==> spec_wf_instruction(i))
    }

    /// A fresh processor: a fixed-capacity zeroed memory, zeroed registers
    /// with the stack-pointer register initialized to the memory's
    /// stack-pointer address, a zeroed program counter, empty buffers,
    /// cleared accumulators, not stalled, not terminated.
    pub fn new() -> (r: Self)
        ensures
            r.wf(),
            r@.pc == 0,
            r@.mem.len() == 4 * MEMORY_SIZE,
            forall|i: int| 0 <= i < r@.mem.len() ==> r@.mem[i] == 0,
            r@.stack_pointer == 0,
            r@.alloc == 0,
            r@.regs.len() == 32,
            forall|i: int| 0 <= i < 32 ==> r@.regs[i] == 0,
            r@.hi == 0,
            r@.lo == 0,
            r@.if_id.instruction is None,
            r@.if_id.pc == 0,
            r@.id_ex.instruction is None,
            r@.ex_mem.instruction is None,
            r@.mem_wb.instruction is None,
            r@.stall == false,
            r@.halted == false,
    {
        let mut processor = Processor {
            program_counter: ProgramCounter::new(),
            memory: Memory::new_with_capacity(MEMORY_SIZE),
            if_id_buffer: IFIDBuffer::new(),
            registers: Registers::new(),
            id_ex_buffer: IDEXBuffer::new(),
            alu: ALU::new(),
            ex_mem_buffer: EXMEMBuffer::new(),
            mem_wb_buffer: MEMWBBuffer::new(),
            stall: false,
            halted: false,
        };
        let sp = processor.memory.get_stack_pointer();
        processor.registers.set(Register::Sp, sp);
        processor
    }

    /// Load a program: write its words sequentially from address zero and
    /// point the stack-pointer register just past the image. Loading after
    /// execution has begun is allowed and overwrites memory in place.
    pub fn load_program(&mut self, program: Vec<u32>)
        requires
            old(self).wf(),
            4 * program@.len() <= old(self)@.mem.len(),
        ensures
            final(self).wf(),
            final(self)@.mem.len() == old(self)@.mem.len(),
            forall|k: int|
                0 <= k < program@.len() ==> spec_read_word(final(self)@.mem, 4 * k)
                    == program@[k],
            forall|j: int|
                4 * program@.len() <= j < old(self)@.mem.len() ==> final(self)@.mem[j] == old(
                    self,
                )@.mem[j],
            final(self)@.stack_pointer == 4 * program@.len(),
            final(self)@.regs == spec_reg_set(
                old(self)@.regs,
                Register::Sp.spec_index(),
                (4 * program@.len()) as u32,
            ),
            final(self)@.pc == old(self)@.pc,
            final(self)@.hi == old(self)@.hi,
            final(self)@.lo == old(self)@.lo,
            final(self)@.if_id == old(self)@.if_id,
            final(self)@.id_ex == old(self)@.id_ex,
            final(self)@.ex_mem == old(self)@.ex_mem,
            final(self)@.mem_wb == old(self)@.mem_wb,
            final(self)@.stall == old(self)@.stall,
            final(self)@.halted == old(self)@.halted,
    {
        self.memory.load_program(program);
        let sp = self.memory.get_stack_pointer();
        self.registers.set(Register::Sp, sp);
    }

    /// Point the program counter at the entry address of the loaded
    /// program; used once before the first cycle.
    pub fn set_entry_point(&mut self, address: u32)
        ensures
            final(self)@ == (ProcState { pc: address, ..old(self)@ }),
    {
        self.program_counter.set(address);
    }

    /// Whether the simulation has terminated, through the exit syscall or a
    /// bus fault.
    pub fn is_halted(&self) -> (r: bool)
        ensures
            r == self@.halted,
    {
        self.halted
    }

    /// Store one integer of external input into the return-value register:
    /// the completion of the read-integer syscall, to be called after a
    /// cycle reports [`CycleOutcome::ReadInt`] and before the next cycle.
    pub fn provide_input(&mut self, value: u32)
        requires
            old(self).wf(),
        ensures
            final(self).wf(),
            final(self)@ == (ProcState {
                regs: spec_reg_set(
                    old(self)@.regs,
                    Register::V0.spec_index(),
                    value,
                ),
                ..old(self)@
            }),
    {
        self.registers.set(Register::V0, value);
    }

    /// The syscall dispatcher's decision: what the syscall whose trap just
    /// decoded asks of the surrounding program, given the current register
    /// file and memory.
    fn syscall(&self) -> (r: CycleOutcome)
        requires
            self.wf(),
        ensures
            outcome_matches(r, spec_syscall_outcome(self.registers.r@, self.memory.bytes@)),
    {
        let syscall_code = self.registers.get(Register::V0);
        if syscall_code == 1 {
            let address = self.registers.get(Register::A0);
            match self.memory.try_read_word(address) {
                Some(word) => CycleOutcome::PrintInt(word),
                None => CycleOutcome::Fault,
            }
        } else if syscall_code == 4 {
            let address = self.registers.get(Register::A0);
            match self.memory.try_read_cstring(address) {
                Some(bytes) => CycleOutcome::PrintString(bytes),
                None => CycleOutcome::Fault,
            }
        } else if syscall_code == 5 {
            CycleOutcome::ReadInt
        } else if syscall_code == 10 {
            CycleOutcome::Exit
        } else {
            CycleOutcome::Normal
        }
    }

    /// Advance the whole pipeline by one clock, in the order that preserves
    /// the synchronous-register semantics: memory access, execute (with the
    /// branch redirect), decode with write-back, the control signal, fetch.
    /// Reports what the surrounding program must do; once the simulation
    /// has terminated, reports that and changes nothing.
    pub fn cycle(&mut self) -> (r: CycleOutcome)
        requires
            old(self).wf(),
        ensures
            final(self).wf(),
            final(self)@ == spec_cycle_state(old(self)@),
            outcome_matches(r, spec_outcome(old(self)@)),
    {
        let ghost s0 = self@;
        if self.halted {
            return CycleOutcome::Halted;
        }
        DataMemory::execute(&self.ex_mem_buffer, &mut self.mem_wb_buffer);
        let redirect = self.alu.execute(&self.id_ex_buffer, &mut self.ex_mem_buffer);
        if redirect {
            self.program_counter.set(self.ex_mem_buffer.pc);
        }
        let decode = self.registers.execute(
            &self.if_id_buffer,
            &mut self.id_ex_buffer,
            &mut self.mem_wb_buffer,
        );
        let mut outcome = CycleOutcome::Normal;
        match decode {
            DecodeReturn::Jump(address) => {
                self.program_counter.set(address);
            },
            DecodeReturn::Syscall => {
                outcome = self.syscall();
                let halt_now = match &outcome {
                    CycleOutcome::Exit => true,
                    CycleOutcome::Fault => true,
                    _ => false,
                };
                if halt_now {
                    self.halted = true;
                    proof {
                        assert(self@ =~= spec_cycle_state(s0));
                    }
                    return outcome;
                }
            },
            DecodeReturn::Stall => {
                self.stall = true;
            },
            DecodeReturn::Nop => {
                if self.stall {
                    self.stall = false;
                }
            },
        }
        if self.stall {
            self.if_id_buffer.instruction = None;
            self.if_id_buffer.pc = self.program_counter.get();
            proof {
                assert(self@ =~= spec_cycle_state(s0));
            }
            outcome
        } else {
            match self.memory.try_read_word(self.program_counter.get()) {
                Some(word) => {
                    let instruction = Instruction::load(word);
                    self.program_counter.increment();
                    self.if_id_buffer.instruction = Some(instruction);
                    self.if_id_buffer.pc = self.program_counter.get();
                    proof {
                        assert(self@ =~= spec_cycle_state(s0));
                    }
                    outcome
                },
                None => {
                    self.halted = true;
                    let faulted = match &outcome {
                        CycleOutcome::Normal => true,
                        _ => false,
                    };
                    proof {
                        assert(self@ =~= spec_cycle_state(s0));
                    }
                    if faulted {
                        CycleOutcome::Fault
                    } else {
                        outcome
                    }
                },
            }
        }
    }
}

/// Syscall exit: a cycle whose decode traps into the dispatcher with the
/// exit code terminates the simulation at once — no fetch follows within
/// that cycle — and a terminated machine executes no further cycle: every
/// later call leaves the state unchanged and reports only that it halted.
pub proof fn lemma_exit_halts(s: ProcState)
    requires
        !s.halted,
        spec_cycle_is_syscall(s),
        spec_cycle_regs(s)[2] == 10,
    ensures
        spec_outcome(s) == OutcomeModel::Exit,
        spec_cycle_state(s).halted,
        spec_cycle_state(s).if_id == s.if_id,
        spec_cycle_state(spec_cycle_state(s)) == spec_cycle_state(s),
        spec_outcome(spec_cycle_state(s)) == OutcomeModel::Halted,
{
}

/// Branch timing: decoding a branch-equal instruction inserts exactly one
/// bubble — that same cycle fetches nothing and the program counter does
/// not advance — and in the immediately following cycle the stall is over
/// and the branch has resolved in the execute stage: with equal operands
/// the next fetch is redirected to the branch target, with differing
/// operands it continues sequentially from where it left off.
pub proof fn lemma_branch_timing(s: ProcState, i: Instruction)
    requires
        !s.halted,
        !s.stall,
        s.if_id.instruction == Some(i),
        spec_wf_instruction(i),
        i.instruction_type == InstructionType::I,
        spec_opcode_from(i.opcode) == Some(OpCode::Beq),
        !spec_execute_redirect(s.id_ex),
    ensures
        spec_cycle_stall(s),
        spec_cycle_state(s).if_id.instruction is None,
        spec_cycle_state(s).pc == s.pc,
        !spec_cycle_state(s).halted,
        !spec_cycle_stall(spec_cycle_state(s)),
        spec_cycle_regs_wb(s)[i.rs->0 as int] == spec_cycle_regs_wb(s)[i.rt->0 as int]
            ==> spec_cycle_pc_mid(spec_cycle_state(s)) == spec_branch_target(
            s.if_id.pc,
            i.imm->0,
        ),
        spec_cycle_regs_wb(s)[i.rs->0 as int] != spec_cycle_regs_wb(s)[i.rt->0 as int]
            ==> spec_cycle_pc_mid(spec_cycle_state(s)) == s.pc,
        !spec_fetch_faults(spec_cycle_state(s)) ==> spec_cycle_state(
            spec_cycle_state(s),
        ).if_id.instruction == Some(
            spec_decode(spec_read_word(s.mem, spec_cycle_pc_mid(spec_cycle_state(s)) as int)),
        ),
{
    let s1 = spec_cycle_state(s);
    assert(spec_cycle_signal(s) == DecodeReturn::Stall);
    assert(s1.id_ex == spec_cycle_idex(s));
    assert(spec_cycle_signal(s1) == DecodeReturn::Nop);
}

} // verus!
