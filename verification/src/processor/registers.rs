//! The register file, the write-back stage and the decode control.
//!
//! Thirty-two general-purpose 32-bit registers, indexed by the canonical
//! MIPS register roles. Register zero is hard-wired to zero: writes to it
//! are silently discarded and reads of it always yield zero.
//!
//! The decode stage lives here too: on every invocation it first commits the
//! previous memory-stage result into the register file (so a same-cycle
//! dependent read never observes a stale value), then reads the source
//! operands of the instruction entering decode, and returns the control
//! signal the processor uses to steer the pipeline.

use vstd::prelude::*;

use crate::processor::alu::{spec_function_code_from, spec_opcode_from, FunctionCode, OpCode};
use crate::processor::buffer::{IDEXBuffer, IFIDBuffer, MEMWBBuffer};
use crate::processor::instruction::{spec_wf_instruction, Instruction, InstructionType};

verus! {

/// The canonical register roles, in index order 0 through 31.
#[derive(Clone, Copy, Debug, PartialEq, Eq, Structural)]
pub enum Register {
    /// Hard-wired to 0; all writes are ignored.
    Zero,
    /// Assembler temporary.
    At,
    /// Return value.
    V0,
    /// Return value.
    V1,
    /// Function argument.
    A0,
    /// Function argument.
    A1,
    /// Function argument.
    A2,
    /// Function argument.
    A3,
    /// Temporary.
    T0,
    /// Temporary.
    T1,
    /// Temporary.
    T2,
    /// Temporary.
    T3,
    /// Temporary.
    T4,
    /// Temporary.
    T5,
    /// Temporary.
    T6,
    /// Temporary.
    T7,
    /// Saved temporary.
    S0,
    /// Saved temporary.
    S1,
    /// Saved temporary.
    S2,
    /// Saved temporary.
    S3,
    /// Saved temporary.
    S4,
    /// Saved temporary.
    S5,
    /// Saved temporary.
    S6,
    /// Saved temporary.
    S7,
    /// Temporary.
    T8,
    /// Temporary.
    T9,
    /// Reserved for OS kernel.
    K0,
    /// Reserved for OS kernel.
    K1,
    /// Global pointer.
    Gp,
    /// Stack pointer.
    Sp,
    /// Frame pointer.
    Fp,
    /// Return address.
    Ra,
}

impl Register {
    /// The index of this register in the file, 0 through 31.
    pub open spec fn spec_index(self) -> int {
        match self {
            Register::Zero => 0,
            Register::At => 1,
            Register::V0 => 2,
            Register::V1 => 3,
            Register::A0 => 4,
            Register::A1 => 5,
            Register::A2 => 6,
            Register::A3 => 7,
            Register::T0 => 8,
            Register::T1 => 9,
            Register::T2 => 10,
            Register::T3 => 11,
            Register::T4 => 12,
            Register::T5 => 13,
            Register::T6 => 14,
            Register::T7 => 15,
            Register::S0 => 16,
            Register::S1 => 17,
            Register::S2 => 18,
            Register::S3 => 19,
            Register::S4 => 20,
            Register::S5 => 21,
            Register::S6 => 22,
            Register::S7 => 23,
            Register::T8 => 24,
            Register::T9 => 25,
            Register::K0 => 26,
            Register::K1 => 27,
            Register::Gp => 28,
            Register::Sp => 29,
            Register::Fp => 30,
            Register::Ra => 31,
        }
    }

    /// The index of this register in the file.
    pub fn index(self) -> (r: usize)
        ensures
            r == self.spec_index(),
    {
        match self {
            Register::Zero => 0,
            Register::At => 1,
            Register::V0 => 2,
            Register::V1 => 3,
            Register::A0 => 4,
            Register::A1 => 5,
            Register::A2 => 6,
            Register::A3 => 7,
            Register::T0 => 8,
            Register::T1 => 9,
            Register::T2 => 10,
            Register::T3 => 11,
            Register::T4 => 12,
            Register::T5 => 13,
            Register::T6 => 14,
            Register::T7 => 15,
            Register::S0 => 16,
            Register::S1 => 17,
            Register::S2 => 18,
            Register::S3 => 19,
            Register::S4 => 20,
            Register::S5 => 21,
            Register::S6 => 22,
            Register::S7 => 23,
            Register::T8 => 24,
            Register::T9 => 25,
            Register::K0 => 26,
            Register::K1 => 27,
            Register::Gp => 28,
            Register::Sp => 29,
            Register::Fp => 30,
            Register::Ra => 31,
        }
    }

    /// The register with the given index, if the index is below 32.
    pub fn from_u8(value: u8) -> (r: Option<Register>)
        ensures
            value < 32 ==> (r matches Some(reg) && reg.spec_index() == value),
            value >= 32 ==> r is None,
    {
        match value {
            0 => Some(Register::Zero),
            1 => Some(Register::At),
            2 => Some(Register::V0),
            3 => Some(Register::V1),
            4 => Some(Register::A0),
            5 => Some(Register::A1),
            6 => Some(Register::A2),
            7 => Some(Register::A3),
            8 => Some(Register::T0),
            9 => Some(Register::T1),
            10 => Some(Register::T2),
            11 => Some(Register::T3),
            12 => Some(Register::T4),
            13 => Some(Register::T5),
            14 => Some(Register::T6),
            15 => Some(Register::T7),
            16 => Some(Register::S0),
            17 => Some(Register::S1),
            18 => Some(Register::S2),
            19 => Some(Register::S3),
            20 => Some(Register::S4),
            21 => Some(Register::S5),
            22 => Some(Register::S6),
            23 => Some(Register::S7),
            24 => Some(Register::T8),
            25 => Some(Register::T9),
            26 => Some(Register::K0),
            27 => Some(Register::K1),
            28 => Some(Register::Gp),
            29 => Some(Register::Sp),
            30 => Some(Register::Fp),
            31 => Some(Register::Ra),
            _ => None,
        }
    }
}

/// The control signal decode hands the processor.
#[derive(Clone, Copy, Debug, PartialEq, Eq, Structural)]
pub enum DecodeReturn {
    /// Redirect the next fetch to this absolute address.
    Jump(u32),
    /// The decoded instruction is a syscall trap: the processor must invoke
    /// the syscall dispatcher before continuing.
    Syscall,
    /// No pipeline effect.
    Nop,
    /// Insert exactly one bubble: the following fetch neither advances the
    /// program counter nor introduces a new instruction, because a branch's
    /// outcome is still resolving downstream.
    Stall,
}

/// The register file.
pub struct Registers {
    pub r: Vec<u32>,
}

/// A register write honouring the hard-wired zero register: writes to index
/// zero are discarded.
pub open spec fn spec_reg_set(r: Seq<u32>, index: int, value: u32) -> Seq<u32> {
    if index == 0 {
        r
    } else {
        r.update(index, value)
    }
}

/// The destination register the write-back stage commits to, if the retiring
/// instruction designates one. R-type instructions always name `rd`; of the
/// I-type instructions, exactly the implemented compute opcodes write their
/// result to `rt`. Branches, stores, jumps and the not-yet-implemented
/// opcodes write nothing back.
pub open spec fn spec_wb_dest(i: Instruction) -> Option<u8> {
    match i.instruction_type {
        InstructionType::R => i.rd,
        InstructionType::I => match spec_opcode_from(i.opcode) {
            Some(OpCode::Addi) => i.rt,
            Some(OpCode::Addiu) => i.rt,
            Some(OpCode::Andi) => i.rt,
            _ => None,
        },
        _ => None,
    }
}

/// The register file after the write-back step: the memory-stage result
/// committed into the destination register, if the retiring instruction
/// designates one.
pub open spec fn spec_write_back(r: Seq<u32>, memwb: MEMWBBuffer) -> Seq<u32> {
    match memwb.instruction {
        Some(i) => match spec_wb_dest(i) {
            Some(d) => spec_reg_set(r, d as int, memwb.data),
            None => r,
        },
        None => r,
    }
}

/// The target of a J-type jump: the high four bits of the current (already
/// advanced) program counter combined with the 26-bit address field shifted
/// left by two for word alignment.
pub open spec fn spec_jump_target(pc: u32, addr: u32) -> u32 {
    (pc & 0xF000_0000) | (addr << 2)
}

/// The control signal decode emits, given the register file after
/// write-back. R-type: a syscall function code traps, jump-register
/// redirects to the source register's value, everything else has no pipeline
/// effect. I-type: the two branch opcodes stall for one bubble; everything
/// else has no effect. J-type: both unconditional jump opcodes redirect.
pub open spec fn spec_decode_signal(r: Seq<u32>, ifid: IFIDBuffer) -> DecodeReturn {
    match ifid.instruction {
        None => DecodeReturn::Nop,
        Some(i) => match i.instruction_type {
            InstructionType::R => match spec_function_code_from(i.funct->0) {
                Some(FunctionCode::Syscall) => DecodeReturn::Syscall,
                Some(FunctionCode::Jr) => DecodeReturn::Jump(r[i.rs->0 as int]),
                _ => DecodeReturn::Nop,
            },
            InstructionType::I => {
                if spec_opcode_from(i.opcode) == Some(OpCode::Beq) || spec_opcode_from(i.opcode)
                    == Some(OpCode::Bne) {
                    DecodeReturn::Stall
                } else {
                    DecodeReturn::Nop
                }
            },
            InstructionType::J => DecodeReturn::Jump(spec_jump_target(ifid.pc, i.addr->0)),
            _ => DecodeReturn::Nop,
        },
    }
}

/// The decode-to-execute buffer decode produces, given the register file
/// after write-back. Source operands are zero except where the encoding
/// reads them: R-type reads `rs` (and `rt` unless the instruction is a
/// syscall trap or a jump-register); I-type always reads `rs` and carries
/// the sign-extended immediate, but reads `rt` only for the branches, which
/// use it as a second source — everywhere else `rt` is a destination.
pub open spec fn spec_decode_idex(r: Seq<u32>, ifid: IFIDBuffer) -> IDEXBuffer {
    match ifid.instruction {
        None => IDEXBuffer {
            instruction: None,
            data_1: 0,
            data_2: 0,
            sign_extended: 0,
            pc: ifid.pc,
        },
        Some(i) => match i.instruction_type {
            InstructionType::R => match spec_function_code_from(i.funct->0) {
                Some(FunctionCode::Syscall) => IDEXBuffer {
                    instruction: Some(i),
                    data_1: 0,
                    data_2: 0,
                    sign_extended: 0,
                    pc: ifid.pc,
                },
                Some(FunctionCode::Jr) => IDEXBuffer {
                    instruction: Some(i),
                    data_1: r[i.rs->0 as int],
                    data_2: 0,
                    sign_extended: 0,
                    pc: ifid.pc,
                },
                _ => IDEXBuffer {
                    instruction: Some(i),
                    data_1: r[i.rs->0 as int],
                    data_2: r[i.rt->0 as int],
                    sign_extended: 0,
                    pc: ifid.pc,
                },
            },
            InstructionType::I => IDEXBuffer {
                instruction: Some(i),
                data_1: r[i.rs->0 as int],
                data_2: if spec_opcode_from(i.opcode) == Some(OpCode::Beq) || spec_opcode_from(
                    i.opcode,
                ) == Some(OpCode::Bne) {
                    r[i.rt->0 as int]
                } else {
                    0
                },
                sign_extended: i.imm->0,
                pc: ifid.pc,
            },
            _ => IDEXBuffer {
                instruction: Some(i),
                data_1: 0,
                data_2: 0,
                sign_extended: 0,
                pc: ifid.pc,
            },
        },
    }
}

/// The register file after decode's own side effect: the jump-and-link
/// opcode writes the return address — the address of the instruction after
/// the jump, which is exactly the buffered (already advanced) program
/// counter — into the return-address register. Within this instruction set
/// opcode 1 is the plain jump and opcode 2 is jump-and-link.
pub open spec fn spec_decode_regs(r: Seq<u32>, ifid: IFIDBuffer) -> Seq<u32> {
    match ifid.instruction {
        Some(i) => {
            if i.instruction_type == InstructionType::J && i.opcode == 2 {
                spec_reg_set(r, 31, ifid.pc)
            } else {
                r
            }
        },
        None => r,
    }
}

impl Registers {
    /// Thirty-two registers and a zero in every one of them.
    pub open spec fn wf(&self) -> bool {
        &&& self.r@.len() == 32
        &&& self.r@[0] == 0
    }

    /// A fresh register file, all registers zero.
    pub fn new() -> (r: Self)
        ensures
            r.wf(),
            forall|i: int| 0 <= i < 32 ==> r.r@[i] == 0,
    {
        let mut v: Vec<u32> = Vec::new();
        let mut i: usize = 0;
        while i < 32
            invariant
                i <= 32,
                v@.len() == i,
                forall|j: int| 0 <= j < i ==> v@[j] == 0,
            decreases 32 - i,
        {
            v.push(0);
            i = i + 1;
        }
        Self { r: v }
    }

    /// Read one register. Reads of the zero register always yield zero.
    pub fn get(&self, reg: Register) -> (r: u32)
        requires
            self.wf(),
        ensures
            r == self.r@[reg.spec_index()],
    {
        self.r[reg.index()]
    }

    /// Write one register. Writes to the zero register are silently
    /// discarded.
    pub fn set(&mut self, reg: Register, value: u32)
        requires
            old(self).wf(),
        ensures
            final(self).wf(),
            final(self).r@ == spec_reg_set(old(self).r@, reg.spec_index(), value),
    {
        let index = reg.index();
        if index == 0 {
            return ;
        }
        self.r[index] = value;
    }

    /// The write-back step, the decode step and the control signal, in that
    /// order: commit the retiring memory-stage result, then read the new
    /// instruction's source operands — never observing a stale value — and
    /// report how the pipeline must be steered.
    pub fn execute(&mut self, ifid: &IFIDBuffer, idex: &mut IDEXBuffer, memwb: &mut MEMWBBuffer)
        -> (signal: DecodeReturn)
        requires
            old(self).wf(),
            ifid.instruction matches Some(i) ==> spec_wf_instruction(i),
            old(memwb).instruction matches Some(i) ==> spec_wf_instruction(i),
        ensures
            final(self).wf(),
            final(self).r@ == spec_decode_regs(
                spec_write_back(old(self).r@, *old(memwb)),
                *ifid,
            ),
            *final(idex) == spec_decode_idex(spec_write_back(old(self).r@, *old(memwb)), *ifid),
            signal == spec_decode_signal(spec_write_back(old(self).r@, *old(memwb)), *ifid),
            *final(memwb) == *old(memwb),
    {
        if let Some(instruction) = memwb.instruction {
            let dest: Option<u8> = match instruction.instruction_type {
                InstructionType::R => instruction.rd,
                InstructionType::I => match OpCode::from_u8(instruction.opcode) {
                    Some(OpCode::Addi) => instruction.rt,
                    Some(OpCode::Addiu) => instruction.rt,
                    Some(OpCode::Andi) => instruction.rt,
                    _ => None,
                },
                _ => None,
            };
            if let Some(d) = dest {
                let reg = Register::from_u8(d).unwrap();
                self.set(reg, memwb.data);
            }
        }
        let instruction = ifid.instruction;
        idex.instruction = instruction;
        idex.pc = ifid.pc;
        idex.data_1 = 0;
        idex.data_2 = 0;
        idex.sign_extended = 0;
        if instruction.is_none() {
            return DecodeReturn::Nop;
        }
        let instruction = instruction.unwrap();
        match instruction.instruction_type {
            InstructionType::R => {
                match FunctionCode::from_u8(instruction.funct.unwrap()) {
                    Some(FunctionCode::Syscall) => DecodeReturn::Syscall,
                    Some(FunctionCode::Jr) => {
                        idex.data_1 = self.get(Register::from_u8(instruction.rs.unwrap()).unwrap());
                        DecodeReturn::Jump(idex.data_1)
                    },
                    _ => {
                        idex.data_1 = self.get(Register::from_u8(instruction.rs.unwrap()).unwrap());
                        idex.data_2 = self.get(Register::from_u8(instruction.rt.unwrap()).unwrap());
                        DecodeReturn::Nop
                    },
                }
            },
            InstructionType::I => {
                idex.data_1 = self.get(Register::from_u8(instruction.rs.unwrap()).unwrap());
                idex.sign_extended = instruction.imm.unwrap();
                match OpCode::from_u8(instruction.opcode) {
                    Some(OpCode::Beq) => {
                        idex.data_2 = self.get(Register::from_u8(instruction.rt.unwrap()).unwrap());
                        DecodeReturn::Stall
                    },
                    Some(OpCode::Bne) => {
                        idex.data_2 = self.get(Register::from_u8(instruction.rt.unwrap()).unwrap());
                        DecodeReturn::Stall
                    },
                    _ => DecodeReturn::Nop,
                }
            },
            InstructionType::J => {
                if instruction.opcode == 2 {
                    self.set(Register::Ra, ifid.pc);
                }
                DecodeReturn::Jump((ifid.pc & 0xF000_0000) | (instruction.addr.unwrap() << 2))
            },
            _ => DecodeReturn::Nop,
        }
    }
}

/// Register zero invariant: for every value, a write to the zero register
/// followed by a read of it still yields zero — the write is discarded.
pub proof fn lemma_register_zero(r: Seq<u32>, value: u32)
    requires
        r.len() == 32,
        r[0] == 0,
    ensures
        spec_reg_set(r, Register::Zero.spec_index(), value)[Register::Zero.spec_index()] == 0,
{
}

} // verus!
