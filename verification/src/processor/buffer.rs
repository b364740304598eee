//! The four inter-stage pipeline buffers.
//!
//! Each buffer is a plain record scoped to one inter-stage boundary. It
//! holds at most one in-flight instruction — `None` is a bubble — plus the
//! operand and control data the consuming stage needs. Every buffer is
//! overwritten each cycle; none holds history.

use vstd::prelude::*;

use crate::processor::instruction::Instruction;

verus! {

/// Fetch → decode: the freshly decoded instruction and the program counter
/// value immediately after its fetch (the address of the next sequential
/// word).
#[derive(Clone, Copy, Debug)]
pub struct IFIDBuffer {
    pub instruction: Option<Instruction>,
    pub pc: u32,
}

/// Decode → execute: the instruction, its two register source operands, the
/// sign-extended immediate, and the program counter carried forward.
#[derive(Clone, Copy, Debug)]
pub struct IDEXBuffer {
    pub instruction: Option<Instruction>,
    pub data_1: u32,
    pub data_2: u32,
    pub sign_extended: u32,
    pub pc: u32,
}

/// Execute → memory access: the instruction, the arithmetic/logic result,
/// and the program counter — either carried forward naturally or overwritten
/// with a redirect target by the execute stage.
#[derive(Clone, Copy, Debug)]
pub struct EXMEMBuffer {
    pub instruction: Option<Instruction>,
    pub alu_result: u32,
    pub pc: u32,
}

/// Memory access → write-back: the retiring instruction and the value to
/// commit into its destination register, if it designates one.
#[derive(Clone, Copy, Debug)]
pub struct MEMWBBuffer {
    pub instruction: Option<Instruction>,
    pub data: u32,
}

impl IFIDBuffer {
    /// An empty buffer: a bubble at address zero.
    pub fn new() -> (r: Self)
        ensures
            r.instruction is None,
            r.pc == 0,
    {
        Self { instruction: None, pc: 0 }
    }

    /// Replace the buffer's contents with a freshly fetched instruction.
    pub fn set(&mut self, instruction: Instruction, pc: u32)
        ensures
            final(self).instruction == Some(instruction),
            final(self).pc == pc,
    {
        self.instruction = Some(instruction);
        self.pc = pc;
    }
}

impl IDEXBuffer {
    /// An empty buffer: a bubble with zeroed operands.
    pub fn new() -> (r: Self)
        ensures
            r.instruction is None,
            r.data_1 == 0,
            r.data_2 == 0,
            r.sign_extended == 0,
            r.pc == 0,
    {
        Self { instruction: None, data_1: 0, data_2: 0, sign_extended: 0, pc: 0 }
    }
}

impl EXMEMBuffer {
    /// An empty buffer: a bubble with a zeroed result.
    pub fn new() -> (r: Self)
        ensures
            r.instruction is None,
            r.alu_result == 0,
            r.pc == 0,
    {
        Self { instruction: None, alu_result: 0, pc: 0 }
    }
}

impl MEMWBBuffer {
    /// An empty buffer: nothing to retire.
    pub fn new() -> (r: Self)
        ensures
            r.instruction is None,
            r.data == 0,
    {
        Self { instruction: None, data: 0 }
    }
}

} // verus!
