//! Cycle-level simulator of a classic five-stage pipelined RISC processor
//! (fetch, decode, execute, memory access, write-back) with a MIPS-style
//! instruction set.
//!
//! The pipeline engine, instruction decoder, arithmetic/logic unit, register
//! file and byte-addressable memory live under [`processor`], each with a
//! machine-checked contract describing its cycle-exact behaviour.

pub mod processor;
