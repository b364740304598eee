//! The program counter: the 32-bit address of the next instruction fetch.

use vstd::prelude::*;

verus! {

/// Holds the 32-bit fetch address. Its only owner is the processor, which
/// mutates it through `set` (absolute, for jumps, branches and the entry
/// point) and `increment` (+4, the sequential advance after a fetch).
pub struct ProgramCounter {
    pub pc: u32,
}

impl ProgramCounter {
    /// A fresh program counter, pointing at address zero.
    pub fn new() -> (r: Self)
        ensures
            r.pc == 0,
    {
        Self { pc: 0 }
    }

    /// The current fetch address.
    pub fn get(&self) -> (r: u32)
        ensures
            r == self.pc,
    {
        self.pc
    }

    /// Redirect the fetch address absolutely.
    pub fn set(&mut self, value: u32)
        ensures
            final(self).pc == value,
    {
        self.pc = value;
    }

    /// Advance past the word that was just fetched.
    pub fn increment(&mut self)
        requires
            old(self).pc + 4 <= u32::MAX,
        ensures
            final(self).pc == old(self).pc + 4,
    {
        self.pc = self.pc + 4;
    }
}

} // verus!
