//! The byte-addressable memory and the memory-access stage.
//!
//! A flat store of bytes with a fixed capacity chosen at construction,
//! accessed only through bounds-checked read and write operations of one,
//! two, four or eight bytes, plus C-style string read and write. Multi-byte
//! accesses are little-endian and need no alignment: an access is legal
//! whenever it fits entirely below the capacity, and anything else is a bus
//! fault — fatal to the simulation, never a recoverable error.
//!
//! The store also tracks a `stack_pointer` (the address immediately after
//! the loaded program image) and an `alloc` high-water mark (the largest
//! byte address ever written, kept for diagnostic display only).

use vstd::prelude::*;

use crate::processor::buffer::{EXMEMBuffer, MEMWBBuffer};

verus! {

/// The byte store.
pub struct Memory {
    pub bytes: Vec<u8>,
    pub stack_pointer: u32,
    pub alloc: u32,
}

/// The little-endian halfword held at `a`.
pub open spec fn spec_read_halfword(m: Seq<u8>, a: int) -> u16 {
    (m[a] as u16) | ((m[a + 1] as u16) << 8)
}

/// The little-endian word held at `a`.
pub open spec fn spec_read_word(m: Seq<u8>, a: int) -> u32 {
    (m[a] as u32) | ((m[a + 1] as u32) << 8) | ((m[a + 2] as u32) << 16) | ((m[a + 3] as u32)
        << 24)
}

/// The little-endian doubleword held at `a`.
pub open spec fn spec_read_doubleword(m: Seq<u8>, a: int) -> u64 {
    (m[a] as u64) | ((m[a + 1] as u64) << 8) | ((m[a + 2] as u64) << 16) | ((m[a + 3] as u64)
        << 24) | ((m[a + 4] as u64) << 32) | ((m[a + 5] as u64) << 40) | ((m[a + 6] as u64) << 48)
        | ((m[a + 7] as u64) << 56)
}

/// The store after a little-endian halfword write at `a`.
pub open spec fn spec_write_halfword(m: Seq<u8>, a: int, v: u16) -> Seq<u8> {
    m.update(a, (v & 0xFF) as u8).update(a + 1, ((v >> 8) & 0xFF) as u8)
}

/// The store after a little-endian word write at `a`.
pub open spec fn spec_write_word(m: Seq<u8>, a: int, v: u32) -> Seq<u8> {
    m.update(a, (v & 0xFF) as u8).update(a + 1, ((v >> 8) & 0xFF) as u8).update(
        a + 2,
        ((v >> 16) & 0xFF) as u8,
    ).update(a + 3, ((v >> 24) & 0xFF) as u8)
}

/// The store after a little-endian doubleword write at `a`.
pub open spec fn spec_write_doubleword(m: Seq<u8>, a: int, v: u64) -> Seq<u8> {
    m.update(a, (v & 0xFF) as u8).update(a + 1, ((v >> 8) & 0xFF) as u8).update(
        a + 2,
        ((v >> 16) & 0xFF) as u8,
    ).update(a + 3, ((v >> 24) & 0xFF) as u8).update(a + 4, ((v >> 32) & 0xFF) as u8).update(
        a + 5,
        ((v >> 40) & 0xFF) as u8,
    ).update(a + 6, ((v >> 48) & 0xFF) as u8).update(a + 7, ((v >> 56) & 0xFF) as u8)
}

/// The high-water mark after a write whose last byte is `end`.
pub open spec fn spec_alloc_mark(alloc: u32, end: u32) -> u32 {
    if alloc < end {
        end
    } else {
        alloc
    }
}

/// How many bytes a C-style string starting at `a` holds before its NUL
/// terminator — or before the end of the store if no terminator exists.
pub open spec fn spec_cstring_len(m: Seq<u8>, a: int) -> nat
    decreases m.len() - a,
{
    if a < 0 || a >= m.len() {
        0
    } else if m[a] == 0 {
        0
    } else {
        1 + spec_cstring_len(m, a + 1)
    }
}

/// Whether a C-style string starting at `a` is terminated before the end of
/// the store.
pub open spec fn spec_cstring_terminated(m: Seq<u8>, a: int) -> bool {
    0 <= a < m.len() && a + spec_cstring_len(m, a) < m.len()
}

/// The content bytes of the C-style string starting at `a`, terminator
/// excluded.
pub open spec fn spec_cstring_bytes(m: Seq<u8>, a: int) -> Seq<u8> {
    m.subrange(a, a + spec_cstring_len(m, a))
}

impl Memory {
    /// The capacity fits the 32-bit address space.
    pub open spec fn wf(&self) -> bool {
        self.bytes@.len() <= 0xFFFF_FFFF
    }

    /// A memory of capacity zero. Every access to it is a bus fault.
    pub fn new() -> (r: Self)
        ensures
            r.wf(),
            r.bytes@.len() == 0,
            r.stack_pointer == 0,
            r.alloc == 0,
    {
        Memory { bytes: Vec::new(), stack_pointer: 0, alloc: 0 }
    }

    /// A zero-filled memory of the given capacity in 32-bit words.
    pub fn new_with_capacity(word_capacity: u32) -> (r: Self)
        requires
            word_capacity <= 0x3FFF_FFFF,
        ensures
            r.wf(),
            r.bytes@.len() == 4 * word_capacity,
            forall|i: int| 0 <= i < r.bytes@.len() ==> r.bytes@[i] == 0,
            r.stack_pointer == 0,
            r.alloc == 0,
    {
        let n: usize = (word_capacity as usize) * 4;
        let mut bytes: Vec<u8> = Vec::new();
        let mut i: usize = 0;
        while i < n
            invariant
                i <= n,
                n == 4 * word_capacity,
                bytes@.len() == i,
                forall|j: int| 0 <= j < i ==> bytes@[j] == 0,
            decreases n - i,
        {
            bytes.push(0);
            i = i + 1;
        }
        Memory { bytes, stack_pointer: 0, alloc: 0 }
    }

    /// The capacity in bytes.
    pub fn capacity(&self) -> (r: u32)
        requires
            self.wf(),
        ensures
            r == self.bytes@.len(),
    {
        #[verifier::truncate] (self.bytes.len() as u32)
    }

    /// Whether a byte access at this address is in range. Any address at or
    /// beyond the capacity — in particular, any address at all when the
    /// capacity is zero — is out of range and accessing it is a bus fault.
    pub fn check_address(&self, address: u32) -> (r: bool)
        requires
            self.wf(),
        ensures
            r == ((address as int) < self.bytes@.len()),
    {
        (address as u64) < (self.bytes.len() as u64)
    }

    /// The stack-pointer convention: the address immediately after the
    /// loaded program image, zero before any program is loaded.
    pub fn get_stack_pointer(&self) -> (r: u32)
        ensures
            r == self.stack_pointer,
    {
        self.stack_pointer
    }

    /// Write the program words sequentially from address zero, then set the
    /// stack pointer to the address immediately after the image.
    pub fn load_program(&mut self, program: Vec<u32>)
        requires
            old(self).wf(),
            4 * program@.len() <= old(self).bytes@.len(),
        ensures
            final(self).wf(),
            final(self).bytes@.len() == old(self).bytes@.len(),
            forall|k: int|
                0 <= k < program@.len() ==> spec_read_word(final(self).bytes@, 4 * k)
                    == program@[k],
            forall|j: int|
                4 * program@.len() <= j < old(self).bytes@.len() ==> final(self).bytes@[j]
                    == old(self).bytes@[j],
            final(self).stack_pointer == 4 * program@.len(),
            program@.len() == 0 ==> final(self).alloc == old(self).alloc,
            program@.len() > 0 ==> final(self).alloc == spec_alloc_mark(
                old(self).alloc,
                (4 * program@.len() - 1) as u32,
            ),
    {
        let n: usize = program.len();
        let mut i: usize = 0;
        while i < n
            invariant
                i <= n,
                n == program@.len(),
                self.wf(),
                4 * n <= self.bytes@.len(),
                self.bytes@.len() == old(self).bytes@.len(),
                forall|k: int| 0 <= k < i ==> spec_read_word(self.bytes@, 4 * k) == program@[k],
                forall|j: int|
                    4 * i <= j < self.bytes@.len() ==> self.bytes@[j] == old(self).bytes@[j],
                self.stack_pointer == old(self).stack_pointer,
                i == 0 ==> self.alloc == old(self).alloc,
                i > 0 ==> self.alloc == spec_alloc_mark(old(self).alloc, (4 * i - 1) as u32),
            decreases n - i,
        {
            let ghost prev = self.bytes@;
            self.write_word((i as u32) * 4, program[i]);
            proof {
                assert forall|k: int| 0 <= k < i + 1 implies spec_read_word(
                    self.bytes@,
                    4 * k,
                ) == program@[k] by {
                    if k < i {
                        assert(spec_read_word(prev, 4 * k) == program@[k]);
                    } else {
                        lemma_word_round_trip(prev, 4 * k, program@[k]);
                    }
                }
            }
            i = i + 1;
        }
        self.stack_pointer = (n as u32) * 4;
    }

    /// Read the byte at the address.
    pub fn read_byte(&self, address: u32) -> (r: u8)
        requires
            self.wf(),
            (address as int) < self.bytes@.len(),
        ensures
            r == self.bytes@[address as int],
    {
        self.bytes[address as usize]
    }

    /// Write the byte at the address.
    pub fn write_byte(&mut self, address: u32, value: u8)
        requires
            old(self).wf(),
            (address as int) < old(self).bytes@.len(),
        ensures
            final(self).wf(),
            final(self).bytes@ == old(self).bytes@.update(address as int, value),
            final(self).stack_pointer == old(self).stack_pointer,
            final(self).alloc == spec_alloc_mark(old(self).alloc, address),
    {
        self.bytes[address as usize] = value;
        if self.alloc < address {
            self.alloc = address;
        }
    }

    /// Read the little-endian halfword starting at the address.
    pub fn read_halfword(&self, address: u32) -> (r: u16)
        requires
            self.wf(),
            address + 2 <= self.bytes@.len(),
        ensures
            r == spec_read_halfword(self.bytes@, address as int),
    {
        let i: usize = address as usize;
        (self.bytes[i] as u16) | ((self.bytes[i + 1] as u16) << 8)
    }

    /// Write the little-endian halfword starting at the address.
    pub fn write_halfword(&mut self, address: u32, value: u16)
        requires
            old(self).wf(),
            address + 2 <= old(self).bytes@.len(),
        ensures
            final(self).wf(),
            final(self).bytes@ == spec_write_halfword(old(self).bytes@, address as int, value),
            final(self).stack_pointer == old(self).stack_pointer,
            final(self).alloc == spec_alloc_mark(old(self).alloc, (address + 1) as u32),
    {
        let i: usize = address as usize;
        self.bytes[i] = (value & 0xFF) as u8;
        self.bytes[i + 1] = ((value >> 8) & 0xFF) as u8;
        let end: u32 = address + 1;
        if self.alloc < end {
            self.alloc = end;
        }
    }

    /// Read the little-endian word starting at the address.
    pub fn read_word(&self, address: u32) -> (r: u32)
        requires
            self.wf(),
            address + 4 <= self.bytes@.len(),
        ensures
            r == spec_read_word(self.bytes@, address as int),
    {
        let i: usize = address as usize;
        (self.bytes[i] as u32) | ((self.bytes[i + 1] as u32) << 8) | ((self.bytes[i + 2] as u32)
            << 16) | ((self.bytes[i + 3] as u32) << 24)
    }

    /// Write the little-endian word starting at the address.
    pub fn write_word(&mut self, address: u32, value: u32)
        requires
            old(self).wf(),
            address + 4 <= old(self).bytes@.len(),
        ensures
            final(self).wf(),
            final(self).bytes@ == spec_write_word(old(self).bytes@, address as int, value),
            final(self).stack_pointer == old(self).stack_pointer,
            final(self).alloc == spec_alloc_mark(old(self).alloc, (address + 3) as u32),
    {
        let i: usize = address as usize;
        self.bytes[i] = (value & 0xFF) as u8;
        self.bytes[i + 1] = ((value >> 8) & 0xFF) as u8;
        self.bytes[i + 2] = ((value >> 16) & 0xFF) as u8;
        self.bytes[i + 3] = ((value >> 24) & 0xFF) as u8;
        let end: u32 = address + 3;
        if self.alloc < end {
            self.alloc = end;
        }
    }

    /// Read the little-endian doubleword starting at the address.
    pub fn read_doubleword(&self, address: u32) -> (r: u64)
        requires
            self.wf(),
            address + 8 <= self.bytes@.len(),
        ensures
            r == spec_read_doubleword(self.bytes@, address as int),
    {
        let i: usize = address as usize;
        (self.bytes[i] as u64) | ((self.bytes[i + 1] as u64) << 8) | ((self.bytes[i + 2] as u64)
            << 16) | ((self.bytes[i + 3] as u64) << 24) | ((self.bytes[i + 4] as u64) << 32) | ((
        self.bytes[i + 5] as u64) << 40) | ((self.bytes[i + 6] as u64) << 48) | ((self.bytes[i
            + 7] as u64) << 56)
    }

    /// Write the little-endian doubleword starting at the address.
    pub fn write_doubleword(&mut self, address: u32, value: u64)
        requires
            old(self).wf(),
            address + 8 <= old(self).bytes@.len(),
        ensures
            final(self).wf(),
            final(self).bytes@ == spec_write_doubleword(old(self).bytes@, address as int, value),
            final(self).stack_pointer == old(self).stack_pointer,
            final(self).alloc == spec_alloc_mark(old(self).alloc, (address + 7) as u32),
    {
        let i: usize = address as usize;
        self.bytes[i] = (value & 0xFF) as u8;
        self.bytes[i + 1] = ((value >> 8) & 0xFF) as u8;
        self.bytes[i + 2] = ((value >> 16) & 0xFF) as u8;
        self.bytes[i + 3] = ((value >> 24) & 0xFF) as u8;
        self.bytes[i + 4] = ((value >> 32) & 0xFF) as u8;
        self.bytes[i + 5] = ((value >> 40) & 0xFF) as u8;
        self.bytes[i + 6] = ((value >> 48) & 0xFF) as u8;
        self.bytes[i + 7] = ((value >> 56) & 0xFF) as u8;
        let end: u32 = address + 7;
        if self.alloc < end {
            self.alloc = end;
        }
    }

    /// Checked word read: `None` exactly when a word starting at the
    /// address does not fit below the capacity — the bus-fault condition.
    pub fn try_read_word(&self, address: u32) -> (r: Option<u32>)
        requires
            self.wf(),
        ensures
            match r {
                Some(w) => address + 4 <= self.bytes@.len() && w == spec_read_word(
                    self.bytes@,
                    address as int,
                ),
                None => address + 4 > self.bytes@.len(),
            },
    {
        if (address as u64) + 4 <= (self.bytes.len() as u64) {
            Some(self.read_word(address))
        } else {
            None
        }
    }

    /// Checked word write: `None` exactly when a word starting at the
    /// address does not fit below the capacity — the bus-fault condition.
    pub fn try_write_word(&mut self, address: u32, value: u32) -> (r: Option<()>)
        requires
            old(self).wf(),
        ensures
            final(self).wf(),
            match r {
                Some(u) => {
                    &&& address + 4 <= old(self).bytes@.len()
                    &&& final(self).bytes@ == spec_write_word(
                        old(self).bytes@,
                        address as int,
                        value,
                    )
                    &&& final(self).stack_pointer == old(self).stack_pointer
                    &&& final(self).alloc == spec_alloc_mark(old(self).alloc, (address + 3) as u32)
                },
                None => address + 4 > old(self).bytes@.len() && *final(self) == *old(self),
            },
    {
        if (address as u64) + 4 <= (self.bytes.len() as u64) {
            self.write_word(address, value);
            Some(())
        } else {
            None
        }
    }

    /// Checked C-style string read: the bytes from the address up to, and
    /// excluding, the first NUL. `None` exactly when no NUL exists below
    /// the capacity — running off the end of the store is a bus fault.
    pub fn try_read_cstring(&self, address: u32) -> (r: Option<Vec<u8>>)
        requires
            self.wf(),
        ensures
            match r {
                Some(v) => spec_cstring_terminated(self.bytes@, address as int) && v@
                    == spec_cstring_bytes(self.bytes@, address as int),
                None => !spec_cstring_terminated(self.bytes@, address as int),
            },
    {
        if (address as u64) >= (self.bytes.len() as u64) {
            return None;
        }
        let mut result: Vec<u8> = Vec::new();
        let mut index: usize = address as usize;
        while index < self.bytes.len()
            invariant
                self.wf(),
                address as int <= index <= self.bytes@.len(),
                result@ == self.bytes@.subrange(address as int, index as int),
                spec_cstring_len(self.bytes@, address as int) == (index - address)
                    + spec_cstring_len(self.bytes@, index as int),
            decreases self.bytes@.len() - index,
        {
            let b: u8 = self.bytes[index];
            if b == 0 {
                proof {
                    assert(spec_cstring_len(self.bytes@, index as int) == 0);
                    assert(result@ == spec_cstring_bytes(self.bytes@, address as int));
                }
                return Some(result);
            }
            result.push(b);
            proof {
                assert(result@ == self.bytes@.subrange(address as int, index + 1));
            }
            index = index + 1;
        }
        None
    }

    /// Read the C-style string at the address, which must be terminated
    /// below the capacity.
    pub fn read_cstring(&self, address: u32) -> (r: Vec<u8>)
        requires
            self.wf(),
            spec_cstring_terminated(self.bytes@, address as int),
        ensures
            r@ == spec_cstring_bytes(self.bytes@, address as int),
    {
        self.try_read_cstring(address).unwrap()
    }

    /// Write the bytes as a C-style string at the address: the content
    /// first, then the NUL terminator, all of which must fit below the
    /// capacity.
    pub fn write_cstring(&mut self, address: u32, data: &Vec<u8>)
        requires
            old(self).wf(),
            address + data@.len() + 1 <= old(self).bytes@.len(),
        ensures
            final(self).wf(),
            final(self).bytes@.len() == old(self).bytes@.len(),
            forall|j: int|
                0 <= j < old(self).bytes@.len() ==> final(self).bytes@[j] == (if address <= j
                    < address + data@.len() {
                    data@[j - address]
                } else if j == address + data@.len() {
                    0u8
                } else {
                    old(self).bytes@[j]
                }),
            final(self).stack_pointer == old(self).stack_pointer,
            final(self).alloc == spec_alloc_mark(
                old(self).alloc,
                (address + data@.len()) as u32,
            ),
    {
        let n: usize = data.len();
        let mut i: usize = 0;
        while i < n
            invariant
                i <= n,
                n == data@.len(),
                self.wf(),
                address + n + 1 <= self.bytes@.len(),
                self.bytes@.len() == old(self).bytes@.len(),
                forall|j: int|
                    0 <= j < self.bytes@.len() ==> self.bytes@[j] == (if address <= j < address
                        + i {
                        data@[j - address]
                    } else {
                        old(self).bytes@[j]
                    }),
                self.stack_pointer == old(self).stack_pointer,
                i == 0 ==> self.alloc == old(self).alloc,
                i > 0 ==> self.alloc == spec_alloc_mark(old(self).alloc, (address + i - 1) as u32),
            decreases n - i,
        {
            self.write_byte(address + (i as u32), data[i]);
            i = i + 1;
        }
        self.write_byte(address + (n as u32), 0);
    }
}

/// Reading a word back from where it was just written yields the written
/// value, and the write touches nothing but its own four bytes.
pub proof fn lemma_word_round_trip(m: Seq<u8>, a: int, v: u32)
    requires
        0 <= a,
        a + 4 <= m.len(),
    ensures
        spec_read_word(spec_write_word(m, a, v), a) == v,
        forall|j: int|
            0 <= j < m.len() && !(a <= j < a + 4) ==> spec_write_word(m, a, v)[j] == m[j],
{
    assert(((v & 0xFF) as u8 as u32) | ((((v >> 8) & 0xFF) as u8 as u32) << 8) | ((((v >> 16)
        & 0xFF) as u8 as u32) << 16) | ((((v >> 24) & 0xFF) as u8 as u32) << 24) == v)
        by (bit_vector);
}

/// A placeholder instruction store holding a fixed four-word demonstration
/// program, indexed by word-aligned address.
pub struct InstructionMemory {}

/// A placeholder data store: the load path of the memory-access stage is
/// not yet wired to the byte store, so its reads yield fixed empty values.
pub struct DataMemory {}

impl InstructionMemory {
    /// A fresh placeholder instruction store.
    pub fn new() -> (r: Self)
        ensures
            r == (InstructionMemory {  }),
    {
        Self {  }
    }

    /// The demonstration word at the given address, which must fall within
    /// the four stored words.
    pub fn load(&self, address: u32) -> (r: u32)
        requires
            address < 16,
        ensures
            address < 4 ==> r == 0b00000010001100101000000000100000u32,
            4 <= address < 8 ==> r == 0b00000010001100101000000000100001u32,
            8 <= address < 12 ==> r == 0b00000010001100101000000000100010u32,
            12 <= address ==> r == 0b00000010001100101000000000100011u32,
    {
        let index: u32 = address / 4;
        if index == 0 {
            0b00000010001100101000000000100000
        } else if index == 1 {
            0b00000010001100101000000000100001
        } else if index == 2 {
            0b00000010001100101000000000100010
        } else {
            0b00000010001100101000000000100011
        }
    }
}

impl DataMemory {
    /// A fresh placeholder data store.
    pub fn new() -> (r: Self)
        ensures
            r == (DataMemory {  }),
    {
        Self {  }
    }

    /// Placeholder byte read: always zero.
    pub fn read_byte(&self, address: u32) -> (r: u8)
        ensures
            r == 0,
    {
        0
    }

    /// Placeholder halfword read: always zero.
    pub fn read_halfword(&self, address: u32) -> (r: u16)
        ensures
            r == 0,
    {
        0
    }

    /// Placeholder word read: always zero.
    pub fn read_word(&self, address: u32) -> (r: u32)
        ensures
            r == 0,
    {
        0
    }

    /// Placeholder string read: always empty.
    pub fn read_cstring(&self, address: u32) -> (r: Vec<u8>)
        ensures
            r@.len() == 0,
    {
        Vec::new()
    }

    /// The memory-access stage: consume the execute-to-memory buffer and
    /// produce the memory-to-write-back buffer. The load and store opcodes
    /// of the instruction set are explicitly not yet implemented — the
    /// execute stage resolves them as no-ops — so this stage forwards the
    /// execute result unchanged for the write-back step to commit.
    pub fn execute(exmem: &EXMEMBuffer, memwb: &mut MEMWBBuffer)
        ensures
            *final(memwb) == (MEMWBBuffer {
                instruction: exmem.instruction,
                data: exmem.alu_result,
            }),
    {
        memwb.instruction = exmem.instruction;
        memwb.data = exmem.alu_result;
    }
}

} // verus!
