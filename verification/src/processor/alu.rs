//! The arithmetic/logic unit: the execute stage of the pipeline.
//!
//! It computes the arithmetic/logic/shift result for R-type instructions and
//! the immediate-arithmetic result for I-type instructions, resolves branch
//! targets, and owns the `hi`/`lo` accumulator pair that multiply and divide
//! fill and the explicit move instructions read.
//!
//! Numeric conventions, all on 32-bit two's-complement words:
//! - add/subtract wrap around with no overflow trap; the same bit-level
//!   result serves the signed and the unsigned variants;
//! - multiply produces a 64-bit product split into `hi:lo`;
//! - divide puts the quotient in `lo` and the remainder in `hi`, truncating
//!   toward zero with the remainder taking the dividend's sign; division by
//!   zero is a no-op that leaves both accumulators unchanged (a deliberate
//!   policy: the hardware leaves the result undefined, and this simulator
//!   must not crash);
//! - instructions whose operations are not yet implemented are no-ops: the
//!   result defaults to zero and the accumulators are untouched.

use vstd::prelude::*;

use crate::processor::buffer::{EXMEMBuffer, IDEXBuffer};
use crate::processor::instruction::{spec_wf_instruction, InstructionType};

verus! {

/// The execute stage's state: the two accumulators written by multiply and
/// divide, read by the move-from instructions. They persist across cycles
/// for the processor's lifetime.
pub struct ALU {
    pub hi: u32,
    pub lo: u32,
}

/// The function codes (bits 5..0) of the R-type instructions this simulator
/// recognizes. Any other function code is an unrecognized operation and is
/// resolved as a no-op.
#[derive(Clone, Copy, Debug, PartialEq, Eq, Structural)]
pub enum FunctionCode {
    Add,
    Addu,
    And,
    Jr,
    Nor,
    Or,
    Slt,
    Sltu,
    Sll,
    Srl,
    Sub,
    Subu,
    Div,
    Divu,
    Mfhi,
    Mflo,
    Mult,
    Multu,
    Sra,
    Syscall,
}

/// The opcodes of the I-type instructions this simulator recognizes. The
/// load, store and several compute opcodes are explicitly not yet supported:
/// the execute stage treats them as no-ops. Any opcode absent from this list
/// is likewise a no-op.
#[derive(Clone, Copy, Debug, PartialEq, Eq, Structural)]
pub enum OpCode {
    Addi,
    Addiu,
    Andi,
    Beq,
    Bne,
    Lbu,
    Lhu,
    Ll,
    Lui,
    Lw,
    Ori,
    Slti,
    Sltiu,
    Sb,
    Sc,
    Sh,
    Sw,
}

/// Which [`FunctionCode`] a raw 6-bit function field denotes, if any.
pub open spec fn spec_function_code_from(value: u8) -> Option<FunctionCode> {
    if value == 0x20 {
        Some(FunctionCode::Add)
    } else if value == 0x21 {
        Some(FunctionCode::Addu)
    } else if value == 0x24 {
        Some(FunctionCode::And)
    } else if value == 0x08 {
        Some(FunctionCode::Jr)
    } else if value == 0x27 {
        Some(FunctionCode::Nor)
    } else if value == 0x25 {
        Some(FunctionCode::Or)
    } else if value == 0x2A {
        Some(FunctionCode::Slt)
    } else if value == 0x2B {
        Some(FunctionCode::Sltu)
    } else if value == 0x00 {
        Some(FunctionCode::Sll)
    } else if value == 0x02 {
        Some(FunctionCode::Srl)
    } else if value == 0x22 {
        Some(FunctionCode::Sub)
    } else if value == 0x23 {
        Some(FunctionCode::Subu)
    } else if value == 0x1A {
        Some(FunctionCode::Div)
    } else if value == 0x1B {
        Some(FunctionCode::Divu)
    } else if value == 0x10 {
        Some(FunctionCode::Mfhi)
    } else if value == 0x12 {
        Some(FunctionCode::Mflo)
    } else if value == 0x18 {
        Some(FunctionCode::Mult)
    } else if value == 0x19 {
        Some(FunctionCode::Multu)
    } else if value == 0x03 {
        Some(FunctionCode::Sra)
    } else if value == 0x0C {
        Some(FunctionCode::Syscall)
    } else {
        None
    }
}

/// Which [`OpCode`] a raw 6-bit opcode field denotes, if any.
pub open spec fn spec_opcode_from(value: u8) -> Option<OpCode> {
    if value == 0x08 {
        Some(OpCode::Addi)
    } else if value == 0x09 {
        Some(OpCode::Addiu)
    } else if value == 0x0C {
        Some(OpCode::Andi)
    } else if value == 0x04 {
        Some(OpCode::Beq)
    } else if value == 0x05 {
        Some(OpCode::Bne)
    } else if value == 0x24 {
        Some(OpCode::Lbu)
    } else if value == 0x25 {
        Some(OpCode::Lhu)
    } else if value == 0x30 {
        Some(OpCode::Ll)
    } else if value == 0x0F {
        Some(OpCode::Lui)
    } else if value == 0x23 {
        Some(OpCode::Lw)
    } else if value == 0x0D {
        Some(OpCode::Ori)
    } else if value == 0x0A {
        Some(OpCode::Slti)
    } else if value == 0x0B {
        Some(OpCode::Sltiu)
    } else if value == 0x28 {
        Some(OpCode::Sb)
    } else if value == 0x38 {
        Some(OpCode::Sc)
    } else if value == 0x29 {
        Some(OpCode::Sh)
    } else if value == 0x2B {
        Some(OpCode::Sw)
    } else {
        None
    }
}

impl FunctionCode {
    /// Decode a raw function field.
    pub fn from_u8(value: u8) -> (r: Option<FunctionCode>)
        ensures
            r == spec_function_code_from(value),
    {
        match value {
            0x20 => Some(FunctionCode::Add),
            0x21 => Some(FunctionCode::Addu),
            0x24 => Some(FunctionCode::And),
            0x08 => Some(FunctionCode::Jr),
            0x27 => Some(FunctionCode::Nor),
            0x25 => Some(FunctionCode::Or),
            0x2A => Some(FunctionCode::Slt),
            0x2B => Some(FunctionCode::Sltu),
            0x00 => Some(FunctionCode::Sll),
            0x02 => Some(FunctionCode::Srl),
            0x22 => Some(FunctionCode::Sub),
            0x23 => Some(FunctionCode::Subu),
            0x1A => Some(FunctionCode::Div),
            0x1B => Some(FunctionCode::Divu),
            0x10 => Some(FunctionCode::Mfhi),
            0x12 => Some(FunctionCode::Mflo),
            0x18 => Some(FunctionCode::Mult),
            0x19 => Some(FunctionCode::Multu),
            0x03 => Some(FunctionCode::Sra),
            0x0C => Some(FunctionCode::Syscall),
            _ => None,
        }
    }
}

impl OpCode {
    /// Decode a raw opcode field.
    pub fn from_u8(value: u8) -> (r: Option<OpCode>)
        ensures
            r == spec_opcode_from(value),
    {
        match value {
            0x08 => Some(OpCode::Addi),
            0x09 => Some(OpCode::Addiu),
            0x0C => Some(OpCode::Andi),
            0x04 => Some(OpCode::Beq),
            0x05 => Some(OpCode::Bne),
            0x24 => Some(OpCode::Lbu),
            0x25 => Some(OpCode::Lhu),
            0x30 => Some(OpCode::Ll),
            0x0F => Some(OpCode::Lui),
            0x23 => Some(OpCode::Lw),
            0x0D => Some(OpCode::Ori),
            0x0A => Some(OpCode::Slti),
            0x0B => Some(OpCode::Sltiu),
            0x28 => Some(OpCode::Sb),
            0x38 => Some(OpCode::Sc),
            0x29 => Some(OpCode::Sh),
            0x2B => Some(OpCode::Sw),
            _ => None,
        }
    }
}

/// The signed (two's-complement) reading of a 32-bit word.
pub open spec fn spec_to_signed(v: u32) -> int {
    if v >= 0x8000_0000 {
        v - 0x1_0000_0000
    } else {
        v as int
    }
}

/// 32-bit wraparound addition; the same bit-level result serves the signed
/// and the unsigned reading.
pub open spec fn spec_wrapping_add32(a: u32, b: u32) -> u32 {
    if a + b > u32::MAX {
        (a + b - 0x1_0000_0000) as u32
    } else {
        (a + b) as u32
    }
}

/// 32-bit wraparound subtraction.
pub open spec fn spec_wrapping_sub32(a: u32, b: u32) -> u32 {
    if a - b < 0 {
        (a - b + 0x1_0000_0000) as u32
    } else {
        (a - b) as u32
    }
}

/// 32-bit two's-complement negation.
pub open spec fn spec_wrapping_neg32(v: u32) -> u32 {
    spec_wrapping_sub32(0, v)
}

/// The magnitude of the signed reading of `v`, as a 32-bit word. The
/// magnitude of the most negative word is itself (its positive value does
/// not fit).
pub open spec fn spec_abs32(v: u32) -> u32 {
    if v >= 0x8000_0000 {
        spec_wrapping_neg32(v)
    } else {
        v
    }
}

/// Arithmetic (sign-preserving) right shift of a 32-bit word; `sh < 32`.
pub open spec fn spec_sra32(v: u32, sh: u32) -> u32 {
    if v & 0x8000_0000 == 0 {
        v >> sh
    } else {
        (v >> sh) | !(0xFFFF_FFFFu32 >> sh)
    }
}

/// Sign extension of a 32-bit word to 64 bits.
pub open spec fn spec_sext64(v: u32) -> u64 {
    if v >= 0x8000_0000 {
        (v as u64) | 0xFFFF_FFFF_0000_0000
    } else {
        v as u64
    }
}

/// The low 64 bits of the signed product of two words: the two's-complement
/// representation, over 64 bits, of the product of their signed readings.
pub open spec fn spec_mult_product(a: u32, b: u32) -> u64 {
    ((spec_sext64(a) * spec_sext64(b)) % 0x1_0000_0000_0000_0000) as u64
}

/// The unsigned product of two words, which always fits in 64 bits.
pub open spec fn spec_multu_product(a: u32, b: u32) -> u64 {
    ((a * b) % 0x1_0000_0000_0000_0000) as u64
}

/// The multiply contract in signed terms: the 64 bits that land in `hi:lo`
/// are exactly the product of the two signed readings, reduced modulo 2^64
/// — the 64-bit two's-complement representation of the signed product.
pub proof fn lemma_mult_product_signed(a: u32, b: u32)
    ensures
        spec_mult_product(a, b) == (spec_to_signed(a) * spec_to_signed(b))
            % 0x1_0000_0000_0000_0000,
{
    let m: int = 0x1_0000_0000_0000_0000;
    lemma_sext64_is_residue(a);
    lemma_sext64_is_residue(b);
    vstd::arithmetic::div_mod::lemma_mul_mod_noop_general(
        spec_to_signed(a),
        spec_to_signed(b),
        m,
    );
}

/// Sign extension to 64 bits yields the canonical residue of the signed
/// reading modulo 2^64.
proof fn lemma_sext64_is_residue(v: u32)
    ensures
        spec_sext64(v) == spec_to_signed(v) % 0x1_0000_0000_0000_0000,
{
    let m: int = 0x1_0000_0000_0000_0000;
    if v >= 0x8000_0000 {
        assert((v as u64) | 0xFFFF_FFFF_0000_0000u64 == (v as u64) + 0xFFFF_FFFF_0000_0000u64)
            by (bit_vector);
        vstd::arithmetic::div_mod::lemma_mod_multiples_vanish(1, spec_to_signed(v), m);
        vstd::arithmetic::div_mod::lemma_small_mod((spec_to_signed(v) + m) as nat, m as nat);
    } else {
        vstd::arithmetic::div_mod::lemma_small_mod(v as nat, m as nat);
    }
}

/// The divide contract in signed terms: for a nonzero divisor — apart from
/// the one wrapping case, the most negative word divided by minus one,
/// whose true quotient does not fit in 32 bits — the words that land in
/// `lo` and `hi`, read as signed values, satisfy the truncated-division
/// law: quotient times divisor plus remainder equals the dividend, the
/// remainder's magnitude stays below the divisor's, and a nonzero
/// remainder takes the dividend's sign.
pub proof fn lemma_div_signed(a: u32, b: u32)
    requires
        b != 0,
        !(a == 0x8000_0000 && b == 0xFFFF_FFFF),
    ensures
        spec_to_signed(spec_div_quotient(a, b)) * spec_to_signed(b) + spec_to_signed(
            spec_div_remainder(a, b),
        ) == spec_to_signed(a),
        vstd::math::abs(spec_to_signed(spec_div_remainder(a, b))) < vstd::math::abs(
            spec_to_signed(b),
        ),
        spec_to_signed(spec_div_remainder(a, b)) != 0 ==> ((spec_to_signed(
            spec_div_remainder(a, b),
        ) < 0) <==> (spec_to_signed(a) < 0)),
{
    let aa = spec_abs32(a) as int;
    let ab = spec_abs32(b) as int;
    let q = aa / ab;
    let r = aa % ab;
    assert(aa == vstd::math::abs(spec_to_signed(a)));
    assert(ab == vstd::math::abs(spec_to_signed(b)));
    assert(1 <= ab <= 0x8000_0000);
    assert(0 <= aa <= 0x8000_0000);
    vstd::arithmetic::div_mod::lemma_fundamental_div_mod(aa, ab);
    vstd::arithmetic::div_mod::lemma_mod_bound(aa, ab);
    vstd::arithmetic::div_mod::lemma_div_nonincreasing(aa, ab);
    if a >= 0x8000_0000 && b >= 0x8000_0000 {
        // Both operands negative: the quotient keeps its sign, so it must
        // stay below 2^31 for the signed reading to be faithful.
        if b == 0xFFFF_FFFF {
            // Divisor magnitude one; the excluded wrapping pair guarantees
            // the dividend is not the most negative word.
            assert(aa < 0x8000_0000);
            assert(q < 0x8000_0000);
        } else {
            assert(ab >= 2);
            vstd::arithmetic::div_mod::lemma_div_is_ordered_by_denominator(aa, 2, ab);
            vstd::arithmetic::div_mod::lemma_fundamental_div_mod(aa, 2);
            vstd::arithmetic::div_mod::lemma_mod_bound(aa, 2);
            assert(q < 0x8000_0000);
        }
    }
    let sq = spec_to_signed(spec_div_quotient(a, b));
    let sr = spec_to_signed(spec_div_remainder(a, b));
    let sa = spec_to_signed(a);
    let sb = spec_to_signed(b);
    if a < 0x8000_0000 && b < 0x8000_0000 {
        assert(sq == q && sr == r && sa == aa && sb == ab);
        assert(sq * sb + sr == sa);
    } else if a < 0x8000_0000 {
        assert(sq == -q && sr == r && sa == aa && sb == -ab);
        assert((-q) * (-ab) == q * ab) by (nonlinear_arith);
        assert(sq * sb + sr == sa);
    } else if b < 0x8000_0000 {
        assert(sq == -q && sr == -r && sa == -aa && sb == ab);
        assert((-q) * ab == -(q * ab)) by (nonlinear_arith);
        assert(sq * sb + sr == sa);
    } else {
        assert(sq == q && sr == -r && sa == -aa && sb == -ab);
        assert(q * (-ab) == -(q * ab)) by (nonlinear_arith);
        assert(sq * sb + sr == sa);
    }
}

/// The quotient of signed division, truncated toward zero, as a 32-bit
/// word. Dividing the most negative word by minus one wraps back to the most
/// negative word. The divisor must not be zero.
pub open spec fn spec_div_quotient(a: u32, b: u32) -> u32 {
    let q = spec_abs32(a) / spec_abs32(b);
    if (a >= 0x8000_0000) != (b >= 0x8000_0000) {
        spec_wrapping_neg32(q)
    } else {
        q
    }
}

/// The remainder of signed division, taking the dividend's sign, as a
/// 32-bit word. The divisor must not be zero.
pub open spec fn spec_div_remainder(a: u32, b: u32) -> u32 {
    let r = spec_abs32(a) % spec_abs32(b);
    if a >= 0x8000_0000 {
        spec_wrapping_neg32(r)
    } else {
        r
    }
}

/// The branch target: the next sequential program counter — which is
/// exactly the buffered, already advanced counter the pipeline carries —
/// plus the sign-extended immediate shifted left by two for word alignment,
/// wrapping around.
pub open spec fn spec_branch_target(pc: u32, imm: u32) -> u32 {
    spec_wrapping_add32(pc, imm << 2)
}

/// The accumulator pair after the execute stage: changed only by the
/// multiply and divide operations, and by division only when the divisor is
/// nonzero.
pub open spec fn spec_execute_alu(alu: ALU, idex: IDEXBuffer) -> ALU {
    match idex.instruction {
        None => alu,
        Some(i) => {
            if i.instruction_type == InstructionType::R {
                match spec_function_code_from(i.funct->0) {
                    Some(FunctionCode::Div) => {
                        if idex.data_2 == 0 {
                            alu
                        } else {
                            ALU {
                                lo: spec_div_quotient(idex.data_1, idex.data_2),
                                hi: spec_div_remainder(idex.data_1, idex.data_2),
                            }
                        }
                    },
                    Some(FunctionCode::Divu) => {
                        if idex.data_2 == 0 {
                            alu
                        } else {
                            ALU { lo: idex.data_1 / idex.data_2, hi: idex.data_1 % idex.data_2 }
                        }
                    },
                    Some(FunctionCode::Mult) => {
                        let p = spec_mult_product(idex.data_1, idex.data_2);
                        ALU { lo: (p & 0xFFFF_FFFF) as u32, hi: (p >> 32) as u32 }
                    },
                    Some(FunctionCode::Multu) => {
                        let p = spec_multu_product(idex.data_1, idex.data_2);
                        ALU { lo: (p & 0xFFFF_FFFF) as u32, hi: (p >> 32) as u32 }
                    },
                    _ => alu,
                }
            } else {
                alu
            }
        },
    }
}

/// The arithmetic/logic result of one instruction, given the accumulators
/// and the operands read in decode. Zero for bubbles, branches, jumps and
/// every operation that is not yet implemented.
pub open spec fn spec_alu_result(alu: ALU, idex: IDEXBuffer) -> u32 {
    match idex.instruction {
        None => 0,
        Some(i) => match i.instruction_type {
            InstructionType::R => match spec_function_code_from(i.funct->0) {
                Some(FunctionCode::Add) => spec_wrapping_add32(idex.data_1, idex.data_2),
                Some(FunctionCode::Addu) => spec_wrapping_add32(idex.data_1, idex.data_2),
                Some(FunctionCode::And) => idex.data_1 & idex.data_2,
                Some(FunctionCode::Nor) => !(idex.data_1 | idex.data_2),
                Some(FunctionCode::Or) => idex.data_1 | idex.data_2,
                Some(FunctionCode::Slt) => if spec_to_signed(idex.data_1) < spec_to_signed(
                    idex.data_2,
                ) {
                    1u32
                } else {
                    0u32
                },
                Some(FunctionCode::Sltu) => if idex.data_1 < idex.data_2 {
                    1u32
                } else {
                    0u32
                },
                Some(FunctionCode::Sll) => idex.data_2 << (i.shamt->0 as u32),
                Some(FunctionCode::Srl) => idex.data_2 >> (i.shamt->0 as u32),
                Some(FunctionCode::Sra) => spec_sra32(idex.data_2, i.shamt->0 as u32),
                Some(FunctionCode::Sub) => spec_wrapping_sub32(idex.data_1, idex.data_2),
                Some(FunctionCode::Subu) => spec_wrapping_sub32(idex.data_1, idex.data_2),
                Some(FunctionCode::Mfhi) => alu.hi,
                Some(FunctionCode::Mflo) => alu.lo,
                _ => 0u32,
            },
            InstructionType::I => match spec_opcode_from(i.opcode) {
                Some(OpCode::Addi) => spec_wrapping_add32(idex.data_1, idex.sign_extended),
                Some(OpCode::Addiu) => spec_wrapping_add32(idex.data_1, idex.sign_extended),
                Some(OpCode::Andi) => idex.data_1 & idex.sign_extended,
                _ => 0u32,
            },
            _ => 0u32,
        },
    }
}

/// Whether the execute stage resolves a taken branch this cycle: a
/// branch-equal with equal operands or a branch-not-equal with differing
/// operands.
pub open spec fn spec_execute_redirect(idex: IDEXBuffer) -> bool {
    match idex.instruction {
        None => false,
        Some(i) => i.instruction_type == InstructionType::I && (spec_opcode_from(i.opcode)
            == Some(OpCode::Beq) && idex.data_1 == idex.data_2 || spec_opcode_from(i.opcode)
            == Some(OpCode::Bne) && idex.data_1 != idex.data_2),
    }
}

/// The program counter field the execute stage hands forward: the buffered
/// counter, or a redirect target — the register value for jump-register, the
/// branch target for a taken branch.
pub open spec fn spec_execute_pc(idex: IDEXBuffer) -> u32 {
    match idex.instruction {
        None => idex.pc,
        Some(i) => {
            if i.instruction_type == InstructionType::R && spec_function_code_from(i.funct->0)
                == Some(FunctionCode::Jr) {
                idex.data_1
            } else if spec_execute_redirect(idex) {
                spec_branch_target(idex.pc, idex.sign_extended)
            } else {
                idex.pc
            }
        },
    }
}

/// The whole execute-to-memory buffer after the execute stage.
pub open spec fn spec_execute_exmem(alu: ALU, idex: IDEXBuffer) -> EXMEMBuffer {
    EXMEMBuffer {
        instruction: idex.instruction,
        alu_result: spec_alu_result(alu, idex),
        pc: spec_execute_pc(idex),
    }
}

impl ALU {
    /// A fresh unit with cleared accumulators.
    pub fn new() -> (r: Self)
        ensures
            r.hi == 0,
            r.lo == 0,
    {
        Self { hi: 0, lo: 0 }
    }

    /// The execute stage: consume the decode-to-execute buffer, produce the
    /// execute-to-memory buffer, and update the accumulators. Returns
    /// whether a taken branch was resolved, in which case the caller must
    /// redirect the next fetch to the produced buffer's counter field.
    pub fn execute(&mut self, idex: &IDEXBuffer, exmem: &mut EXMEMBuffer) -> (redirect: bool)
        requires
            idex.instruction matches Some(i) ==> spec_wf_instruction(i),
        ensures
            *final(self) == spec_execute_alu(*old(self), *idex),
            *final(exmem) == spec_execute_exmem(*old(self), *idex),
            redirect == spec_execute_redirect(*idex),
    {
        let instruction = idex.instruction;
        exmem.pc = idex.pc;
        exmem.instruction = instruction;
        exmem.alu_result = 0;
        if instruction.is_none() {
            return false;
        }
        let instruction = instruction.unwrap();
        let mut redirect = false;
        match instruction.instruction_type {
            InstructionType::R => {
                match FunctionCode::from_u8(instruction.funct.unwrap()) {
                    Some(FunctionCode::Add) => {
                        exmem.alu_result = idex.data_1.wrapping_add(idex.data_2);
                    },
                    Some(FunctionCode::Addu) => {
                        exmem.alu_result = idex.data_1.wrapping_add(idex.data_2);
                    },
                    Some(FunctionCode::And) => {
                        exmem.alu_result = idex.data_1 & idex.data_2;
                    },
                    Some(FunctionCode::Jr) => {
                        exmem.pc = idex.data_1;
                    },
                    Some(FunctionCode::Nor) => {
                        exmem.alu_result = !(idex.data_1 | idex.data_2);
                    },
                    Some(FunctionCode::Or) => {
                        exmem.alu_result = idex.data_1 | idex.data_2;
                    },
                    Some(FunctionCode::Slt) => {
                        let a_neg = idex.data_1 >= 0x8000_0000;
                        let b_neg = idex.data_2 >= 0x8000_0000;
                        let less = if a_neg != b_neg {
                            a_neg
                        } else {
                            idex.data_1 < idex.data_2
                        };
                        exmem.alu_result = if less {
                            1
                        } else {
                            0
                        };
                    },
                    Some(FunctionCode::Sltu) => {
                        exmem.alu_result = if idex.data_1 < idex.data_2 {
                            1
                        } else {
                            0
                        };
                    },
                    Some(FunctionCode::Sll) => {
                        exmem.alu_result = idex.data_2 << (instruction.shamt.unwrap() as u32);
                    },
                    Some(FunctionCode::Srl) => {
                        exmem.alu_result = idex.data_2 >> (instruction.shamt.unwrap() as u32);
                    },
                    Some(FunctionCode::Sra) => {
                        let sh = instruction.shamt.unwrap() as u32;
                        exmem.alu_result = if idex.data_2 & 0x8000_0000 == 0 {
                            idex.data_2 >> sh
                        } else {
                            (idex.data_2 >> sh) | !(0xFFFF_FFFFu32 >> sh)
                        };
                    },
                    Some(FunctionCode::Sub) => {
                        exmem.alu_result = idex.data_1.wrapping_sub(idex.data_2);
                    },
                    Some(FunctionCode::Subu) => {
                        exmem.alu_result = idex.data_1.wrapping_sub(idex.data_2);
                    },
                    Some(FunctionCode::Div) => {
                        if idex.data_2 != 0 {
                            let abs_a = if idex.data_1 >= 0x8000_0000 {
                                0u32.wrapping_sub(idex.data_1)
                            } else {
                                idex.data_1
                            };
                            let abs_b = if idex.data_2 >= 0x8000_0000 {
                                0u32.wrapping_sub(idex.data_2)
                            } else {
                                idex.data_2
                            };
                            let q = abs_a / abs_b;
                            let rem = abs_a % abs_b;
                            self.lo = if (idex.data_1 >= 0x8000_0000) != (idex.data_2
                                >= 0x8000_0000) {
                                0u32.wrapping_sub(q)
                            } else {
                                q
                            };
                            self.hi = if idex.data_1 >= 0x8000_0000 {
                                0u32.wrapping_sub(rem)
                            } else {
                                rem
                            };
                        }
                    },
                    Some(FunctionCode::Divu) => {
                        if idex.data_2 != 0 {
                            self.lo = idex.data_1 / idex.data_2;
                            self.hi = idex.data_1 % idex.data_2;
                        }
                    },
                    Some(FunctionCode::Mfhi) => {
                        exmem.alu_result = self.hi;
                    },
                    Some(FunctionCode::Mflo) => {
                        exmem.alu_result = self.lo;
                    },
                    Some(FunctionCode::Mult) => {
                        let ax: u64 = if idex.data_1 >= 0x8000_0000 {
                            (idex.data_1 as u64) | 0xFFFF_FFFF_0000_0000
                        } else {
                            idex.data_1 as u64
                        };
                        let bx: u64 = if idex.data_2 >= 0x8000_0000 {
                            (idex.data_2 as u64) | 0xFFFF_FFFF_0000_0000
                        } else {
                            idex.data_2 as u64
                        };
                        let p = ax.wrapping_mul(bx);
                        self.lo = #[verifier::truncate] ((p & 0xFFFF_FFFF) as u32);
                        self.hi = #[verifier::truncate] ((p >> 32) as u32);
                    },
                    Some(FunctionCode::Multu) => {
                        let p = (idex.data_1 as u64).wrapping_mul(idex.data_2 as u64);
                        self.lo = #[verifier::truncate] ((p & 0xFFFF_FFFF) as u32);
                        self.hi = #[verifier::truncate] ((p >> 32) as u32);
                    },
                    Some(FunctionCode::Syscall) => {
                        // The trap is raised by decode control; nothing to compute here.
                    },
                    None => {
                        // Unrecognized operation: resolved as a no-op.
                    },
                }
            },
            InstructionType::I => {
                match OpCode::from_u8(instruction.opcode) {
                    Some(OpCode::Addi) => {
                        exmem.alu_result = idex.data_1.wrapping_add(idex.sign_extended);
                    },
                    Some(OpCode::Addiu) => {
                        exmem.alu_result = idex.data_1.wrapping_add(idex.sign_extended);
                    },
                    Some(OpCode::Andi) => {
                        exmem.alu_result = idex.data_1 & idex.sign_extended;
                    },
                    Some(OpCode::Beq) => {
                        if idex.data_1 == idex.data_2 {
                            exmem.pc = idex.pc.wrapping_add(idex.sign_extended << 2);
                            redirect = true;
                        }
                    },
                    Some(OpCode::Bne) => {
                        if idex.data_1 != idex.data_2 {
                            exmem.pc = idex.pc.wrapping_add(idex.sign_extended << 2);
                            redirect = true;
                        }
                    },
                    _ => {
                        // The remaining I-type operations are not yet
                        // implemented: no result, no side effect.
                    },
                }
            },
            _ => {
                // J-type instructions are handled entirely in decode; the
                // floating-point formats are placeholders.
            },
        }
        redirect
    }
}

} // verus!
