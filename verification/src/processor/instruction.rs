//! Bit-exact decoding of 32-bit instruction words.
//!
//! A word is classified by its opcode (bits 31..26): opcode 0 is an R-type
//! word, opcodes 1 and 2 are J-type (the unconditional jumps), every other
//! opcode is I-type. Each encoding exposes only the fields that are valid
//! for it; fields that do not apply are `None`, not zero, so downstream
//! stages can insist on presence where they need it.

use vstd::prelude::*;

verus! {

/// The three 32-bit instruction encodings, plus the two floating-point
/// formats, which are placeholders: the decoder never produces them and no
/// stage acts on them.
#[derive(Clone, Copy, Debug, PartialEq, Eq, Structural)]
pub enum InstructionType {
    R,
    I,
    J,
    Fr,
    Fi,
}

/// A decoded view of one raw 32-bit word, derived purely from that word.
/// Created fresh at each fetch, copied by value through the pipeline
/// buffers, and discarded at retirement.
#[derive(Clone, Copy, Debug, PartialEq, Eq, Structural)]
pub struct Instruction {
    /// Bits 31..26 of the source word, for every encoding.
    pub opcode: u8,
    /// The encoding the opcode selects.
    pub instruction_type: InstructionType,
    /// First source register, bits 25..21 (R- and I-type).
    pub rs: Option<u8>,
    /// Second source / destination register, bits 20..16 (R- and I-type).
    pub rt: Option<u8>,
    /// Destination register, bits 15..11 (R-type).
    pub rd: Option<u8>,
    /// Shift amount, bits 10..6 (R-type).
    pub shamt: Option<u8>,
    /// Function code, bits 5..0 (R-type).
    pub funct: Option<u8>,
    /// The 16-bit immediate, bits 15..0, sign-extended to 32 bits (I-type).
    pub imm: Option<u32>,
    /// The 26-bit jump address field, bits 25..0 (J-type).
    pub addr: Option<u32>,
}

/// Arithmetic (sign-preserving) extension of a 16-bit value held in the low
/// half of a word to all 32 bits.
pub open spec fn spec_sign_extend16(low: u32) -> u32 {
    if low & 0x8000 != 0 {
        low | 0xFFFF_0000
    } else {
        low
    }
}

/// What decoding a raw word yields, field by field. Decoding is pure and
/// total over all 32-bit inputs: there is no invalid-opcode failure path;
/// unrecognized operations are resolved later, by the execute stage and the
/// decode control, as no-ops.
pub open spec fn spec_decode(data: u32) -> Instruction {
    let opcode = (data >> 26) as u8;
    if opcode == 0 {
        Instruction {
            opcode,
            instruction_type: InstructionType::R,
            rs: Some(((data >> 21) & 0x1F) as u8),
            rt: Some(((data >> 16) & 0x1F) as u8),
            rd: Some(((data >> 11) & 0x1F) as u8),
            shamt: Some(((data >> 6) & 0x1F) as u8),
            funct: Some((data & 0x3F) as u8),
            imm: None,
            addr: None,
        }
    } else if opcode == 1 || opcode == 2 {
        Instruction {
            opcode,
            instruction_type: InstructionType::J,
            rs: None,
            rt: None,
            rd: None,
            shamt: None,
            funct: None,
            imm: None,
            addr: Some(data & 0x03FF_FFFF),
        }
    } else {
        Instruction {
            opcode,
            instruction_type: InstructionType::I,
            rs: Some(((data >> 21) & 0x1F) as u8),
            rt: Some(((data >> 16) & 0x1F) as u8),
            rd: None,
            shamt: None,
            funct: None,
            imm: Some(spec_sign_extend16(data & 0xFFFF)),
            addr: None,
        }
    }
}

/// A decoded instruction is well formed when exactly the fields of its
/// encoding are present and each sits in the range its bit width allows.
/// Every instruction the decoder produces satisfies this.
pub open spec fn spec_wf_instruction(i: Instruction) -> bool {
    match i.instruction_type {
        InstructionType::R => {
            &&& i.opcode == 0
            &&& i.rs matches Some(rs) && rs < 32
            &&& i.rt matches Some(rt) && rt < 32
            &&& i.rd matches Some(rd) && rd < 32
            &&& i.shamt matches Some(s) && s < 32
            &&& i.funct matches Some(f) && f < 64
            &&& i.imm is None
            &&& i.addr is None
        },
        InstructionType::J => {
            &&& (i.opcode == 1 || i.opcode == 2)
            &&& i.rs is None
            &&& i.rt is None
            &&& i.rd is None
            &&& i.shamt is None
            &&& i.funct is None
            &&& i.imm is None
            &&& i.addr matches Some(a) && a < 0x0400_0000
        },
        InstructionType::I => {
            &&& i.opcode > 2
            &&& i.opcode < 64
            &&& i.rs matches Some(rs) && rs < 32
            &&& i.rt matches Some(rt) && rt < 32
            &&& i.rd is None
            &&& i.shamt is None
            &&& i.funct is None
            &&& i.imm matches Some(m) && m == spec_sign_extend16(m & 0xFFFF)
            &&& i.addr is None
        },
        InstructionType::Fr => false,
        InstructionType::Fi => false,
    }
}

/// Reassembling the extracted fields of a well-formed instruction into a
/// 32-bit word. The inverse of [`spec_decode`].
pub open spec fn spec_encode(i: Instruction) -> u32 {
    match i.instruction_type {
        InstructionType::R => ((i.rs->0 as u32) << 21) | ((i.rt->0 as u32) << 16) | ((i.rd->0
            as u32) << 11) | ((i.shamt->0 as u32) << 6) | (i.funct->0 as u32),
        InstructionType::J => ((i.opcode as u32) << 26) | i.addr->0,
        _ => ((i.opcode as u32) << 26) | ((i.rs->0 as u32) << 21) | ((i.rt->0 as u32) << 16) | (
        i.imm->0 & 0xFFFF),
    }
}

impl Instruction {
    /// Decode one raw 32-bit word.
    pub fn load(data: u32) -> (r: Self)
        ensures
            r == spec_decode(data),
            spec_wf_instruction(r),
    {
        proof {
            lemma_decode_wf(data);
        }
        let opcode: u8 = (data >> 26) as u8;
        match opcode {
            0 => Self {
                opcode,
                instruction_type: InstructionType::R,
                rs: Some(((data >> 21) & 0x1F) as u8),
                rt: Some(((data >> 16) & 0x1F) as u8),
                rd: Some(((data >> 11) & 0x1F) as u8),
                shamt: Some(((data >> 6) & 0x1F) as u8),
                funct: Some((data & 0x3F) as u8),
                imm: None,
                addr: None,
            },
            1 | 2 => Self {
                opcode,
                instruction_type: InstructionType::J,
                rs: None,
                rt: None,
                rd: None,
                shamt: None,
                funct: None,
                imm: None,
                addr: Some(data & 0x03FF_FFFF),
            },
            _ => {
                let low: u32 = data & 0xFFFF;
                let imm: u32 = if low & 0x8000 != 0 {
                    low | 0xFFFF_0000
                } else {
                    low
                };
                Self {
                    opcode,
                    instruction_type: InstructionType::I,
                    rs: Some(((data >> 21) & 0x1F) as u8),
                    rt: Some(((data >> 16) & 0x1F) as u8),
                    rd: None,
                    shamt: None,
                    funct: None,
                    imm: Some(imm),
                    addr: None,
                }
            },
        }
    }
}

/// Every decoded word is well formed: the extracted fields sit in the ranges
/// their bit widths allow, and exactly the fields of the selected encoding
/// are present.
pub proof fn lemma_decode_wf(data: u32)
    ensures
        spec_wf_instruction(spec_decode(data)),
{
    assert(((data >> 26) as u8) < 64 && ((data >> 21) & 0x1F) < 32 && ((data >> 16) & 0x1F) < 32
        && ((data >> 11) & 0x1F) < 32 && ((data >> 6) & 0x1F) < 32 && (data & 0x3F) < 64 && (data
        & 0x03FF_FFFF) < 0x0400_0000) by (bit_vector);
    assert(spec_sign_extend16(data & 0xFFFF) & 0xFFFF == data & 0xFFFF) by (bit_vector);
}

/// Decode round-trip: for every 32-bit word, decoding and then re-encoding
/// the extracted fields reproduces the original word exactly.
pub proof fn lemma_decode_round_trip(data: u32)
    ensures
        spec_encode(spec_decode(data)) == data,
{
    let opcode = (data >> 26) as u8;
    if opcode == 0 {
        assert((data >> 26) as u8 == 0 ==> ((((data >> 21) & 0x1F) as u8 as u32) << 21) | ((((data
            >> 16) & 0x1F) as u8 as u32) << 16) | ((((data >> 11) & 0x1F) as u8 as u32) << 11) | ((((
        data >> 6) & 0x1F) as u8 as u32) << 6) | ((data & 0x3F) as u8 as u32) == data)
            by (bit_vector);
    } else if opcode == 1 || opcode == 2 {
        assert(((data >> 26) as u8 == 1 || (data >> 26) as u8 == 2) ==> ((((data >> 26) as u8)
            as u32) << 26) | (data & 0x03FF_FFFF) == data) by (bit_vector);
    } else {
        assert(spec_sign_extend16(data & 0xFFFF) & 0xFFFF == data & 0xFFFF) by (bit_vector);
        assert((((data >> 26) as u8) as u32) << 26 | ((((data >> 21) & 0x1F) as u8 as u32) << 21)
            | ((((data >> 16) & 0x1F) as u8 as u32) << 16) | (data & 0xFFFF) == data)
            by (bit_vector);
    }
}

} // verus!
