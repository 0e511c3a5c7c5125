//! The instruction word and its decoder.
//!
//! A word is laid out, most significant bit first, as
//! `[opcode:8][rj:3][mode:2][ri:3][addr:16]`.

use vstd::prelude::*;
use crate::vm::fault::Fault;
use crate::vm::ops::Op;

verus! {

/// How the operand of an instruction is obtained from its effective address.
#[derive(Debug, PartialEq, Eq, Structural, Clone, Copy)]
pub enum AddressingMode {
    /// The effective address is itself the operand.
    Immediate,
    /// The operand is the word stored at the effective address.
    Direct,
    /// The word stored at the effective address is the address of the operand.
    Indirect,
}

impl AddressingMode {
    /// The two-bit field that stands for this mode.
    pub open spec fn spec_code(self) -> u8 {
        match self {
            AddressingMode::Immediate => 0,
            AddressingMode::Direct => 1,
            AddressingMode::Indirect => 2,
        }
    }

    /// The mode that a field value stands for; 3 and above stand for none.
    pub open spec fn spec_from_u8(bits: u8) -> Option<AddressingMode> {
        if bits == 0 {
            Some(AddressingMode::Immediate)
        } else if bits == 1 {
            Some(AddressingMode::Direct)
        } else if bits == 2 {
            Some(AddressingMode::Indirect)
        } else {
            None
        }
    }

    /// The two-bit field that stands for this mode.
    #[verifier::when_used_as_spec(spec_code)]
    pub fn code(self) -> (bits: u8)
        ensures
            bits == self.spec_code(),
    {
        match self {
            AddressingMode::Immediate => 0,
            AddressingMode::Direct => 1,
            AddressingMode::Indirect => 2,
        }
    }

    /// Decodes a mode field. `None` for the undefined fourth encoding and
    /// for anything that does not fit two bits.
    pub fn from_u8(bits: u8) -> (mode: Option<AddressingMode>)
        ensures
            mode == AddressingMode::spec_from_u8(bits),
    {
        match bits {
            0 => Some(AddressingMode::Immediate),
            1 => Some(AddressingMode::Direct),
            2 => Some(AddressingMode::Indirect),
            _ => None,
        }
    }
}

/// The decoded view of one instruction word.
#[derive(Debug, PartialEq, Eq, Structural, Clone, Copy)]
pub struct Instruction {
    pub opcode: Op,
    /// Destination register, 0 to 7.
    pub rj: u8,
    pub m: AddressingMode,
    /// Index register, 0 to 7.
    pub ri: u8,
    /// Unsigned offset.
    pub addr: u16,
}

/// Bits 31 to 24 of a word.
pub open spec fn opcode_field(word: u32) -> u32 {
    (word >> 24) & 0xff
}

/// Bits 23 to 21 of a word.
pub open spec fn rj_field(word: u32) -> u32 {
    (word >> 21) & 0b111
}

/// Bits 20 and 19 of a word.
pub open spec fn mode_field(word: u32) -> u32 {
    (word >> 19) & 0b11
}

/// Bits 18 to 16 of a word.
pub open spec fn ri_field(word: u32) -> u32 {
    (word >> 16) & 0b111
}

/// Bits 15 to 0 of a word.
pub open spec fn addr_field(word: u32) -> u32 {
    word & 0xffff
}

/// The word whose five fields hold the given values.
pub open spec fn pack_fields(opcode: u32, rj: u32, mode: u32, ri: u32, addr: u32) -> u32 {
    (opcode << 24) | (rj << 21) | (mode << 19) | (ri << 16) | addr
}

/// What decoding a word gives: the first of the opcode and the mode that is
/// undefined decides the error, otherwise the five fields are read off.
pub open spec fn decode(word: u32) -> Result<Instruction, Fault> {
    match Op::spec_from_u8(opcode_field(word) as u8) {
        None => Err(Fault::InvalidOpcode(opcode_field(word) as u8)),
        Some(opcode) => match AddressingMode::spec_from_u8(mode_field(word) as u8) {
            None => Err(Fault::InvalidAddressingMode),
            Some(m) => Ok(
                Instruction {
                    opcode,
                    rj: rj_field(word) as u8,
                    m,
                    ri: ri_field(word) as u8,
                    addr: addr_field(word) as u16,
                },
            ),
        },
    }
}

/// Every field of a word fits the width that the layout gives it.
pub proof fn lemma_field_ranges(word: u32)
    ensures
        opcode_field(word) < 0x100,
        rj_field(word) < 8,
        mode_field(word) < 4,
        ri_field(word) < 8,
        addr_field(word) < 0x1_0000,
{
    assert((word >> 24) & 0xff < 0x100) by (bit_vector);
    assert((word >> 21) & 0b111 < 8) by (bit_vector);
    assert((word >> 19) & 0b11 < 4) by (bit_vector);
    assert((word >> 16) & 0b111 < 8) by (bit_vector);
    assert(word & 0xffff < 0x1_0000) by (bit_vector);
}

/// A word is the packing of its own five fields.
pub proof fn lemma_pack_of_fields(word: u32)
    ensures
        pack_fields(
            opcode_field(word),
            rj_field(word),
            mode_field(word),
            ri_field(word),
            addr_field(word),
        ) == word,
{
    assert(((((word >> 24) & 0xff) << 24) | (((word >> 21) & 0b111) << 21) | (((word >> 19) & 0b11)
        << 19) | (((word >> 16) & 0b111) << 16) | (word & 0xffff)) == word) by (bit_vector);
}

/// Packing five values that fit their widths and reading the fields again
/// gives the same five values.
pub proof fn lemma_fields_of_pack(opcode: u32, rj: u32, mode: u32, ri: u32, addr: u32)
    requires
        opcode < 0x100,
        rj < 8,
        mode < 4,
        ri < 8,
        addr < 0x1_0000,
    ensures
        opcode_field(pack_fields(opcode, rj, mode, ri, addr)) == opcode,
        rj_field(pack_fields(opcode, rj, mode, ri, addr)) == rj,
        mode_field(pack_fields(opcode, rj, mode, ri, addr)) == mode,
        ri_field(pack_fields(opcode, rj, mode, ri, addr)) == ri,
        addr_field(pack_fields(opcode, rj, mode, ri, addr)) == addr,
{
    assert({
        let w = (opcode << 24) | (rj << 21) | (mode << 19) | (ri << 16) | addr;
        &&& (w >> 24) & 0xff == opcode
        &&& (w >> 21) & 0b111 == rj
        &&& (w >> 19) & 0b11 == mode
        &&& (w >> 16) & 0b111 == ri
        &&& w & 0xffff == addr
    }) by (bit_vector)
        requires
            opcode < 0x100,
            rj < 8,
            mode < 4,
            ri < 8,
            addr < 0x1_0000,
    ;
}

impl Instruction {
    /// Both register numbers name one of the eight general registers.
    pub open spec fn wf(self) -> bool {
        self.rj < 8 && self.ri < 8
    }

    /// The word that encodes this instruction.
    pub open spec fn spec_to_u32(self) -> u32 {
        pack_fields(
            self.opcode.spec_code() as u32,
            self.rj as u32,
            self.m.spec_code() as u32,
            self.ri as u32,
            self.addr as u32,
        )
    }

    /// Decodes a word by slicing it into its five fields. Fails with
    /// `InvalidOpcode` when the opcode byte names no operation, and otherwise
    /// with `InvalidAddressingMode` when the mode field is `0b11`. A word
    /// that decodes is the encoding of what it decodes to.
    pub fn from_u32(n: u32) -> (decoded: Result<Instruction, Fault>)
        ensures
            decoded == decode(n),
            decoded matches Ok(instruction) ==> instruction.wf() && instruction.spec_to_u32() == n,
    {
        proof {
            lemma_field_ranges(n);
            if decode(n) is Ok {
                lemma_encode_decode(n);
            }
        }
        let opcode_bits: u8 = ((n >> 24) & 0xff) as u8;
        let rj: u8 = ((n >> 21) & 0b111) as u8;
        let mode_bits: u8 = ((n >> 19) & 0b11) as u8;
        let ri: u8 = ((n >> 16) & 0b111) as u8;
        let addr: u16 = (n & 0xffff) as u16;
        match Op::from_u8(opcode_bits) {
            None => Err(Fault::InvalidOpcode(opcode_bits)),
            Some(opcode) => match AddressingMode::from_u8(mode_bits) {
                None => Err(Fault::InvalidAddressingMode),
                Some(m) => Ok(Instruction { opcode, rj, m, ri, addr }),
            },
        }
    }

    /// Encodes the instruction as a word, field by field.
    #[verifier::when_used_as_spec(spec_to_u32)]
    pub fn to_u32(self) -> (word: u32)
        requires
            self.wf(),
        ensures
            word == self.spec_to_u32(),
    {
        let opcode: u32 = self.opcode.code() as u32;
        let rj: u32 = self.rj as u32;
        let mode: u32 = self.m.code() as u32;
        let ri: u32 = self.ri as u32;
        let addr: u32 = self.addr as u32;
        assert(opcode << 24 <= 0xff00_0000 && rj << 21 <= 0x00e0_0000 && mode << 19 <= 0x0018_0000
            && ri << 16 <= 0x0007_0000) by (bit_vector)
            requires
                opcode < 0x100,
                rj < 8,
                mode < 4,
                ri < 8,
        ;
        (opcode << 24) | (rj << 21) | (mode << 19) | (ri << 16) | addr
    }
}

/// Encoding undoes decoding: a word that decodes to an instruction is the
/// encoding of that instruction.
pub proof fn lemma_encode_decode(word: u32)
    requires
        decode(word) is Ok,
    ensures
        decode(word)->Ok_0.wf(),
        decode(word)->Ok_0.spec_to_u32() == word,
{
    lemma_field_ranges(word);
    lemma_pack_of_fields(word);
}

/// Decoding undoes encoding: the encoding of an instruction whose register
/// numbers are in range decodes to that instruction.
pub proof fn lemma_decode_encode(instruction: Instruction)
    requires
        instruction.wf(),
    ensures
        decode(instruction.spec_to_u32()) == Ok::<Instruction, Fault>(instruction),
{
    let word = instruction.spec_to_u32();
    lemma_fields_of_pack(
        instruction.opcode.spec_code() as u32,
        instruction.rj as u32,
        instruction.m.spec_code() as u32,
        instruction.ri as u32,
        instruction.addr as u32,
    );
    Op::lemma_from_code(instruction.opcode);
}

} // verus!
