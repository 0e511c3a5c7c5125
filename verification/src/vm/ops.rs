//! The operation codes of the machine.

use vstd::prelude::*;

verus! {

/// An operation of the instruction set. The decoder knows all of them; the
/// control unit executes a subset and faults on the rest.
#[derive(Debug, PartialEq, Eq, Structural, Clone, Copy)]
pub enum Op {
    NOP,
    STORE,
    LOAD,
    IN,
    OUT,
    ADD,
    SUB,
    MUL,
    DIV,
    MOD,
    AND,
    OR,
    XOR,
    SHL,
    SHR,
    NOT,
    SHRA,
    COMP,
    JUMP,
    JNEG,
    JZER,
    JPOS,
    JNNEG,
    JNZER,
    JNPOS,
    JLES,
    JEQU,
    JGRE,
    JNLES,
    JNEQU,
    JNGRE,
    CALL,
    EXIT,
    PUSH,
    POP,
    PUSHR,
    POPR,
    SVC,
}

impl Op {
    /// The byte that stands for this operation in an instruction word.
    pub open spec fn spec_code(self) -> u8 {
        match self {
            Op::NOP => 0x00,
            Op::STORE => 0x01,
            Op::LOAD => 0x02,
            Op::IN => 0x03,
            Op::OUT => 0x04,
            Op::ADD => 0x11,
            Op::SUB => 0x12,
            Op::MUL => 0x13,
            Op::DIV => 0x14,
            Op::MOD => 0x15,
            Op::AND => 0x16,
            Op::OR => 0x17,
            Op::XOR => 0x18,
            Op::SHL => 0x19,
            Op::SHR => 0x1a,
            Op::NOT => 0x1b,
            Op::SHRA => 0x1c,
            Op::COMP => 0x1f,
            Op::JUMP => 0x20,
            Op::JNEG => 0x21,
            Op::JZER => 0x22,
            Op::JPOS => 0x23,
            Op::JNNEG => 0x24,
            Op::JNZER => 0x25,
            Op::JNPOS => 0x26,
            Op::JLES => 0x27,
            Op::JEQU => 0x28,
            Op::JGRE => 0x29,
            Op::JNLES => 0x2a,
            Op::JNEQU => 0x2b,
            Op::JNGRE => 0x2c,
            Op::CALL => 0x31,
            Op::EXIT => 0x32,
            Op::PUSH => 0x33,
            Op::POP => 0x34,
            Op::PUSHR => 0x35,
            Op::POPR => 0x36,
            Op::SVC => 0x70,
        }
    }

    /// The operation that a byte stands for, if any: the inverse of
    /// `spec_code`.
    pub open spec fn spec_from_u8(byte: u8) -> Option<Op> {
        if exists|op: Op| op.spec_code() == byte {
            Some(choose|op: Op| op.spec_code() == byte)
        } else {
            None
        }
    }

    /// No two operations share a code.
    pub proof fn lemma_code_injective(a: Op, b: Op)
        requires
            a.spec_code() == b.spec_code(),
        ensures
            a == b,
    {
    }

    /// Looking up the code of an operation gives that operation back.
    pub proof fn lemma_from_code(op: Op)
        ensures
            Op::spec_from_u8(op.spec_code()) == Some(op),
    {
        let found = choose|other: Op| other.spec_code() == op.spec_code();
        Op::lemma_code_injective(found, op);
    }

    /// The byte that stands for this operation in an instruction word.
    #[verifier::when_used_as_spec(spec_code)]
    pub fn code(self) -> (byte: u8)
        ensures
            byte == self.spec_code(),
    {
        match self {
            Op::NOP => 0x00,
            Op::STORE => 0x01,
            Op::LOAD => 0x02,
            Op::IN => 0x03,
            Op::OUT => 0x04,
            Op::ADD => 0x11,
            Op::SUB => 0x12,
            Op::MUL => 0x13,
            Op::DIV => 0x14,
            Op::MOD => 0x15,
            Op::AND => 0x16,
            Op::OR => 0x17,
            Op::XOR => 0x18,
            Op::SHL => 0x19,
            Op::SHR => 0x1a,
            Op::NOT => 0x1b,
            Op::SHRA => 0x1c,
            Op::COMP => 0x1f,
            Op::JUMP => 0x20,
            Op::JNEG => 0x21,
            Op::JZER => 0x22,
            Op::JPOS => 0x23,
            Op::JNNEG => 0x24,
            Op::JNZER => 0x25,
            Op::JNPOS => 0x26,
            Op::JLES => 0x27,
            Op::JEQU => 0x28,
            Op::JGRE => 0x29,
            Op::JNLES => 0x2a,
            Op::JNEQU => 0x2b,
            Op::JNGRE => 0x2c,
            Op::CALL => 0x31,
            Op::EXIT => 0x32,
            Op::PUSH => 0x33,
            Op::POP => 0x34,
            Op::PUSHR => 0x35,
            Op::POPR => 0x36,
            Op::SVC => 0x70,
        }
    }

    /// Decodes an operation byte. `None` exactly when no operation has that
    /// code.
    pub fn from_u8(byte: u8) -> (op: Option<Op>)
        ensures
            op == Op::spec_from_u8(byte),
            match op {
                Some(found) => found.spec_code() == byte,
                None => forall|other: Op| other.spec_code() != byte,
            },
    {
        let op = match byte {
            0x00 => Some(Op::NOP),
            0x01 => Some(Op::STORE),
            0x02 => Some(Op::LOAD),
            0x03 => Some(Op::IN),
            0x04 => Some(Op::OUT),
            0x11 => Some(Op::ADD),
            0x12 => Some(Op::SUB),
            0x13 => Some(Op::MUL),
            0x14 => Some(Op::DIV),
            0x15 => Some(Op::MOD),
            0x16 => Some(Op::AND),
            0x17 => Some(Op::OR),
            0x18 => Some(Op::XOR),
            0x19 => Some(Op::SHL),
            0x1a => Some(Op::SHR),
            0x1b => Some(Op::NOT),
            0x1c => Some(Op::SHRA),
            0x1f => Some(Op::COMP),
            0x20 => Some(Op::JUMP),
            0x21 => Some(Op::JNEG),
            0x22 => Some(Op::JZER),
            0x23 => Some(Op::JPOS),
            0x24 => Some(Op::JNNEG),
            0x25 => Some(Op::JNZER),
            0x26 => Some(Op::JNPOS),
            0x27 => Some(Op::JLES),
            0x28 => Some(Op::JEQU),
            0x29 => Some(Op::JGRE),
            0x2a => Some(Op::JNLES),
            0x2b => Some(Op::JNEQU),
            0x2c => Some(Op::JNGRE),
            0x31 => Some(Op::CALL),
            0x32 => Some(Op::EXIT),
            0x33 => Some(Op::PUSH),
            0x34 => Some(Op::POP),
            0x35 => Some(Op::PUSHR),
            0x36 => Some(Op::POPR),
            0x70 => Some(Op::SVC),
            _ => None,
        };
        proof {
            match op {
                Some(found) => {
                    Op::lemma_from_code(found);
                },
                None => {
                    assert forall|other: Op| other.spec_code() != byte by {
                    }
                },
            }
        }
        op
    }
}

} // verus!
