use ttk91::vm::fault::Fault;
use ttk91::vm::instruction::{AddressingMode, Instruction};
use ttk91::vm::ops::Op;

#[test]
fn decodes_load_immediate() {
    // LOAD R1, =5
    let decoded = Instruction::from_u32(35651589);
    assert_eq!(
        decoded,
        Ok(Instruction { opcode: Op::LOAD, rj: 1, m: AddressingMode::Immediate, ri: 0, addr: 5 })
    );
}

#[test]
fn decodes_every_field() {
    // 0x22 | rj 5 | mode 2 | ri 3 | 0xbeef
    let word: u32 = (0x22 << 24) | (5 << 21) | (2 << 19) | (3 << 16) | 0xbeef;
    let decoded = Instruction::from_u32(word);
    assert_eq!(
        decoded,
        Ok(Instruction {
            opcode: Op::JZER,
            rj: 5,
            m: AddressingMode::Indirect,
            ri: 3,
            addr: 0xbeef
        })
    );
}

#[test]
fn decodes_supervisor_call() {
    // SVC SP, =HALT
    let decoded = Instruction::from_u32(1891631115);
    assert_eq!(
        decoded,
        Ok(Instruction { opcode: Op::SVC, rj: 6, m: AddressingMode::Immediate, ri: 0, addr: 11 })
    );
}

#[test]
fn rejects_undefined_opcode() {
    assert_eq!(Instruction::from_u32(0x0500_0000), Err(Fault::InvalidOpcode(0x05)));
    assert_eq!(Instruction::from_u32(0xffff_ffff), Err(Fault::InvalidOpcode(0xff)));
}

#[test]
fn rejects_fourth_addressing_mode() {
    let word: u32 = (0x02 << 24) | (3 << 19);
    assert_eq!(Instruction::from_u32(word), Err(Fault::InvalidAddressingMode));
}

#[test]
fn undefined_opcode_wins_over_undefined_mode() {
    let word: u32 = (0x05 << 24) | (3 << 19);
    assert_eq!(Instruction::from_u32(word), Err(Fault::InvalidOpcode(0x05)));
}

#[test]
fn encodes_load_immediate() {
    let instruction =
        Instruction { opcode: Op::LOAD, rj: 1, m: AddressingMode::Immediate, ri: 0, addr: 5 };
    assert_eq!(instruction.to_u32(), 35651589);
}

#[test]
fn encoding_undoes_decoding_for_every_opcode_byte() {
    let mut defined = 0;
    for byte in 0u32..256 {
        for mode in 0u32..4 {
            let word: u32 = (byte << 24) | (7 << 21) | (mode << 19) | (2 << 16) | 0x1234;
            match Instruction::from_u32(word) {
                Ok(instruction) => {
                    defined += 1;
                    assert_eq!(instruction.to_u32(), word);
                    assert_eq!(instruction.opcode.code() as u32, byte);
                    assert_eq!(instruction.m.code() as u32, mode);
                }
                Err(Fault::InvalidOpcode(code)) => {
                    assert_eq!(code as u32, byte);
                    assert_eq!(Op::from_u8(code), None);
                }
                Err(fault) => {
                    assert_eq!(fault, Fault::InvalidAddressingMode);
                    assert_eq!(mode, 3);
                }
            }
        }
    }
    assert_eq!(defined, 38 * 3);
}

#[test]
fn opcode_table() {
    assert_eq!(Op::from_u8(0x00), Some(Op::NOP));
    assert_eq!(Op::from_u8(0x01), Some(Op::STORE));
    assert_eq!(Op::from_u8(0x04), Some(Op::OUT));
    assert_eq!(Op::from_u8(0x14), Some(Op::DIV));
    assert_eq!(Op::from_u8(0x1f), Some(Op::COMP));
    assert_eq!(Op::from_u8(0x2c), Some(Op::JNGRE));
    assert_eq!(Op::from_u8(0x36), Some(Op::POPR));
    assert_eq!(Op::from_u8(0x70), Some(Op::SVC));
    assert_eq!(Op::from_u8(0x10), None);
    assert_eq!(Op::from_u8(0x71), None);
    assert_eq!(Op::SVC.code(), 0x70);
    assert_eq!(Op::JNLES.code(), 0x2a);
}

#[test]
fn addressing_modes() {
    assert_eq!(AddressingMode::from_u8(0), Some(AddressingMode::Immediate));
    assert_eq!(AddressingMode::from_u8(1), Some(AddressingMode::Direct));
    assert_eq!(AddressingMode::from_u8(2), Some(AddressingMode::Indirect));
    assert_eq!(AddressingMode::from_u8(3), None);
    assert_eq!(AddressingMode::Indirect.code(), 2);
}
