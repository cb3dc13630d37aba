use gameboy::catalog::{lookup_primary, lookup_secondary};
use gameboy::decode::{decode_primary, decode_secondary, new, Instruction, Value, ESCAPE};
use gameboy::error::DecodeError;
use gameboy::opcode::Opcode;
use gameboy::registers::Register;

fn entry(bytes: u8, cycles: u8, opcode: Opcode) -> Option<Instruction> {
    Some(Instruction { bytes, cycles, opcode })
}

#[test]
fn new_keeps_its_arguments() {
    let instruction = new(3, 5, Opcode::LDAdress(Register::SP));
    assert_eq!(instruction.bytes, 3);
    assert_eq!(instruction.cycles, 5);
    assert_eq!(instruction.opcode, Opcode::LDAdress(Register::SP));
}

#[test]
fn primary_space_holds_the_known_opcodes() {
    assert_eq!(lookup_primary(0x00), entry(1, 1, Opcode::NOP));
    assert_eq!(lookup_primary(0x01), entry(3, 3, Opcode::LDd16(Register::BC)));
    assert_eq!(lookup_primary(0x02), entry(1, 2, Opcode::LD(Register::BC, Register::A)));
    assert_eq!(lookup_primary(0x03), entry(1, 2, Opcode::INC(Register::BC)));
    assert_eq!(lookup_primary(0x04), entry(1, 1, Opcode::INC(Register::B)));
    assert_eq!(lookup_primary(0x05), entry(1, 1, Opcode::DEC(Register::B)));
    assert_eq!(lookup_primary(0x06), entry(2, 2, Opcode::LDd8(Register::B)));
    assert_eq!(lookup_primary(0x07), entry(1, 1, Opcode::RLC(Register::A)));
    assert_eq!(lookup_primary(0x08), entry(3, 5, Opcode::LDAdress(Register::SP)));
    assert_eq!(lookup_primary(0x09), entry(1, 2, Opcode::ADD(Register::HL(0), Register::BC)));
    assert_eq!(lookup_primary(0x0A), entry(1, 2, Opcode::LD(Register::A, Register::BC)));
    assert_eq!(lookup_primary(0x0B), entry(1, 2, Opcode::DEC(Register::BC)));
    assert_eq!(lookup_primary(0x0C), entry(1, 1, Opcode::INC(Register::C)));
    assert_eq!(lookup_primary(0x0D), entry(1, 1, Opcode::DEC(Register::D)));
    assert_eq!(lookup_primary(0x0E), entry(2, 2, Opcode::LDd8(Register::C)));
    assert_eq!(lookup_primary(0x0F), entry(1, 1, Opcode::RRC(Register::A)));
    assert_eq!(lookup_primary(0x11), entry(3, 3, Opcode::LDd16(Register::DE)));
    assert_eq!(lookup_primary(0x20), entry(2, 3, Opcode::JRNZ));
    assert_eq!(lookup_primary(0x21), entry(3, 3, Opcode::LDd16(Register::HL(0))));
    assert_eq!(lookup_primary(0x26), entry(2, 2, Opcode::LDd8(Register::H)));
    assert_eq!(lookup_primary(0x31), entry(3, 3, Opcode::LDd16(Register::SP)));
    assert_eq!(lookup_primary(0x32), entry(1, 2, Opcode::LD(Register::HL(-1), Register::A)));
    assert_eq!(lookup_primary(0x3E), entry(2, 2, Opcode::LDd8(Register::A)));
    assert_eq!(lookup_primary(0x77), entry(1, 2, Opcode::LD(Register::HL(0), Register::A)));
    assert_eq!(lookup_primary(0x80), entry(1, 1, Opcode::ADD(Register::A, Register::B)));
    assert_eq!(lookup_primary(0x9F), entry(1, 2, Opcode::SBC(Register::A, Register::A)));
    assert_eq!(lookup_primary(0xAF), entry(1, 1, Opcode::XOR(Register::A)));
    assert_eq!(lookup_primary(0xE2), entry(1, 2, Opcode::LD(Register::C, Register::A)));
    assert_eq!(lookup_primary(0xF3), entry(1, 1, Opcode::DI));
    assert_eq!(lookup_primary(0xFB), entry(1, 1, Opcode::CP(Register::E)));
    assert_eq!(lookup_primary(0xFE), entry(2, 2, Opcode::CPd8));
    assert_eq!(lookup_primary(0xFF), entry(1, 4, Opcode::RST(7)));
}

#[test]
fn primary_space_has_thirty_two_entries() {
    let mut known = 0;
    for byte in 0..=255u8 {
        if lookup_primary(byte).is_some() {
            known += 1;
        }
    }
    assert_eq!(known, 32);
}

#[test]
fn secondary_space_holds_the_known_opcodes() {
    assert_eq!(lookup_secondary(0x00), entry(1, 1, Opcode::RLC(Register::C)));
    assert_eq!(lookup_secondary(0x7C), entry(1, 2, Opcode::BIT(7, Register::H)));
    let mut known = 0;
    for byte in 0..=255u8 {
        if lookup_secondary(byte).is_some() {
            known += 1;
        }
    }
    assert_eq!(known, 2);
}

#[test]
fn the_two_spaces_are_independent() {
    assert_eq!(lookup_primary(0x7C), None);
    assert_eq!(lookup_secondary(0x7C), entry(1, 2, Opcode::BIT(7, Register::H)));
    assert_eq!(lookup_primary(0x00), entry(1, 1, Opcode::NOP));
    assert_eq!(lookup_secondary(0x00), entry(1, 1, Opcode::RLC(Register::C)));
    assert_eq!(lookup_secondary(0x31), None);
}

#[test]
fn the_escape_byte_names_no_primary_instruction() {
    assert_eq!(ESCAPE, 0xCB);
    assert_eq!(lookup_primary(ESCAPE), None);
}

#[test]
fn every_entry_has_a_length_and_a_cost() {
    for byte in 0..=255u8 {
        for found in [lookup_primary(byte), lookup_secondary(byte)] {
            if let Some(instruction) = found {
                assert!(instruction.bytes >= 1);
                assert!(instruction.cycles >= 1);
            }
        }
    }
}

#[test]
fn lookup_is_repeatable() {
    for byte in 0..=255u8 {
        assert_eq!(lookup_primary(byte), lookup_primary(byte));
        assert_eq!(lookup_secondary(byte), lookup_secondary(byte));
    }
}

#[test]
fn decode_primary_gives_the_entry() {
    assert_eq!(
        decode_primary(0x31),
        Ok(Instruction { bytes: 3, cycles: 3, opcode: Opcode::LDd16(Register::SP) })
    );
}

#[test]
fn decode_primary_names_the_missing_byte() {
    assert_eq!(
        decode_primary(0xD3),
        Err(DecodeError::UnimplementedOpcode { byte: 0xD3, prefixed: false, offset: 0 })
    );
    assert_eq!(
        decode_primary(0xCB),
        Err(DecodeError::UnimplementedOpcode { byte: 0xCB, prefixed: false, offset: 0 })
    );
}

#[test]
fn decode_secondary_gives_the_entry() {
    assert_eq!(
        decode_secondary(0x7C),
        Ok(Instruction { bytes: 1, cycles: 2, opcode: Opcode::BIT(7, Register::H) })
    );
}

#[test]
fn decode_secondary_names_the_missing_byte() {
    assert_eq!(
        decode_secondary(0x31),
        Err(DecodeError::UnimplementedOpcode { byte: 0x31, prefixed: true, offset: 0 })
    );
}

#[test]
fn decoders_agree_with_the_catalog_on_every_byte() {
    for byte in 0..=255u8 {
        match lookup_primary(byte) {
            Some(instruction) => assert_eq!(decode_primary(byte), Ok(instruction)),
            None => assert_eq!(
                decode_primary(byte),
                Err(DecodeError::UnimplementedOpcode { byte, prefixed: false, offset: 0 })
            ),
        }
        match lookup_secondary(byte) {
            Some(instruction) => assert_eq!(decode_secondary(byte), Ok(instruction)),
            None => assert_eq!(
                decode_secondary(byte),
                Err(DecodeError::UnimplementedOpcode { byte, prefixed: true, offset: 0 })
            ),
        }
    }
}

#[test]
fn basic_wraps_the_entry() {
    assert_eq!(
        Instruction::basic(0x00),
        Ok(Value::Command(Instruction { bytes: 1, cycles: 1, opcode: Opcode::NOP }))
    );
    assert_eq!(
        Instruction::basic(0x32),
        Ok(Value::Command(Instruction {
            bytes: 1,
            cycles: 2,
            opcode: Opcode::LD(Register::HL(-1), Register::A)
        }))
    );
}

#[test]
fn basic_names_the_missing_byte() {
    assert_eq!(
        Instruction::basic(0xD3),
        Err(DecodeError::UnimplementedOpcode { byte: 0xD3, prefixed: false, offset: 0 })
    );
    assert_eq!(
        Instruction::basic(0x7C),
        Err(DecodeError::UnimplementedOpcode { byte: 0x7C, prefixed: false, offset: 0 })
    );
}

#[test]
fn basic_has_no_entry_for_the_escape_byte() {
    assert_eq!(
        Instruction::basic(0xCB),
        Err(DecodeError::UnimplementedOpcode { byte: 0xCB, prefixed: false, offset: 0 })
    );
}

#[test]
fn basic_agrees_with_the_catalog_on_every_byte() {
    for byte in 0..=255u8 {
        let expected = match lookup_primary(byte) {
            Some(instruction) => Ok(Value::Command(instruction)),
            None => Err(DecodeError::UnimplementedOpcode { byte, prefixed: false, offset: 0 }),
        };
        assert_eq!(Instruction::basic(byte), expected);
        assert_eq!(Instruction::basic(byte), Instruction::basic(byte));
    }
}

#[test]
fn advanced_puts_the_escape_first() {
    assert_eq!(
        Instruction::advanced(0x7C),
        Ok([
            Value::Escape(0xCB),
            Value::Command(Instruction { bytes: 1, cycles: 2, opcode: Opcode::BIT(7, Register::H) })
        ])
    );
    assert_eq!(
        Instruction::advanced(0x00),
        Ok([
            Value::Escape(0xCB),
            Value::Command(Instruction { bytes: 1, cycles: 1, opcode: Opcode::RLC(Register::C) })
        ])
    );
}

#[test]
fn advanced_names_the_missing_byte() {
    assert_eq!(
        Instruction::advanced(0x31),
        Err(DecodeError::UnimplementedOpcode { byte: 0x31, prefixed: true, offset: 0 })
    );
    assert_eq!(
        Instruction::advanced(0xCB),
        Err(DecodeError::UnimplementedOpcode { byte: 0xCB, prefixed: true, offset: 0 })
    );
}

#[test]
fn advanced_agrees_with_the_catalog_on_every_byte() {
    for byte in 0..=255u8 {
        let expected = match lookup_secondary(byte) {
            Some(instruction) => Ok([Value::Escape(ESCAPE), Value::Command(instruction)]),
            None => Err(DecodeError::UnimplementedOpcode { byte, prefixed: true, offset: 0 }),
        };
        assert_eq!(Instruction::advanced(byte), expected);
        assert_eq!(Instruction::advanced(byte), Instruction::advanced(byte));
    }
}

#[test]
fn error_offset_and_at() {
    let unimplemented = DecodeError::UnimplementedOpcode { byte: 0x10, prefixed: true, offset: 4 };
    assert_eq!(unimplemented.offset(), 4);
    assert_eq!(
        unimplemented.at(9),
        DecodeError::UnimplementedOpcode { byte: 0x10, prefixed: true, offset: 9 }
    );
    let operand = DecodeError::TruncatedOperand { offset: 7, needed: 2, available: 1 };
    assert_eq!(operand.offset(), 7);
    assert_eq!(
        operand.at(0),
        DecodeError::TruncatedOperand { offset: 0, needed: 2, available: 1 }
    );
    let escape = DecodeError::TruncatedEscape { offset: 3 };
    assert_eq!(escape.offset(), 3);
    assert_eq!(escape.at(5), DecodeError::TruncatedEscape { offset: 5 });
}
