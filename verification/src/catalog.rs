//! The opcode catalog: which instruction each opcode byte names.
//!
//! There are two opcode spaces, each indexed by a byte. The primary space is
//! the one an opcode byte is looked up in by default; the secondary space is
//! the one for the byte after an escape. Neither is complete: a byte without
//! an entry is an opcode that is not covered yet.

use vstd::prelude::*;
use crate::decode::{new, Instruction, ESCAPE};
use crate::opcode::Opcode;
use crate::registers::Register;

verus! {

/// The primary opcode space.
pub open spec fn primary_entry(byte: u8) -> Option<Instruction> {
    match byte {
        0x00 => Some(Instruction { bytes: 1, cycles: 1, opcode: Opcode::NOP }),
        0x01 => Some(Instruction { bytes: 3, cycles: 3, opcode: Opcode::LDd16(Register::BC) }),
        0x02 => Some(
            Instruction { bytes: 1, cycles: 2, opcode: Opcode::LD(Register::BC, Register::A) },
        ),
        0x03 => Some(Instruction { bytes: 1, cycles: 2, opcode: Opcode::INC(Register::BC) }),
        0x04 => Some(Instruction { bytes: 1, cycles: 1, opcode: Opcode::INC(Register::B) }),
        0x05 => Some(Instruction { bytes: 1, cycles: 1, opcode: Opcode::DEC(Register::B) }),
        0x06 => Some(Instruction { bytes: 2, cycles: 2, opcode: Opcode::LDd8(Register::B) }),
        0x07 => Some(Instruction { bytes: 1, cycles: 1, opcode: Opcode::RLC(Register::A) }),
        0x08 => Some(Instruction { bytes: 3, cycles: 5, opcode: Opcode::LDAdress(Register::SP) }),
        0x09 => Some(
            Instruction { bytes: 1, cycles: 2, opcode: Opcode::ADD(Register::HL(0), Register::BC) },
        ),
        0x0A => Some(
            Instruction { bytes: 1, cycles: 2, opcode: Opcode::LD(Register::A, Register::BC) },
        ),
        0x0B => Some(Instruction { bytes: 1, cycles: 2, opcode: Opcode::DEC(Register::BC) }),
        0x0C => Some(Instruction { bytes: 1, cycles: 1, opcode: Opcode::INC(Register::C) }),
        0x0D => Some(Instruction { bytes: 1, cycles: 1, opcode: Opcode::DEC(Register::D) }),
        0x0E => Some(Instruction { bytes: 2, cycles: 2, opcode: Opcode::LDd8(Register::C) }),
        0x0F => Some(Instruction { bytes: 1, cycles: 1, opcode: Opcode::RRC(Register::A) }),
        0x11 => Some(Instruction { bytes: 3, cycles: 3, opcode: Opcode::LDd16(Register::DE) }),
        0x20 => Some(Instruction { bytes: 2, cycles: 3, opcode: Opcode::JRNZ }),
        0x21 => Some(Instruction { bytes: 3, cycles: 3, opcode: Opcode::LDd16(Register::HL(0)) }),
        0x26 => Some(Instruction { bytes: 2, cycles: 2, opcode: Opcode::LDd8(Register::H) }),
        0x31 => Some(Instruction { bytes: 3, cycles: 3, opcode: Opcode::LDd16(Register::SP) }),
        0x32 => Some(
            Instruction { bytes: 1, cycles: 2, opcode: Opcode::LD(Register::HL(-1i8), Register::A) },
        ),
        0x3E => Some(Instruction { bytes: 2, cycles: 2, opcode: Opcode::LDd8(Register::A) }),
        0x77 => Some(
            Instruction { bytes: 1, cycles: 2, opcode: Opcode::LD(Register::HL(0), Register::A) },
        ),
        0x80 => Some(
            Instruction { bytes: 1, cycles: 1, opcode: Opcode::ADD(Register::A, Register::B) },
        ),
        0x9F => Some(
            Instruction { bytes: 1, cycles: 2, opcode: Opcode::SBC(Register::A, Register::A) },
        ),
        0xAF => Some(Instruction { bytes: 1, cycles: 1, opcode: Opcode::XOR(Register::A) }),
        0xE2 => Some(
            Instruction { bytes: 1, cycles: 2, opcode: Opcode::LD(Register::C, Register::A) },
        ),
        0xF3 => Some(Instruction { bytes: 1, cycles: 1, opcode: Opcode::DI }),
        0xFB => Some(Instruction { bytes: 1, cycles: 1, opcode: Opcode::CP(Register::E) }),
        0xFE => Some(Instruction { bytes: 2, cycles: 2, opcode: Opcode::CPd8 }),
        0xFF => Some(Instruction { bytes: 1, cycles: 4, opcode: Opcode::RST(7) }),
        _ => None,
    }
}

/// The secondary opcode space. The length of an entry counts the opcode byte
/// and what follows it, not the escape byte before it.
pub open spec fn secondary_entry(byte: u8) -> Option<Instruction> {
    match byte {
        0x00 => Some(Instruction { bytes: 1, cycles: 1, opcode: Opcode::RLC(Register::C) }),
        0x7C => Some(Instruction { bytes: 1, cycles: 2, opcode: Opcode::BIT(7, Register::H) }),
        _ => None,
    }
}

/// Looks `byte` up in the primary opcode space.
pub fn lookup_primary(byte: u8) -> (entry: Option<Instruction>)
    ensures
        entry == primary_entry(byte),
        entry matches Some(instruction) ==> instruction.well_formed() && instruction.bytes <= 3,
        byte == ESCAPE ==> entry is None,
{
    let instruction = match byte {
        0x00 => new(1, 1, Opcode::NOP),
        0x01 => new(3, 3, Opcode::LDd16(Register::BC)),
        0x02 => new(1, 2, Opcode::LD(Register::BC, Register::A)),
        0x03 => new(1, 2, Opcode::INC(Register::BC)),
        0x04 => new(1, 1, Opcode::INC(Register::B)),
        0x05 => new(1, 1, Opcode::DEC(Register::B)),
        0x06 => new(2, 2, Opcode::LDd8(Register::B)),
        0x07 => new(1, 1, Opcode::RLC(Register::A)),
        0x08 => new(3, 5, Opcode::LDAdress(Register::SP)),
        0x09 => new(1, 2, Opcode::ADD(Register::HL(0), Register::BC)),
        0x0A => new(1, 2, Opcode::LD(Register::A, Register::BC)),
        0x0B => new(1, 2, Opcode::DEC(Register::BC)),
        0x0C => new(1, 1, Opcode::INC(Register::C)),
        0x0D => new(1, 1, Opcode::DEC(Register::D)),
        0x0E => new(2, 2, Opcode::LDd8(Register::C)),
        0x0F => new(1, 1, Opcode::RRC(Register::A)),
        0x20 => new(2, 3, Opcode::JRNZ),
        0xFB => new(1, 1, Opcode::CP(Register::E)),
        0x26 => new(2, 2, Opcode::LDd8(Register::H)),
        0x11 => new(3, 3, Opcode::LDd16(Register::DE)),
        0x3E => new(2, 2, Opcode::LDd8(Register::A)),
        0x80 => new(1, 1, Opcode::ADD(Register::A, Register::B)),
        0xE2 => new(1, 2, Opcode::LD(Register::C, Register::A)),
        0xF3 => new(1, 1, Opcode::DI),
        0x77 => new(1, 2, Opcode::LD(Register::HL(0), Register::A)),
        0x21 => new(3, 3, Opcode::LDd16(Register::HL(0))),
        0x31 => new(3, 3, Opcode::LDd16(Register::SP)),
        0x32 => new(1, 2, Opcode::LD(Register::HL(-1), Register::A)),
        0xAF => new(1, 1, Opcode::XOR(Register::A)),
        0xFE => new(2, 2, Opcode::CPd8),
        0xFF => new(1, 4, Opcode::RST(7)),
        0x9F => new(1, 2, Opcode::SBC(Register::A, Register::A)),
        _ => { return None; },
    };
    Some(instruction)
}

/// Looks `byte` up in the secondary opcode space.
pub fn lookup_secondary(byte: u8) -> (entry: Option<Instruction>)
    ensures
        entry == secondary_entry(byte),
        entry matches Some(instruction) ==> instruction.well_formed() && instruction.bytes == 1,
{
    let instruction = match byte {
        0x00 => new(1, 1, Opcode::RLC(Register::C)),
        0x7C => new(1, 2, Opcode::BIT(7, Register::H)),
        _ => { return None; },
    };
    Some(instruction)
}

/// Every entry of either space is well formed, and the escape byte names no
/// instruction of the primary space.
pub proof fn lemma_entries_well_formed(byte: u8)
    ensures
        primary_entry(byte) matches Some(instruction) ==> instruction.well_formed(),
        secondary_entry(byte) matches Some(instruction) ==> instruction.well_formed(),
        primary_entry(ESCAPE) is None,
{
}

} // verus!
