//! The operations an instruction can name.

use vstd::prelude::*;
use crate::registers::Register;

verus! {

/// The operation of an instruction, with the places it works on.
///
/// Where an operation takes two registers, the first is the destination.
#[derive(Debug, Clone, Copy, PartialEq, Eq, Structural)]
pub enum Opcode {
    /// Advances the program counter by 1.
    NOP,
    /// The prefix that selects the secondary opcode space.
    CB,
    /// Resets the interrupt master enable flag and prohibits maskable
    /// interrupts.
    DI,
    /// Stores the contents of the last register in the location given by the
    /// first.
    LD(Register, Register),
    /// Loads the 8-bit immediate operand into the register.
    LDd8(Register),
    /// Loads the two bytes of immediate data into the register.
    LDd16(Register),
    /// Stores the lower byte of the register at the address given by the
    /// 16-bit immediate operand, and the upper byte at the address after it.
    LDAdress(Register),
    /// Increments the contents of the register by 1.
    INC(Register),
    /// Decrements the contents of the register by 1.
    DEC(Register),
    /// Adds the contents of the last register to those of the first, and
    /// stores the result in the first.
    ADD(Register, Register),
    /// Compares register A with the 8-bit immediate operand by calculating
    /// their difference, and sets the Z flag if they are equal.
    CPd8,
    /// Compares register A with the register by calculating their difference,
    /// and sets the Z flag if they are equal.
    CP(Register),
    /// Pushes the program counter onto the stack and jumps to the n-th
    /// eight-byte slot of page 0.
    RST(u8),
    /// Takes the exclusive or of the register and register A, and stores the
    /// result in register A.
    XOR(Register),
    /// Rotates the contents of the register to the left, through the carry
    /// flag.
    RL(Register),
    /// Rotates the contents of the register to the left. Bit 7 goes to both
    /// the carry flag and bit 0.
    RLC(Register),
    /// Rotates the contents of the register to the right, through the carry
    /// flag.
    RR(Register),
    /// Rotates the contents of the register to the right. Bit 0 goes to both
    /// the carry flag and bit 7.
    RRC(Register),
    /// Subtracts the last register and the carry flag from the first, and
    /// stores the result in the first.
    SBC(Register, Register),
    /// Copies the complement of bit n of the register to the Z flag.
    BIT(u8, Register),
    /// Jumps by the signed 8-bit immediate operand if the Z flag is 0.
    JRNZ,
}

impl Opcode {
    /// Every register that the operation names is well formed.
    pub open spec fn well_formed(self) -> bool {
        match self {
            Opcode::NOP
            | Opcode::CB
            | Opcode::DI
            | Opcode::CPd8
            | Opcode::JRNZ
            | Opcode::RST(_) => true,
            Opcode::LD(to, from) | Opcode::ADD(to, from) | Opcode::SBC(to, from) => {
                to.well_formed() && from.well_formed()
            },
            Opcode::LDd8(r)
            | Opcode::LDd16(r)
            | Opcode::LDAdress(r)
            | Opcode::INC(r)
            | Opcode::DEC(r)
            | Opcode::CP(r)
            | Opcode::XOR(r)
            | Opcode::RL(r)
            | Opcode::RLC(r)
            | Opcode::RR(r)
            | Opcode::RRC(r) => r.well_formed(),
            Opcode::BIT(_, r) => r.well_formed(),
        }
    }
}

} // verus!
