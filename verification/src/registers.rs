//! Operand locations of the CPU and its register file.

use vstd::prelude::*;

verus! {

/// The six sixteen-bit registers of the CPU. Decoding never touches them; they
/// are carried for whoever executes the decoded program.
#[allow(dead_code)]
#[derive(Debug, Clone, Copy, PartialEq, Eq)]
pub struct Registers {
    pc: u16,
    sp: u16,
    af: u16,
    bc: u16,
    de: u16,
    hl: u16,
}

impl Registers {
    /// The register file with every register at zero.
    pub closed spec fn zeroed() -> Registers {
        Registers { pc: 0, sp: 0, af: 0, bc: 0, de: 0, hl: 0 }
    }
}

impl Default for Registers {
    fn default() -> (registers: Registers)
        ensures
            registers == Registers::zeroed(),
    {
        Registers { pc: 0, sp: 0, af: 0, bc: 0, de: 0, hl: 0 }
    }
}

/// A place an instruction operates on.
///
/// `A` to `L` are the eight-bit registers, `F` being the flags. `SP`, `PC`,
/// `AF`, `BC` and `DE` are sixteen-bit registers and pairs. `HL(step)` is the
/// pair HL used as a pointer, with the adjustment applied to it after the
/// access: `0` leaves it alone, `1` increments it, `-1` decrements it.
#[allow(dead_code)]
#[derive(Debug, Clone, Copy, PartialEq, Eq, Structural)]
pub enum Register {
    A,
    B,
    C,
    D,
    E,
    F,
    H,
    L,
    SP,
    PC,
    AF,
    BC,
    DE,
    HL(i8),
}

impl Register {
    /// A pointer is adjusted by at most one step in either direction.
    pub open spec fn well_formed(self) -> bool {
        match self {
            Register::HL(step) => -1 <= step <= 1,
            _ => true,
        }
    }
}

} // verus!
