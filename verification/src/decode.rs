//! Instruction descriptors, the entries of a decoded program, and the
//! decoders of a single opcode byte.

use vstd::prelude::*;
use crate::catalog::{lookup_primary, lookup_secondary, primary_entry, secondary_entry};
use crate::error::DecodeError;
use crate::opcode::Opcode;

verus! {

/// The byte that, instead of naming an operation, says that the next byte is
/// to be looked up in the secondary opcode space.
pub const ESCAPE: u8 = 0xCB;

/// What the catalog knows of one opcode.
#[derive(Debug, Clone, Copy, PartialEq, Eq, Structural)]
pub struct Instruction {
    /// The bytes the instruction takes up in the buffer: its opcode byte and
    /// the operand bytes after it. An escape byte before it is not counted.
    pub bytes: u8,
    /// The machine cycles the instruction costs.
    pub cycles: u8,
    /// The operation and the places it works on.
    pub opcode: Opcode,
}

/// One entry of a decoded program. Each stands for exactly one input byte.
#[derive(Debug, Clone, Copy, PartialEq, Eq, Structural)]
pub enum Value {
    /// An operand byte, as it stood in the buffer.
    Number(u8),
    /// The instruction that an opcode byte names.
    Command(Instruction),
    /// The escape byte before an opcode of the secondary space.
    Escape(u8),
}

impl Instruction {
    /// An instruction takes up at least its opcode byte, costs at least one
    /// cycle, and names well-formed operands.
    pub open spec fn well_formed(self) -> bool {
        &&& self.bytes >= 1
        &&& self.cycles >= 1
        &&& self.opcode.well_formed()
    }

    /// The number of operand bytes that follow the opcode byte.
    pub open spec fn operands(self) -> nat {
        if self.bytes >= 1 {
            (self.bytes - 1) as nat
        } else {
            0
        }
    }
}

/// What decoding `byte` gives when the catalog holds `entry` for it: the
/// entry itself, or the error that names the byte and the space it was
/// looked up in.
pub open spec fn decoded(entry: Option<Instruction>, byte: u8, prefixed: bool) -> Result<
    Instruction,
    DecodeError,
> {
    match entry {
        Some(instruction) => Ok(instruction),
        None => Err(DecodeError::UnimplementedOpcode { byte, prefixed, offset: 0 }),
    }
}

/// Builds an instruction descriptor.
pub fn new(bytes: u8, cycles: u8, opcode: Opcode) -> (instruction: Instruction)
    requires
        bytes >= 1,
        cycles >= 1,
        opcode.well_formed(),
    ensures
        instruction == (Instruction { bytes, cycles, opcode }),
        instruction.well_formed(),
{
    Instruction { bytes, cycles, opcode }
}

/// Decodes an opcode byte of the primary space.
pub fn decode_primary(byte: u8) -> (result: Result<Instruction, DecodeError>)
    ensures
        result == decoded(primary_entry(byte), byte, false),
        result matches Ok(instruction) ==> instruction.well_formed(),
{
    match lookup_primary(byte) {
        Some(instruction) => Ok(instruction),
        None => Err(DecodeError::UnimplementedOpcode { byte, prefixed: false, offset: 0 }),
    }
}

/// Decodes an opcode byte of the secondary space, the byte after an escape.
pub fn decode_secondary(byte: u8) -> (result: Result<Instruction, DecodeError>)
    ensures
        result == decoded(secondary_entry(byte), byte, true),
        result matches Ok(instruction) ==> instruction.well_formed(),
{
    match lookup_secondary(byte) {
        Some(instruction) => Ok(instruction),
        None => Err(DecodeError::UnimplementedOpcode { byte, prefixed: true, offset: 0 }),
    }
}

/// Whether `result` is what `Instruction::basic` returns for `byte`: the
/// instruction that the primary space holds for it, as an entry, or the error
/// that names the byte.
pub open spec fn basic_returns(byte: u8, result: Result<Value, DecodeError>) -> bool {
    result == match primary_entry(byte) {
        Some(instruction) => Ok::<Value, DecodeError>(Value::Command(instruction)),
        None => Err::<Value, DecodeError>(
            DecodeError::UnimplementedOpcode { byte, prefixed: false, offset: 0 },
        ),
    }
}

/// Whether `result` is what `Instruction::advanced` returns for `byte`: the
/// escape and the instruction that the secondary space holds for the byte, as
/// two entries, or the error that names the byte.
pub open spec fn advanced_returns(byte: u8, result: Result<[Value; 2], DecodeError>) -> bool {
    match secondary_entry(byte) {
        Some(instruction) => result matches Ok(values) && values@ == seq![
            Value::Escape(ESCAPE),
            Value::Command(instruction),
        ],
        None => result == Err::<[Value; 2], DecodeError>(
            DecodeError::UnimplementedOpcode { byte, prefixed: true, offset: 0 },
        ),
    }
}

impl Instruction {
    /// The entry for an opcode byte of the primary space, or the error that
    /// names the byte if the catalog has no instruction for it.
    pub fn basic(byte: u8) -> (result: Result<Value, DecodeError>)
        ensures
            basic_returns(byte, result),
    {
        match decode_primary(byte) {
            Ok(instruction) => Ok(Value::Command(instruction)),
            Err(error) => Err(error),
        }
    }

    /// The two entries for an escape byte followed by an opcode byte of the
    /// secondary space, or the error that names the opcode byte if the
    /// catalog has no instruction for it.
    pub fn advanced(byte: u8) -> (result: Result<[Value; 2], DecodeError>)
        ensures
            advanced_returns(byte, result),
    {
        match decode_secondary(byte) {
            Ok(instruction) => Ok([Value::Escape(ESCAPE), Value::Command(instruction)]),
            Err(error) => Err(error),
        }
    }
}

/// Determinism of the decoders of a single byte: two calls on the same byte
/// return the same, be it entries or an error. The result depends on the byte
/// and the catalog alone.
pub proof fn lemma_byte_decoders_deterministic(
    byte: u8,
    first_basic: Result<Value, DecodeError>,
    second_basic: Result<Value, DecodeError>,
    first_advanced: Result<[Value; 2], DecodeError>,
    second_advanced: Result<[Value; 2], DecodeError>,
)
    requires
        basic_returns(byte, first_basic),
        basic_returns(byte, second_basic),
        advanced_returns(byte, first_advanced),
        advanced_returns(byte, second_advanced),
    ensures
        first_basic == second_basic,
        first_advanced == second_advanced,
{
    if secondary_entry(byte) is Some {
        assert(first_advanced->Ok_0 =~= second_advanced->Ok_0);
    }
}

} // verus!
