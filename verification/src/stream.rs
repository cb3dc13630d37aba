//! What a buffer decodes to.
//!
//! This is the mathematical account of decoding, which the executable decoder
//! is proved against, together with what follows from it for every buffer.

use vstd::prelude::*;
use crate::catalog::{primary_entry, secondary_entry};
use crate::decode::{Instruction, Value, ESCAPE};
use crate::error::DecodeError;

verus! {

/// The entries that a stretch of a buffer decodes to, and the error that
/// stopped decoding, if one did.
pub struct Decoded {
    pub entries: Seq<Value>,
    pub error: Option<DecodeError>,
}

impl Decoded {
    /// These entries after `before`.
    pub open spec fn after(self, before: Seq<Value>) -> Decoded {
        Decoded { entries: before + self.entries, error: self.error }
    }

    /// What the caller of the decoder is handed besides the entries.
    pub open spec fn outcome(self) -> Result<(), DecodeError> {
        match self.error {
            None => Ok(()),
            Some(error) => Err(error),
        }
    }
}

/// The number of input bytes that an entry stands for.
pub open spec fn width(entry: Value) -> nat {
    match entry {
        Value::Number(_) => 1,
        Value::Command(_) => 1,
        Value::Escape(_) => 1,
    }
}

/// The number of input bytes that a sequence of entries stands for.
pub open spec fn total_width(entries: Seq<Value>) -> nat
    decreases entries.len(),
{
    if entries.len() == 0 {
        0
    } else {
        total_width(entries.drop_last()) + width(entries.last())
    }
}

/// Operand bytes as entries.
pub open spec fn literals(bytes: Seq<u8>) -> Seq<Value> {
    Seq::new(bytes.len(), |k: int| Value::Number(bytes[k]))
}

/// What the opcode byte at `at` decodes to, together with its operand bytes,
/// when the catalog holds `entry` for it.
///
/// Without an entry the opcode is unimplemented. With an entry whose operand
/// bytes run past the end of the buffer, the operand is truncated; nothing is
/// emitted for the instruction then. Otherwise the instruction is emitted, and
/// after it each of its operand bytes as a literal.
pub open spec fn opcode_step(
    input: Seq<u8>,
    at: int,
    entry: Option<Instruction>,
    prefixed: bool,
) -> Decoded {
    match entry {
        None => Decoded {
            entries: Seq::empty(),
            error: Some(
                DecodeError::UnimplementedOpcode { byte: input[at], prefixed, offset: at as usize },
            ),
        },
        Some(instruction) => {
            let needed = instruction.operands();
            let available = input.len() - at - 1;
            if needed > available {
                Decoded {
                    entries: Seq::empty(),
                    error: Some(
                        DecodeError::TruncatedOperand {
                            offset: at as usize,
                            needed: needed as usize,
                            available: available as usize,
                        },
                    ),
                }
            } else {
                Decoded {
                    entries: seq![Value::Command(instruction)] + literals(
                        input.subrange(at + 1, at + 1 + needed),
                    ),
                    error: None,
                }
            }
        },
    }
}

/// What the bytes from `at` on decode to, up to the end of the first
/// instruction. `at` is a position in the buffer.
///
/// A byte other than the escape is an opcode of the primary space. An escape
/// that ends the buffer is truncated. Any other escape is emitted, and the
/// byte after it is an opcode of the secondary space.
pub open spec fn step(input: Seq<u8>, at: int) -> Decoded {
    if input[at] != ESCAPE {
        opcode_step(input, at, primary_entry(input[at]), false)
    } else if at + 1 >= input.len() {
        Decoded {
            entries: Seq::empty(),
            error: Some(DecodeError::TruncatedEscape { offset: at as usize }),
        }
    } else {
        opcode_step(input, at + 1, secondary_entry(input[at + 1]), true).after(
            seq![Value::Escape(ESCAPE)],
        )
    }
}

/// What the bytes from `at` on decode to: one instruction after another, until
/// the buffer ends or an instruction cannot be decoded.
pub open spec fn decode_from(input: Seq<u8>, at: int) -> Decoded
    decreases input.len() - at,
{
    if at < 0 || at >= input.len() {
        Decoded { entries: Seq::empty(), error: None }
    } else {
        let first = step(input, at);
        if first.error is Some {
            first
        } else {
            decode_from(input, at + first.entries.len()).after(first.entries)
        }
    }
}

/// What a whole buffer decodes to.
pub open spec fn decode(input: Seq<u8>) -> Decoded {
    decode_from(input, 0)
}

/// Every entry stands for one byte, so a sequence of entries stands for as
/// many bytes as it has entries.
pub proof fn lemma_total_width_is_len(entries: Seq<Value>)
    ensures
        total_width(entries) == entries.len(),
    decreases entries.len(),
{
    if entries.len() > 0 {
        lemma_total_width_is_len(entries.drop_last());
    }
}

/// From any position in the buffer, what is decoded stands for every byte up
/// to the end of the buffer if decoding succeeds, and for every byte up to
/// the position of the error if it does not.
pub proof fn lemma_accounting_from(input: Seq<u8>, at: int)
    requires
        0 <= at <= input.len() <= usize::MAX,
    ensures
        decode_from(input, at).error is None ==> at + total_width(decode_from(input, at).entries)
            == input.len(),
        decode_from(input, at).error matches Some(error) ==> at + total_width(
            decode_from(input, at).entries,
        ) == error.position() < input.len(),
    decreases input.len() - at,
{
    lemma_total_width_is_len(decode_from(input, at).entries);
    if at < input.len() {
        let first = step(input, at);
        if first.error is None {
            lemma_accounting_from(input, at + first.entries.len());
            lemma_total_width_is_len(decode_from(input, at + first.entries.len()).entries);
        }
    }
}

/// Byte accounting: when a buffer decodes without error, its entries stand
/// for exactly as many bytes as the buffer holds. No byte is skipped, and
/// none is counted twice.
pub proof fn lemma_byte_accounting(input: Seq<u8>)
    requires
        input.len() <= usize::MAX,
    ensures
        decode(input).error is None ==> total_width(decode(input).entries) == input.len(),
{
    lemma_accounting_from(input, 0);
}

/// When decoding stops with an error, the entries decoded so far stand for
/// exactly the bytes before the position that the error reports, and that
/// position lies within the buffer.
pub proof fn lemma_error_position(input: Seq<u8>)
    requires
        input.len() <= usize::MAX,
    ensures
        decode(input).error matches Some(error) ==> total_width(decode(input).entries)
            == error.position() < input.len(),
{
    lemma_accounting_from(input, 0);
}

/// Whether `entry` is what the decoder emits for `byte`: the byte itself as
/// a literal, the escape marker for the escape byte, or the instruction that
/// one of the two opcode spaces holds for it.
pub open spec fn stands_for(entry: Value, byte: u8) -> bool {
    match entry {
        Value::Number(literal) => literal == byte,
        Value::Escape(escape) => escape == byte && byte == ESCAPE,
        Value::Command(instruction) => primary_entry(byte) == Some(instruction) || secondary_entry(
            byte,
        ) == Some(instruction),
    }
}

/// The `index`-th entry decoded from position `at` on stands for the byte
/// `index` places after `at`.
pub proof fn lemma_entry_offset_from(input: Seq<u8>, at: int, index: int)
    requires
        0 <= at <= input.len(),
        0 <= index < decode_from(input, at).entries.len(),
    ensures
        at + index < input.len(),
        stands_for(decode_from(input, at).entries[index], input[at + index]),
    decreases input.len() - at,
{
    let first = step(input, at);
    if first.error is None && index >= first.entries.len() {
        lemma_entry_offset_from(input, at + first.entries.len(), index - first.entries.len());
    }
}

/// The entry at `index` of a decoded program stands for the input byte at
/// offset `index`: entries and input bytes correspond one to one, in order,
/// whether or not decoding ran to the end.
pub proof fn lemma_entry_offset(input: Seq<u8>, index: int)
    requires
        0 <= index < decode(input).entries.len(),
    ensures
        index < input.len(),
        total_width(decode(input).entries.take(index)) == index,
        stands_for(decode(input).entries[index], input[index]),
{
    lemma_entry_offset_from(input, 0, index);
    lemma_total_width_is_len(decode(input).entries.take(index));
}

/// What an emulator holds and returns after loading `input` into a program
/// of `before`.
pub open spec fn loaded(
    before: Seq<Value>,
    input: Seq<u8>,
    after: Seq<Value>,
    result: Result<(), DecodeError>,
) -> bool {
    &&& after == before + decode(input).entries
    &&& result == decode(input).outcome()
}

/// Determinism: loading the same buffer into the same program twice gives
/// the same program and the same result, error included.
pub proof fn lemma_load_deterministic(
    before: Seq<Value>,
    input: Seq<u8>,
    first: Seq<Value>,
    first_result: Result<(), DecodeError>,
    second: Seq<Value>,
    second_result: Result<(), DecodeError>,
)
    requires
        loaded(before, input, first, first_result),
        loaded(before, input, second, second_result),
    ensures
        first == second,
        first_result == second_result,
{
}

} // verus!
