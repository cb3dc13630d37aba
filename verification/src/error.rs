//! Why decoding stopped.

use vstd::prelude::*;

verus! {

/// The reason a buffer could not be decoded further, with the place in the
/// buffer where it happened.
#[derive(Debug, Clone, Copy, PartialEq, Eq, Structural)]
pub enum DecodeError {
    /// The catalog has no instruction for `byte`, which stands at `offset`.
    /// `prefixed` tells whether it was looked up in the secondary space.
    UnimplementedOpcode { byte: u8, prefixed: bool, offset: usize },
    /// The opcode at `offset` takes `needed` operand bytes, but only
    /// `available` bytes follow it.
    TruncatedOperand { offset: usize, needed: usize, available: usize },
    /// The escape byte at `offset` is the last byte of the buffer.
    TruncatedEscape { offset: usize },
}

impl DecodeError {
    /// The position in the buffer of the byte that could not be decoded.
    pub open spec fn position(self) -> usize {
        match self {
            DecodeError::UnimplementedOpcode { offset, .. } => offset,
            DecodeError::TruncatedOperand { offset, .. } => offset,
            DecodeError::TruncatedEscape { offset } => offset,
        }
    }

    /// The same error, reported at `offset`.
    pub open spec fn moved_to(self, offset: usize) -> DecodeError {
        match self {
            DecodeError::UnimplementedOpcode { byte, prefixed, .. } => {
                DecodeError::UnimplementedOpcode { byte, prefixed, offset }
            },
            DecodeError::TruncatedOperand { needed, available, .. } => {
                DecodeError::TruncatedOperand { offset, needed, available }
            },
            DecodeError::TruncatedEscape { .. } => DecodeError::TruncatedEscape { offset },
        }
    }

    /// The position in the buffer of the byte that could not be decoded.
    pub fn offset(&self) -> (offset: usize)
        ensures
            offset == self.position(),
    {
        match self {
            DecodeError::UnimplementedOpcode { offset, .. } => *offset,
            DecodeError::TruncatedOperand { offset, .. } => *offset,
            DecodeError::TruncatedEscape { offset } => *offset,
        }
    }

    /// Reports the error at `offset` instead of where it was first raised.
    /// The decoders of a single byte see no buffer and raise their errors at
    /// position 0; whoever walks a buffer moves them to the cursor.
    pub fn at(self, offset: usize) -> (moved: DecodeError)
        ensures
            moved == self.moved_to(offset),
    {
        match self {
            DecodeError::UnimplementedOpcode { byte, prefixed, .. } => {
                DecodeError::UnimplementedOpcode { byte, prefixed, offset }
            },
            DecodeError::TruncatedOperand { needed, available, .. } => {
                DecodeError::TruncatedOperand { offset, needed, available }
            },
            DecodeError::TruncatedEscape { .. } => DecodeError::TruncatedEscape { offset },
        }
    }
}

} // verus!
