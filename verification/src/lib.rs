//! Decoder for program images of an SM83-class eight-bit CPU.
//!
//! A program image is a flat byte buffer. Decoding turns it into an ordered
//! sequence of entries, one per input byte: an instruction descriptor for each
//! opcode byte, a literal for each immediate operand byte, and an escape marker
//! for each prefix byte that selects the secondary opcode space.
//!
//! Every function here is verified: the contracts say exactly which entries a
//! given buffer decodes to, and where and why decoding stops when it cannot go
//! on.

pub mod registers;
pub mod opcode;
pub mod error;
pub mod decode;
pub mod catalog;
pub mod stream;
pub mod emulator;
