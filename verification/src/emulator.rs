//! The emulator, which holds the decoded program.

use vstd::prelude::*;
use crate::catalog::{primary_entry, secondary_entry};
use crate::decode::{decode_primary, decode_secondary, Value, ESCAPE};
use crate::error::DecodeError;
use crate::registers::Registers;
use crate::stream::{
    decode, decode_from, lemma_accounting_from, lemma_total_width_is_len, literals, opcode_step,
    step, total_width,
};

verus! {

/// The decoded program and the register file.
///
/// The program is the sequence of entries that the buffers loaded so far
/// decoded to, in order. Its view is that sequence.
#[allow(dead_code)]
#[derive(Debug)]
pub struct Emulator {
    memory: Vec<Value>,
    registers: Registers,
}

impl View for Emulator {
    type V = Seq<Value>;

    closed spec fn view(&self) -> Seq<Value> {
        self.memory@
    }
}

impl Default for Emulator {
    /// An emulator with an empty program and every register at zero.
    fn default() -> (emulator: Emulator)
        ensures
            emulator@ == Seq::<Value>::empty(),
            emulator.registers() == Registers::zeroed(),
    {
        Emulator { memory: Vec::new(), registers: Registers::default() }
    }
}

/// Appends `count` operand bytes, starting at `from`, as literals.
fn push_literals(memory: &mut Vec<Value>, input: &[u8], from: usize, count: usize)
    requires
        from + count <= input@.len() <= usize::MAX,
    ensures
        final(memory)@ == old(memory)@ + literals(input@.subrange(from as int, from + count)),
{
    let ghost before = memory@;
    let mut k: usize = 0;
    while k < count
        invariant
            k <= count,
            from + count <= input@.len() <= usize::MAX,
            memory@ == before + literals(input@.subrange(from as int, from + k)),
        decreases count - k,
    {
        memory.push(Value::Number(input[from + k]));
        k += 1;
    }
}

/// Decodes the opcode byte at `at` in the primary space, or in the secondary
/// space if `prefixed`, and appends the instruction and its operand bytes.
/// Returns the position after them.
fn push_opcode(memory: &mut Vec<Value>, input: &[u8], at: usize, prefixed: bool) -> (result:
    Result<usize, DecodeError>)
    requires
        at < input@.len(),
    ensures
        ({
            let entry = if prefixed {
                secondary_entry(input@[at as int])
            } else {
                primary_entry(input@[at as int])
            };
            let emitted = opcode_step(input@, at as int, entry, prefixed);
            &&& final(memory)@ == old(memory)@ + emitted.entries
            &&& match result {
                Ok(next) => emitted.error is None && next == at + emitted.entries.len(),
                Err(error) => emitted.error == Some(error),
            }
        }),
{
    let byte: u8 = input[at];
    let decoded = if prefixed {
        decode_secondary(byte)
    } else {
        decode_primary(byte)
    };
    match decoded {
        Err(error) => Err(error.at(at)),
        Ok(instruction) => {
            let needed: usize = if instruction.bytes >= 1 {
                (instruction.bytes - 1) as usize
            } else {
                0
            };
            let available: usize = input.len() - at - 1;
            if needed > available {
                Err(DecodeError::TruncatedOperand { offset: at, needed, available })
            } else {
                memory.push(Value::Command(instruction));
                push_literals(memory, input, at + 1, needed);
                Ok(at + 1 + needed)
            }
        },
    }
}

/// Decodes the instruction at `at` and appends its entries. Returns the
/// position after it.
fn push_step(memory: &mut Vec<Value>, input: &[u8], at: usize) -> (result: Result<
    usize,
    DecodeError,
>)
    requires
        at < input@.len(),
    ensures
        final(memory)@ == old(memory)@ + step(input@, at as int).entries,
        match result {
            Ok(next) => step(input@, at as int).error is None && next == at + step(
                input@,
                at as int,
            ).entries.len(),
            Err(error) => step(input@, at as int).error == Some(error),
        },
{
    if input[at] != ESCAPE {
        push_opcode(memory, input, at, false)
    } else if input.len() - at < 2 {
        Err(DecodeError::TruncatedEscape { offset: at })
    } else {
        memory.push(Value::Escape(ESCAPE));
        push_opcode(memory, input, at + 1, true)
    }
}

impl Emulator {
    /// The register file.
    pub closed spec fn registers(&self) -> Registers {
        self.registers
    }

    /// The number of entries in the program.
    pub fn len(&self) -> (count: usize)
        ensures
            count == self@.len(),
    {
        self.memory.len()
    }

    /// The number of input bytes that the program stands for.
    pub fn byte_count(&self) -> (count: usize)
        ensures
            count == total_width(self@),
    {
        proof {
            lemma_total_width_is_len(self.memory@);
        }
        self.memory.len()
    }

    /// The entry at `index`, if the program has that many.
    pub fn get(&self, index: usize) -> (entry: Option<Value>)
        ensures
            entry == if index < self@.len() {
                Some(self@[index as int])
            } else {
                None
            },
    {
        if index < self.memory.len() {
            Some(self.memory[index])
        } else {
            None
        }
    }

    /// The offset in the input of the byte that the entry at `index` stands
    /// for: the number of bytes that the entries before it stand for.
    pub fn offset_of(&self, index: usize) -> (offset: Option<usize>)
        ensures
            offset == if index < self@.len() {
                Some(total_width(self@.take(index as int)) as usize)
            } else {
                None
            },
            offset matches Some(bytes) ==> bytes == total_width(self@.take(index as int)),
    {
        if index < self.memory.len() {
            proof {
                lemma_total_width_is_len(self.memory@.take(index as int));
            }
            Some(index)
        } else {
            None
        }
    }

    /// Decodes `input` and appends its entries to the program.
    ///
    /// Decoding stops at the first instruction that cannot be decoded. The
    /// entries of what came before it stay in the program, and the error says
    /// where and why decoding stopped.
    pub fn load(&mut self, input: &[u8]) -> (result: Result<(), DecodeError>)
        ensures
            final(self)@ == old(self)@ + decode(input@).entries,
            result == decode(input@).outcome(),
            result is Ok ==> total_width(final(self)@) == total_width(old(self)@) + input@.len(),
            result matches Err(error) ==> total_width(final(self)@) == total_width(old(self)@)
                + error.position() && error.position() < input@.len(),
            final(self).registers() == old(self).registers(),
    {
        let ghost before = self.memory@;
        let length: usize = input.len();
        proof {
            lemma_accounting_from(input@, 0);
            lemma_total_width_is_len(decode(input@).entries);
        }
        let ghost registers = self.registers;
        let mut i: usize = 0;
        while i < length
            invariant
                i <= input@.len() == length,
                decode(input@).error matches Some(error) ==> decode(input@).entries.len()
                    == error.position() < input@.len(),
                before == old(self)@,
                registers == old(self).registers(),
                self.registers == registers,
                self.memory@.len() == before.len() + i,
                decode(input@) == decode_from(input@, i as int).after(
                    self.memory@.skip(before.len() as int),
                ),
                self.memory@ == before + self.memory@.skip(before.len() as int),
            decreases input@.len() - i,
        {
            let ghost done = self.memory@.skip(before.len() as int);
            let ghost first = step(input@, i as int);
            match push_step(&mut self.memory, input, i) {
                Ok(next) => {
                    proof {
                        assert(self.memory@.skip(before.len() as int) == done + first.entries);
                        assert(done + (first.entries + decode_from(input@, next as int).entries)
                            == (done + first.entries) + decode_from(input@, next as int).entries);
                    }
                    i = next;
                },
                Err(error) => {
                    proof {
                        assert(self.memory@ == before + (done + first.entries));
                        lemma_total_width_is_len(self.memory@);
                        lemma_total_width_is_len(before);
                    }
                    return Err(error);
                },
            }
        }
        proof {
            lemma_total_width_is_len(self.memory@);
            lemma_total_width_is_len(before);
            assert(self.memory@.skip(before.len() as int) + Seq::<Value>::empty()
                == self.memory@.skip(before.len() as int));
        }
        Ok(())
    }
}

} // verus!
