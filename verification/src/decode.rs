//! The decoder: locating the start marker and turning one read window of
//! raw bytes into a batch of typed instructions.

use vstd::prelude::*;

use crate::instruction::{Instruction, Opcode};
use crate::{BUFFER_LENGTH, MEMORY_STACK_LENGTH};
use byteorder::ByteOrder;

verus! {

// The byte values of the instruction table.
pub const BYTE_BEGIN: u8 = 66; // 'B'
pub const BYTE_END: u8 = 69; // 'E'
pub const BYTE_FLUSH: u8 = 70; // 'F'
pub const BYTE_ADD: u8 = 65; // 'A'
pub const BYTE_SUBTRACT: u8 = 83; // 'S'
pub const BYTE_IS_EQUAL: u8 = 81; // 'Q'
pub const BYTE_IS_GREATER: u8 = 71; // 'G'
pub const BYTE_INVERT: u8 = 73; // 'I'
pub const BYTE_SPACE: u8 = 32; // ' '
pub const BYTE_NEWLINE: u8 = 10; // '\n'
pub const BYTE_LITERAL: u8 = 78; // 'N'
pub const BYTE_STORE: u8 = 77; // 'M'

/// Why a decoder call failed. Both cases are fatal for the run: the window
/// was cut short, either inside a two-byte operand or before a terminator.
#[derive(Debug, Copy, Clone, PartialEq, Eq, Structural)]
pub enum DecodeError {
    /// A two-byte literal/index operand runs past the end of the window.
    TruncatedOperand,
    /// The window was exhausted with no `End`/`FlushAndRestart` decoded.
    NoTerminator,
}

/// The signed 16-bit value that two bytes encode little-endian.
pub open spec fn spec_i16_le(lo: u8, hi: u8) -> i16 {
    if hi < 128 {
        (lo + 256 * hi) as i16
    } else {
        (lo + 256 * hi - 65536) as i16
    }
}

/// Relies on `byteorder::LittleEndian::read_i16`: a two-byte buffer is read
/// as a little-endian signed 16-bit integer (low byte first); it panics only
/// on buffers shorter than two bytes.
#[verifier::external_body]
fn read_i16_le(lo: u8, hi: u8) -> (r: i16)
    ensures
        r == spec_i16_le(lo, hi),
{
    byteorder::LittleEndian::read_i16(&[lo, hi])
}

/// The memory cell that a raw signed store operand addresses: the operand
/// reduced modulo the memory capacity, so every store is in bounds.
pub open spec fn spec_memory_index(raw: i16) -> usize {
    ((raw as int) % (MEMORY_STACK_LENGTH as int)) as usize
}

/// Reduces a raw store operand to its memory cell.
pub fn memory_index(raw: i16) -> (r: usize)
    ensures
        r == spec_memory_index(raw),
        r < MEMORY_STACK_LENGTH,
{
    let wide: i32 = raw as i32;
    let shifted: i32 = if wide < 0 {
        wide + 65536
    } else {
        wide
    };
    let r = (shifted as usize) % MEMORY_STACK_LENGTH;
    proof {
        let m = MEMORY_STACK_LENGTH as int;
        assert((shifted as int) % m == (raw as int) % m) by {
            if raw < 0 {
                vstd::arithmetic::div_mod::lemma_mod_multiples_vanish(16, raw as int, m);
                assert(m * 16 + raw == shifted as int);
            }
        };
    }
    r
}

/// The instruction encoded by one byte outside the two three-byte forms.
pub open spec fn spec_single_byte_instruction(b: u8) -> Instruction {
    if b == BYTE_END {
        Instruction::Opcode(Opcode::End)
    } else if b == BYTE_FLUSH {
        Instruction::Opcode(Opcode::FlushAndRestart)
    } else if b == BYTE_ADD {
        Instruction::Opcode(Opcode::Add)
    } else if b == BYTE_SUBTRACT {
        Instruction::Opcode(Opcode::Subtract)
    } else if b == BYTE_IS_EQUAL {
        Instruction::Opcode(Opcode::IsEqual)
    } else if b == BYTE_IS_GREATER {
        Instruction::Opcode(Opcode::IsGreater)
    } else if b == BYTE_INVERT {
        Instruction::Opcode(Opcode::Invert)
    } else if b == BYTE_SPACE || b == BYTE_NEWLINE {
        Instruction::Opcode(Opcode::Skip)
    } else {
        Instruction::Opcode(Opcode::Unsupported(b))
    }
}

fn single_byte_instruction(b: u8) -> (r: Instruction)
    ensures
        r == spec_single_byte_instruction(b),
{
    if b == BYTE_ADD {
        Instruction::Opcode(Opcode::Add)
    } else if b == BYTE_SUBTRACT {
        Instruction::Opcode(Opcode::Subtract)
    } else if b == BYTE_IS_EQUAL {
        Instruction::Opcode(Opcode::IsEqual)
    } else if b == BYTE_IS_GREATER {
        Instruction::Opcode(Opcode::IsGreater)
    } else if b == BYTE_INVERT {
        Instruction::Opcode(Opcode::Invert)
    } else if b == BYTE_SPACE || b == BYTE_NEWLINE {
        Instruction::Opcode(Opcode::Skip)
    } else if b == BYTE_END {
        Instruction::Opcode(Opcode::End)
    } else if b == BYTE_FLUSH {
        Instruction::Opcode(Opcode::FlushAndRestart)
    } else {
        Instruction::Opcode(Opcode::Unsupported(b))
    }
}

/// What decoding one read window yields, as a mathematical value.
pub ghost enum DecodeOutcome {
    /// A full batch, terminator included, and the window index just past
    /// the last consumed byte.
    Batch { instructions: Seq<Instruction>, consumed: int },
    /// A two-byte operand ran past the end of the window.
    TruncatedOperand,
    /// The window was exhausted with no terminator decoded.
    NoTerminator,
}

/// Decoding of window `w` from index `i` onward, with `acc` the
/// instructions already decoded. Decoding stops at the first terminator
/// byte and keeps that terminator as the last instruction of the batch.
pub open spec fn spec_decode_from(w: Seq<u8>, i: int, acc: Seq<Instruction>) -> DecodeOutcome
    decreases w.len() - i,
{
    if i < 0 || i >= w.len() {
        DecodeOutcome::NoTerminator
    } else if w[i] == BYTE_END {
        DecodeOutcome::Batch {
            instructions: acc.push(Instruction::Opcode(Opcode::End)),
            consumed: i + 1,
        }
    } else if w[i] == BYTE_FLUSH {
        DecodeOutcome::Batch {
            instructions: acc.push(Instruction::Opcode(Opcode::FlushAndRestart)),
            consumed: i + 1,
        }
    } else if w[i] == BYTE_LITERAL {
        if i + 2 < w.len() {
            spec_decode_from(w, i + 3, acc.push(Instruction::Literal(spec_i16_le(w[i + 1], w[i + 2]))))
        } else {
            DecodeOutcome::TruncatedOperand
        }
    } else if w[i] == BYTE_STORE {
        if i + 2 < w.len() {
            spec_decode_from(
                w,
                i + 3,
                acc.push(
                    Instruction::Opcode(
                        Opcode::StoreAtMemoryIndex(spec_memory_index(spec_i16_le(w[i + 1], w[i + 2]))),
                    ),
                ),
            )
        } else {
            DecodeOutcome::TruncatedOperand
        }
    } else {
        spec_decode_from(w, i + 1, acc.push(spec_single_byte_instruction(w[i])))
    }
}

/// What decoding one whole window yields.
pub open spec fn spec_decode_window(w: Seq<u8>) -> DecodeOutcome {
    spec_decode_from(w, 0, Seq::empty())
}

/// The read window of `source` at `cursor`: at most `BUFFER_LENGTH` bytes.
pub open spec fn spec_window(source: Seq<u8>, cursor: int) -> Seq<u8> {
    if 0 <= cursor <= source.len() {
        source.subrange(
            cursor,
            if cursor + BUFFER_LENGTH <= source.len() {
                cursor + BUFFER_LENGTH
            } else {
                source.len() as int
            },
        )
    } else {
        Seq::empty()
    }
}

/// A successfully decoded batch consumes at least the terminator byte and
/// never runs past its window.
pub proof fn lemma_decode_consumed_bounds(w: Seq<u8>, i: int, acc: Seq<Instruction>)
    ensures
        spec_decode_from(w, i, acc) matches DecodeOutcome::Batch { consumed, .. } ==> i
            < consumed <= w.len(),
    decreases w.len() - i,
{
    if 0 <= i < w.len() {
        if w[i] == BYTE_END || w[i] == BYTE_FLUSH {
        } else if (w[i] == BYTE_LITERAL || w[i] == BYTE_STORE) {
            if i + 2 < w.len() {
                lemma_decode_consumed_bounds(
                    w,
                    i + 3,
                    acc.push(Instruction::Literal(spec_i16_le(w[i + 1], w[i + 2]))),
                );
                lemma_decode_consumed_bounds(
                    w,
                    i + 3,
                    acc.push(
                        Instruction::Opcode(
                            Opcode::StoreAtMemoryIndex(
                                spec_memory_index(spec_i16_le(w[i + 1], w[i + 2])),
                            ),
                        ),
                    ),
                );
            }
        } else {
            lemma_decode_consumed_bounds(w, i + 1, acc.push(spec_single_byte_instruction(w[i])));
        }
    }
}

/// The bound every instruction of a well-formed batch puts on its store
/// index: always within the memory capacity.
pub open spec fn spec_batch_wf(batch: Seq<Instruction>) -> bool {
    forall|k: int|
        0 <= k < batch.len() ==> (#[trigger] batch[k] matches Instruction::Opcode(
            Opcode::StoreAtMemoryIndex(index),
        ) ==> index < MEMORY_STACK_LENGTH)
}

/// Every batch the decoder produces is well formed: its store indices were
/// reduced modulo the memory capacity while decoding.
pub proof fn lemma_decoded_batch_wf(w: Seq<u8>, i: int, acc: Seq<Instruction>)
    requires
        spec_batch_wf(acc),
    ensures
        spec_decode_from(w, i, acc) matches DecodeOutcome::Batch { instructions, .. }
            ==> spec_batch_wf(instructions),
    decreases w.len() - i,
{
    if 0 <= i < w.len() {
        if w[i] == BYTE_END || w[i] == BYTE_FLUSH {
            assert(spec_batch_wf(acc.push(Instruction::Opcode(Opcode::End))));
            assert(spec_batch_wf(acc.push(Instruction::Opcode(Opcode::FlushAndRestart))));
        } else if (w[i] == BYTE_LITERAL || w[i] == BYTE_STORE) {
            if i + 2 < w.len() {
                let literal = acc.push(Instruction::Literal(spec_i16_le(w[i + 1], w[i + 2])));
                let store = acc.push(
                    Instruction::Opcode(
                        Opcode::StoreAtMemoryIndex(spec_memory_index(spec_i16_le(w[i + 1], w[i + 2]))),
                    ),
                );
                assert(spec_batch_wf(literal));
                assert(spec_memory_index(spec_i16_le(w[i + 1], w[i + 2])) < MEMORY_STACK_LENGTH);
                assert(spec_batch_wf(store));
                lemma_decoded_batch_wf(w, i + 3, literal);
                lemma_decoded_batch_wf(w, i + 3, store);
            }
        } else {
            assert(spec_batch_wf(acc.push(spec_single_byte_instruction(w[i]))));
            lemma_decoded_batch_wf(w, i + 1, acc.push(spec_single_byte_instruction(w[i])));
        }
    }
}

/// Scanning for the start marker from index `i`: the cursor just past the
/// first `'B'` within the search window, if any.
pub open spec fn spec_find_start_from(source: Seq<u8>, i: int) -> Option<usize>
    decreases spec_search_end(source) - i,
{
    if i < 0 || i >= spec_search_end(source) {
        None
    } else if source[i] == BYTE_BEGIN {
        Some((i + 1) as usize)
    } else {
        spec_find_start_from(source, i + 1)
    }
}

/// How far the one-shot start-marker scan looks: at most the first
/// `BUFFER_LENGTH` bytes of the source.
pub open spec fn spec_search_end(source: Seq<u8>) -> int {
    if source.len() <= BUFFER_LENGTH {
        source.len() as int
    } else {
        BUFFER_LENGTH as int
    }
}

/// The cursor just past the first start marker of the source, if one
/// stands within the search window.
pub open spec fn spec_find_start(source: Seq<u8>) -> Option<usize> {
    spec_find_start_from(source, 0)
}

/// Scans at most the first `BUFFER_LENGTH` bytes of the source for the
/// start marker and returns the offset immediately following it.
pub fn find_start(source: &Vec<u8>) -> (r: Option<usize>)
    ensures
        r == spec_find_start(source@),
        r matches Some(start) ==> start <= source@.len(),
{
    let end: usize = if source.len() <= BUFFER_LENGTH {
        source.len()
    } else {
        BUFFER_LENGTH
    };
    let mut i: usize = 0;
    while i < end
        invariant
            i <= end,
            end == spec_search_end(source@),
            end <= source@.len(),
            spec_find_start(source@) == spec_find_start_from(source@, i as int),
        decreases end - i,
    {
        if source[i] == BYTE_BEGIN {
            return Some(i + 1);
        }
        i += 1;
    }
    None
}

/// Decodes one batch from the window of at most `BUFFER_LENGTH` bytes that
/// starts at `cursor`, stopping at the first terminator and keeping it as
/// the batch's last instruction. On success the updated cursor points
/// exactly past the last consumed byte.
pub fn decode_batch(source: &Vec<u8>, cursor: usize) -> (r: Result<
    (Vec<Instruction>, usize),
    DecodeError,
>)
    requires
        cursor <= source@.len(),
    ensures
        ({
            let outcome = spec_decode_window(spec_window(source@, cursor as int));
            match r {
                Ok((batch, updated)) => outcome matches DecodeOutcome::Batch {
                    instructions,
                    consumed,
                } && batch@ == instructions && updated == cursor + consumed && updated
                    <= source@.len(),
                Err(DecodeError::TruncatedOperand) => outcome is TruncatedOperand,
                Err(DecodeError::NoTerminator) => outcome is NoTerminator,
            }
        }),
{
    let len = source.len();
    let wend: usize = if len - cursor > BUFFER_LENGTH {
        cursor + BUFFER_LENGTH
    } else {
        len
    };
    let ghost w = spec_window(source@, cursor as int);
    proof {
        assert(w.len() == wend - cursor);
        assert(forall|k: int| 0 <= k < w.len() ==> w[k] == source@[cursor + k]);
    }
    let mut batch: Vec<Instruction> = Vec::new();
    let mut i: usize = cursor;
    while i < wend
        invariant
            cursor <= i <= wend <= source@.len(),
            w == spec_window(source@, cursor as int),
            w.len() == wend - cursor,
            forall|k: int| 0 <= k < w.len() ==> w[k] == source@[cursor + k],
            spec_decode_window(w) == spec_decode_from(w, i - cursor, batch@),
        decreases wend - i,
    {
        let b = source[i];
        proof {
            assert(w[i - cursor] == b);
        }
        if b == BYTE_END {
            batch.push(Instruction::Opcode(Opcode::End));
            return Ok((batch, i + 1));
        } else if b == BYTE_FLUSH {
            batch.push(Instruction::Opcode(Opcode::FlushAndRestart));
            return Ok((batch, i + 1));
        } else if b == BYTE_LITERAL || b == BYTE_STORE {
            if wend - i < 3 {
                return Err(DecodeError::TruncatedOperand);
            }
            let value = read_i16_le(source[i + 1], source[i + 2]);
            proof {
                assert(w[i + 1 - cursor] == source@[i + 1]);
                assert(w[i + 2 - cursor] == source@[i + 2]);
            }
            if b == BYTE_LITERAL {
                batch.push(Instruction::Literal(value));
            } else {
                batch.push(Instruction::Opcode(Opcode::StoreAtMemoryIndex(memory_index(value))));
            }
            i = i + 3;
        } else {
            batch.push(single_byte_instruction(b));
            i = i + 1;
        }
    }
    Err(DecodeError::NoTerminator)
}

} // verus!
