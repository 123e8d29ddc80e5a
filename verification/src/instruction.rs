//! The typed instruction set that the decoder produces and the engine runs.

use vstd::prelude::*;

verus! {

/// One operation of the stack machine.
///
/// `Begin` marks the start of the executable region in the byte stream; it
/// is consumed while locating the program and must never reach execution.
#[derive(Debug, Copy, Clone, PartialEq, Eq, Structural)]
pub enum Opcode {
    Begin,
    /// Report the current expression's answer and start a fresh expression.
    FlushAndRestart,
    /// End the whole run.
    End,
    Add,
    Subtract,
    IsEqual,
    IsGreater,
    Invert,
    /// A byte with no effect (space or newline).
    Skip,
    /// Store the current expression's answer at this memory index.
    /// The index has already been reduced modulo the memory capacity.
    StoreAtMemoryIndex(usize),
    /// A byte outside the instruction table; reported at execution time.
    Unsupported(u8),
}

/// One decoded item of a batch.
///
/// `Incomplete` is a sentinel for a read window that ran out before any
/// terminator was decoded; it is distinct from a decoded `End` opcode and
/// is never handed to the execution engine.
#[derive(Debug, Copy, Clone, PartialEq, Eq, Structural)]
pub enum Instruction {
    Opcode(Opcode),
    Literal(i16),
    Incomplete,
}

} // verus!
