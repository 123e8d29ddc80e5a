//! A small stack-machine bytecode interpreter.
//!
//! A program is a byte stream: a start marker `'B'` opens the executable
//! region, after which each byte (or three-byte literal/store form) decodes
//! to one instruction. Expressions are evaluated over a bounded operand
//! stack; `'F'` flushes an expression's answer, `'M' lo hi` stores it into a
//! wrapped memory cell, and `'E'` ends the run.

use vstd::prelude::*;

pub mod decode;
pub mod driver;
pub mod engine;
pub mod instruction;
pub mod laws;
pub mod stack;

verus! {

/// Number of bytes scanned for the start marker, the size of each decoder
/// read window, and the capacity of the operand stack.
pub const BUFFER_LENGTH: usize = 4096;

/// Capacity of the addressable memory stack.
pub const MEMORY_STACK_LENGTH: usize = 4096;

} // verus!
