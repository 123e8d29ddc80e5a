//! The two bounded stores of the machine: the operand stack an expression
//! is evaluated on, and the addressable memory stack that persists across
//! expressions.

use vstd::prelude::*;

use crate::{BUFFER_LENGTH, MEMORY_STACK_LENGTH};

verus! {

/// The value a stack presents at its top: stale slots beyond the live
/// values are treated as zero.
pub open spec fn spec_peek_or_zero(stack: Seq<i16>) -> i16 {
    if stack.len() >= 1 {
        stack.last()
    } else {
        0
    }
}

/// The bounded operand stack one expression is evaluated on. Its view is
/// the sequence of live values, bottom first.
pub struct OperandStack {
    values: Vec<i16>,
}

impl View for OperandStack {
    type V = Seq<i16>;

    closed spec fn view(&self) -> Seq<i16> {
        self.values@
    }
}

impl OperandStack {
    /// The stack never holds more than `BUFFER_LENGTH` live values.
    pub open spec fn wf(&self) -> bool {
        self@.len() <= BUFFER_LENGTH
    }

    /// An empty operand stack, as each expression starts with.
    pub fn new() -> (r: OperandStack)
        ensures
            r@ == Seq::<i16>::empty(),
            r.wf(),
    {
        OperandStack { values: Vec::new() }
    }

    /// The number of live values.
    pub fn len(&self) -> (r: usize)
        ensures
            r == self@.len(),
    {
        self.values.len()
    }

    /// Pushes onto a stack with free capacity; the caller reports
    /// `StackOverflow` instead of calling this on a full stack.
    pub fn push(&mut self, value: i16)
        requires
            old(self)@.len() < BUFFER_LENGTH,
        ensures
            final(self)@ == old(self)@.push(value),
            final(self).wf(),
    {
        self.values.push(value);
    }

    /// Pops the top value; the caller reports `StackUnderflow` instead of
    /// calling this on an empty stack.
    pub fn pop(&mut self) -> (r: i16)
        requires
            old(self)@.len() >= 1,
        ensures
            r == old(self)@.last(),
            final(self)@ == old(self)@.drop_last(),
            old(self).wf() ==> final(self).wf(),
    {
        let r = match self.values.pop() {
            Some(value) => value,
            None => unreached(),
        };
        proof {
            assert(self@ =~= old(self)@.drop_last());
        }
        r
    }

    /// The presented top value: the live top, or zero on an empty stack.
    pub fn peek_or_zero(&self) -> (r: i16)
        ensures
            r == spec_peek_or_zero(self@),
    {
        if self.values.len() >= 1 {
            self.values[self.values.len() - 1]
        } else {
            0
        }
    }
}

/// The fixed-capacity addressable memory, every cell zero at the start of
/// a run. Its view is the sequence of all `MEMORY_STACK_LENGTH` cells.
pub struct MemoryStack {
    cells: Vec<i16>,
}

impl View for MemoryStack {
    type V = Seq<i16>;

    closed spec fn view(&self) -> Seq<i16> {
        self.cells@
    }
}

/// The memory a run starts with: every cell zero.
pub open spec fn spec_zero_memory() -> Seq<i16> {
    Seq::new(MEMORY_STACK_LENGTH as nat, |i: int| 0i16)
}

impl MemoryStack {
    /// The memory always holds exactly `MEMORY_STACK_LENGTH` cells.
    pub open spec fn wf(&self) -> bool {
        self@.len() == MEMORY_STACK_LENGTH
    }

    /// A fresh memory stack with every cell zero.
    pub fn new() -> (r: MemoryStack)
        ensures
            r@ == spec_zero_memory(),
            r.wf(),
    {
        let mut cells: Vec<i16> = Vec::new();
        let mut i: usize = 0;
        while i < MEMORY_STACK_LENGTH
            invariant
                i <= MEMORY_STACK_LENGTH,
                cells@.len() == i,
                forall|k: int| 0 <= k < i ==> cells@[k] == 0i16,
            decreases MEMORY_STACK_LENGTH - i,
        {
            cells.push(0);
            i += 1;
        }
        proof {
            assert(cells@ =~= spec_zero_memory());
        }
        MemoryStack { cells }
    }

    /// Stores a value at an in-bounds cell.
    pub fn store(&mut self, index: usize, value: i16)
        requires
            old(self).wf(),
            index < MEMORY_STACK_LENGTH,
        ensures
            final(self)@ == old(self)@.update(index as int, value),
            final(self).wf(),
    {
        self.cells.set(index, value);
    }

    /// Reads an in-bounds cell.
    pub fn read(&self, index: usize) -> (r: i16)
        requires
            self.wf(),
            index < MEMORY_STACK_LENGTH,
        ensures
            r == self@[index as int],
    {
        self.cells[index]
    }
}

} // verus!
