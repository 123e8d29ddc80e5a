//! The laws of the machine, each proved once and for all inputs: how a
//! flush boundary reports, what the binary and unary opcodes compute, how
//! memory wraps and persists, and when decoding or a whole run must fail.

use vstd::prelude::*;

use crate::decode::{
    spec_batch_wf, spec_decode_from, spec_find_start_from, spec_i16_le, spec_memory_index,
    spec_search_end, spec_single_byte_instruction, BYTE_BEGIN, BYTE_END, BYTE_FLUSH, BYTE_LITERAL,
    BYTE_STORE,
};
use crate::driver::{
    spec_flush_event, spec_run, spec_run_batch, BatchOutcome, Event, RunError, RunOutcome,
};
use crate::engine::{
    spec_apply_binary, spec_operate, spec_step, ExecError, NextInstructionStep, StepOutcome,
};
use crate::instruction::{Instruction, Opcode};
use crate::stack::{spec_peek_or_zero, spec_zero_memory};
use crate::{BUFFER_LENGTH, MEMORY_STACK_LENGTH};

verus! {

/// A literal-only expression: every value pushed in order, then flushed.
pub open spec fn spec_literal_batch(values: Seq<i16>) -> Seq<Instruction> {
    Seq::new(values.len(), |k: int| Instruction::Literal(values[k])).push(
        Instruction::Opcode(Opcode::FlushAndRestart),
    )
}

/// The memory an executed batch leaves behind, whatever its signal.
pub open spec fn spec_outcome_memory(outcome: BatchOutcome) -> Seq<i16> {
    match outcome {
        BatchOutcome::NextBatch { memory, .. } => memory,
        BatchOutcome::Halted { memory, .. } => memory,
        BatchOutcome::Fatal { memory, .. } => memory,
    }
}

proof fn lemma_run_literals(values: Seq<i16>, j: int, memory: Seq<i16>, events: Seq<Event>)
    requires
        0 <= j <= values.len(),
        values.len() <= BUFFER_LENGTH,
    ensures
        spec_run_batch(spec_literal_batch(values), j, values.take(j), memory, events)
            == (BatchOutcome::NextBatch { memory, events: events.push(spec_flush_event(values)) }),
    decreases values.len() - j,
{
    let batch = spec_literal_batch(values);
    if j == values.len() {
        assert(batch[j] == Instruction::Opcode(Opcode::FlushAndRestart));
        assert(values.take(j) =~= values);
    } else {
        assert(batch[j] == Instruction::Literal(values[j]));
        assert(values.take(j).push(values[j]) =~= values.take(j + 1));
        lemma_run_literals(values, j + 1, memory, events);
    }
}

/// Flushing a literal-only expression with exactly one value reports that
/// value as the answer; with zero or two or more values it reports a
/// mismatch instead, and no answer. Memory is untouched either way.
pub proof fn lemma_flush_of_literals(values: Seq<i16>, memory: Seq<i16>, events: Seq<Event>)
    requires
        values.len() <= BUFFER_LENGTH,
    ensures
        spec_run_batch(spec_literal_batch(values), 0, Seq::empty(), memory, events)
            == (BatchOutcome::NextBatch { memory, events: events.push(spec_flush_event(values)) }),
        values.len() == 1 ==> spec_flush_event(values) == Event::Answer(values[0]),
        values.len() != 1 ==> spec_flush_event(values) == Event::FlushMismatch(
            spec_peek_or_zero(values),
        ),
{
    assert(values.take(0) =~= Seq::<i16>::empty());
    lemma_run_literals(values, 0, memory, events);
}

/// `Add` and `Subtract` combine in decode order: pushing `a` then `b` and
/// applying the opcode flushes `a + b` (respectively `a - b`), wrapping,
/// with the earlier-decoded value on the left.
pub proof fn lemma_binary_decode_order(a: i16, b: i16, memory: Seq<i16>, events: Seq<Event>)
    ensures
        spec_run_batch(
            seq![
                Instruction::Literal(a),
                Instruction::Literal(b),
                Instruction::Opcode(Opcode::Add),
                Instruction::Opcode(Opcode::FlushAndRestart),
            ],
            0,
            Seq::empty(),
            memory,
            events,
        ) == (BatchOutcome::NextBatch { memory, events: events.push(Event::Answer(a.wrapping_add(b))) }),
        spec_run_batch(
            seq![
                Instruction::Literal(a),
                Instruction::Literal(b),
                Instruction::Opcode(Opcode::Subtract),
                Instruction::Opcode(Opcode::FlushAndRestart),
            ],
            0,
            Seq::empty(),
            memory,
            events,
        ) == (BatchOutcome::NextBatch { memory, events: events.push(Event::Answer(a.wrapping_sub(b))) }),
{
    reveal_with_fuel(spec_run_batch, 6);
    let two = Seq::<i16>::empty().push(a).push(b);
    assert(spec_apply_binary(Opcode::Add, two) =~= Seq::<i16>::empty().push(a.wrapping_add(b)));
    assert(spec_apply_binary(Opcode::Subtract, two) =~= Seq::<i16>::empty().push(
        a.wrapping_sub(b),
    ));
}

/// `IsEqual` and `IsGreater` always leave exactly zero or one on top:
/// one when the relation holds between the two operands in decode order,
/// zero otherwise.
pub proof fn lemma_comparison_yields_bit(opcode: Opcode, stack: Seq<i16>)
    requires
        opcode == Opcode::IsEqual || opcode == Opcode::IsGreater,
        stack.len() >= 2,
    ensures
        spec_operate(opcode, stack) matches StepOutcome::Stepped { stack: stack2, step }
            && step == NextInstructionStep::Continue && (stack2.last() == 0 || stack2.last() == 1)
            && stack2.last() == (
            if (opcode == Opcode::IsEqual && stack[stack.len() - 2] == stack.last()) || (opcode
                == Opcode::IsGreater && stack[stack.len() - 2] > stack.last()) {
                1i16
            } else {
                0i16
            }),
{
}

/// `Invert` maps a zero on top of the stack to one, and any non-zero top
/// value to zero; nothing below the top changes.
pub proof fn lemma_invert_two_valued(stack: Seq<i16>)
    requires
        stack.len() >= 1,
    ensures
        spec_operate(Opcode::Invert, stack) matches StepOutcome::Stepped { stack: stack2, step }
            && step == NextInstructionStep::Continue && stack2.drop_last() == stack.drop_last()
            && stack2.last() == (
            if stack.last() == 0 {
                1i16
            } else {
                0i16
            }),
{
    let flipped: i16 = if stack.last() == 0 {
        1
    } else {
        0
    };
    assert(stack.drop_last().push(flipped).drop_last() =~= stack.drop_last());
}

/// Storing exactly one value writes it to the addressed cell, and reading
/// that cell back yields the stored value.
pub proof fn lemma_store_round_trip(value: i16, index: usize, memory: Seq<i16>, events: Seq<Event>)
    requires
        index < memory.len(),
    ensures
        spec_run_batch(
            seq![
                Instruction::Literal(value),
                Instruction::Opcode(Opcode::StoreAtMemoryIndex(index)),
            ],
            0,
            Seq::empty(),
            memory,
            events,
        ) == (BatchOutcome::NextBatch { memory: memory.update(index as int, value), events }),
        memory.update(index as int, value)[index as int] == value,
{
    reveal_with_fuel(spec_run_batch, 4);
    let one = Seq::<i16>::empty().push(value);
    assert(spec_peek_or_zero(one) == value);
}

/// Memory persists across an executed batch: a cell that no instruction
/// of the batch stores to holds the same value after the batch as before,
/// whatever the batch's signal.
pub proof fn lemma_memory_persists(
    batch: Seq<Instruction>,
    j: int,
    stack: Seq<i16>,
    memory: Seq<i16>,
    events: Seq<Event>,
    index: usize,
)
    requires
        memory.len() == MEMORY_STACK_LENGTH,
        (index as int) < memory.len(),
        spec_batch_wf(batch),
        forall|k: int|
            0 <= k < batch.len() ==> #[trigger] batch[k] != Instruction::Opcode(
                Opcode::StoreAtMemoryIndex(index),
            ),
    ensures
        spec_outcome_memory(spec_run_batch(batch, j, stack, memory, events))[index as int]
            == memory[index as int],
        spec_outcome_memory(spec_run_batch(batch, j, stack, memory, events)).len() == memory.len(),
    decreases batch.len() - j,
{
    reveal_with_fuel(spec_run_batch, 2);
    if 0 <= j < batch.len() {
        match spec_step(batch[j], stack) {
            StepOutcome::Stepped { stack: stack2, step } => match step {
                NextInstructionStep::Continue => {
                    lemma_memory_persists(batch, j + 1, stack2, memory, events, index);
                },
                NextInstructionStep::EndExecution => {},
                NextInstructionStep::FlushAnswerAndProceed => {},
                NextInstructionStep::StoreAnswerAndProceed(stored) => {
                    assert(batch[j] == Instruction::Opcode(Opcode::StoreAtMemoryIndex(stored)))
                        by {
                        match batch[j] {
                            Instruction::Opcode(opcode) => {},
                            Instruction::Literal(value) => {},
                            Instruction::Incomplete => {},
                        }
                    };
                    assert(stored != index);
                },
            },
            StepOutcome::Failed { error } => match error {
                ExecError::UnrecognizedOpcode(b) => {
                    lemma_memory_persists(
                        batch,
                        j + 1,
                        stack,
                        memory,
                        events.push(Event::UnrecognizedOpcode(b)),
                        index,
                    );
                },
                _ => {},
            },
        }
    }
}

/// Any raw store operands that agree modulo the memory capacity address
/// the same cell: indices wrap.
pub proof fn lemma_memory_index_wraps(raw1: i16, raw2: i16)
    requires
        (raw1 as int) % (MEMORY_STACK_LENGTH as int) == (raw2 as int) % (
        MEMORY_STACK_LENGTH as int),
    ensures
        spec_memory_index(raw1) == spec_memory_index(raw2),
{
}

/// An unrecognized byte inside an expression does not abort the batch: it
/// is reported as one event and execution goes on at the next instruction
/// with stack and memory unchanged.
pub proof fn lemma_unsupported_is_skipped(
    batch: Seq<Instruction>,
    j: int,
    stack: Seq<i16>,
    memory: Seq<i16>,
    events: Seq<Event>,
    b: u8,
)
    requires
        0 <= j < batch.len(),
        batch[j] == Instruction::Opcode(Opcode::Unsupported(b)),
    ensures
        spec_run_batch(batch, j, stack, memory, events) == spec_run_batch(
            batch,
            j + 1,
            stack,
            memory,
            events.push(Event::UnrecognizedOpcode(b)),
        ),
{
}

proof fn lemma_find_start_none(source: Seq<u8>, i: int)
    requires
        forall|k: int| i <= k < spec_search_end(source) ==> source[k] != BYTE_BEGIN,
    ensures
        spec_find_start_from(source, i) is None,
    decreases spec_search_end(source) - i,
{
    if 0 <= i < spec_search_end(source) {
        lemma_find_start_none(source, i + 1);
    }
}

/// A source with no start marker in its search window fails with
/// `StartMarkerNotFound` before anything is executed: no events, and the
/// memory still all zero.
pub proof fn lemma_missing_start_marker(source: Seq<u8>)
    requires
        forall|k: int| 0 <= k < spec_search_end(source) ==> source[k] != BYTE_BEGIN,
    ensures
        spec_run(source) == (RunOutcome::Failed {
            memory: spec_zero_memory(),
            events: Seq::<Event>::empty(),
            error: RunError::StartMarkerNotFound,
        }),
{
    lemma_find_start_none(source, 0);
}

/// A window with no terminator byte anywhere cannot decode to a batch:
/// the decoder fails, one way or the other, and the run stops.
pub proof fn lemma_no_terminator_no_batch(w: Seq<u8>, i: int, acc: Seq<Instruction>)
    requires
        forall|k: int| 0 <= k < w.len() ==> #[trigger] w[k] != BYTE_END && w[k] != BYTE_FLUSH,
    ensures
        !(spec_decode_from(w, i, acc) is Batch),
    decreases w.len() - i,
{
    if 0 <= i < w.len() {
        if w[i] == BYTE_LITERAL || w[i] == BYTE_STORE {
            if i + 2 < w.len() {
                lemma_no_terminator_no_batch(
                    w,
                    i + 3,
                    acc.push(Instruction::Literal(spec_i16_le(w[i + 1], w[i + 2]))),
                );
                lemma_no_terminator_no_batch(
                    w,
                    i + 3,
                    acc.push(
                        Instruction::Opcode(
                            Opcode::StoreAtMemoryIndex(
                                spec_memory_index(spec_i16_le(w[i + 1], w[i + 2])),
                            ),
                        ),
                    ),
                );
            }
        } else {
            lemma_no_terminator_no_batch(
                w,
                i + 1,
                acc.push(spec_single_byte_instruction(w[i])),
            );
        }
    }
}

} // verus!
