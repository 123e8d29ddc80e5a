//! The driver loop: batches fetched from the decoder, executed one
//! instruction at a time, their flush/store/end signals acted on, until
//! the run halts or a fatal condition stops it.

use vstd::prelude::*;

use crate::decode::{
    decode_batch, find_start, lemma_decode_consumed_bounds, lemma_decoded_batch_wf,
    spec_batch_wf, spec_decode_window, spec_find_start, spec_window, DecodeError, DecodeOutcome,
};
use crate::engine::{match_instruction, spec_step, ExecError, NextInstructionStep, StepOutcome};
use crate::instruction::Instruction;
use crate::stack::{spec_peek_or_zero, spec_zero_memory, MemoryStack, OperandStack};

verus! {

/// One reported line of a run: a flushed answer, a mismatch diagnostic at
/// a flush or store boundary, or a recoverable execution error.
#[derive(Debug, Copy, Clone, PartialEq, Eq, Structural)]
pub enum Event {
    /// An expression reduced to exactly one value and was flushed.
    Answer(i16),
    /// A flush boundary found zero or several values; the presented top
    /// value is reported instead of an answer.
    FlushMismatch(i16),
    /// A store boundary found zero or several values; the presented top
    /// value is still stored, best effort, at the given cell.
    StoreMismatch(i16, usize),
    /// A byte outside the instruction table was executed and skipped.
    UnrecognizedOpcode(u8),
}

/// Why a whole run stopped before its `End` opcode.
#[derive(Debug, Copy, Clone, PartialEq, Eq, Structural)]
pub enum RunError {
    /// No start marker within the search window; nothing was executed.
    StartMarkerNotFound,
    /// A read window was cut short: a truncated operand or no terminator.
    DecodeTruncated(DecodeError),
    /// A fatal execution error: overflow, underflow, or a sentinel that
    /// must never reach execution.
    Execution(ExecError),
}

/// The event reported at a flush boundary: the answer when exactly one
/// value remains, otherwise a mismatch with the presented top value.
pub open spec fn spec_flush_event(stack: Seq<i16>) -> Event {
    if stack.len() == 1 {
        Event::Answer(stack[0])
    } else {
        Event::FlushMismatch(spec_peek_or_zero(stack))
    }
}

/// Where one batch leaves the run: go on with the next batch, halt, or
/// stop on a fatal execution error. Memory and reported events are
/// carried in every case.
pub ghost enum BatchOutcome {
    NextBatch { memory: Seq<i16>, events: Seq<Event> },
    Halted { memory: Seq<i16>, events: Seq<Event> },
    Fatal { memory: Seq<i16>, events: Seq<Event>, error: ExecError },
}

/// Execution of one batch from instruction `j` onward: each instruction
/// is stepped; a flush reports its event, a store writes the presented
/// value (with a mismatch report unless exactly one value remains), and
/// both end the batch; an unrecognized opcode is reported and skipped;
/// any other error is fatal.
pub open spec fn spec_run_batch(
    batch: Seq<Instruction>,
    j: int,
    stack: Seq<i16>,
    memory: Seq<i16>,
    events: Seq<Event>,
) -> BatchOutcome
    decreases batch.len() - j,
{
    if j < 0 || j >= batch.len() {
        BatchOutcome::NextBatch { memory, events }
    } else {
        match spec_step(batch[j], stack) {
            StepOutcome::Stepped { stack: stack2, step } => match step {
                NextInstructionStep::Continue => spec_run_batch(batch, j + 1, stack2, memory, events),
                NextInstructionStep::EndExecution => BatchOutcome::Halted { memory, events },
                NextInstructionStep::FlushAnswerAndProceed => BatchOutcome::NextBatch {
                    memory,
                    events: events.push(spec_flush_event(stack)),
                },
                NextInstructionStep::StoreAnswerAndProceed(index) => BatchOutcome::NextBatch {
                    memory: memory.update(index as int, spec_peek_or_zero(stack)),
                    events: if stack.len() == 1 {
                        events
                    } else {
                        events.push(Event::StoreMismatch(spec_peek_or_zero(stack), index))
                    },
                },
            },
            StepOutcome::Failed { error } => match error {
                ExecError::UnrecognizedOpcode(b) => spec_run_batch(
                    batch,
                    j + 1,
                    stack,
                    memory,
                    events.push(Event::UnrecognizedOpcode(b)),
                ),
                _ => BatchOutcome::Fatal { memory, events, error },
            },
        }
    }
}

/// Where a whole run ends: halted normally, or stopped by a fatal
/// condition. Memory and reported events are carried in both cases.
pub ghost enum RunOutcome {
    Finished { memory: Seq<i16>, events: Seq<Event> },
    Failed { memory: Seq<i16>, events: Seq<Event>, error: RunError },
}

/// The run from `cursor` onward: one batch decoded from the window at the
/// cursor and executed on a fresh operand stack, the cursor moved exactly
/// past the consumed bytes, until the run halts or fails.
pub open spec fn spec_run_from(
    source: Seq<u8>,
    cursor: int,
    memory: Seq<i16>,
    events: Seq<Event>,
) -> RunOutcome
    decreases source.len() - cursor,
    via spec_run_from_decreases
{
    match spec_decode_window(spec_window(source, cursor)) {
        DecodeOutcome::TruncatedOperand => RunOutcome::Failed {
            memory,
            events,
            error: RunError::DecodeTruncated(DecodeError::TruncatedOperand),
        },
        DecodeOutcome::NoTerminator => RunOutcome::Failed {
            memory,
            events,
            error: RunError::DecodeTruncated(DecodeError::NoTerminator),
        },
        DecodeOutcome::Batch { instructions, consumed } => match spec_run_batch(
            instructions,
            0,
            Seq::empty(),
            memory,
            events,
        ) {
            BatchOutcome::NextBatch { memory: memory2, events: events2 } => spec_run_from(
                source,
                cursor + consumed,
                memory2,
                events2,
            ),
            BatchOutcome::Halted { memory: memory2, events: events2 } => RunOutcome::Finished {
                memory: memory2,
                events: events2,
            },
            BatchOutcome::Fatal { memory: memory2, events: events2, error } => RunOutcome::Failed {
                memory: memory2,
                events: events2,
                error: RunError::Execution(error),
            },
        },
    }
}

#[via_fn]
proof fn spec_run_from_decreases(source: Seq<u8>, cursor: int, memory: Seq<i16>, events: Seq<Event>) {
    lemma_decode_consumed_bounds(spec_window(source, cursor), 0, Seq::empty());
}

/// A whole run over a source: the start marker located, then batches
/// executed from just past it over zeroed memory.
pub open spec fn spec_run(source: Seq<u8>) -> RunOutcome {
    match spec_find_start(source) {
        Option::None => RunOutcome::Failed {
            memory: spec_zero_memory(),
            events: Seq::empty(),
            error: RunError::StartMarkerNotFound,
        },
        Option::Some(start) => spec_run_from(source, start as int, spec_zero_memory(), Seq::empty()),
    }
}

/// What one executed batch told the driver to do next.
#[derive(Debug, Copy, Clone, PartialEq, Eq, Structural)]
pub enum BatchSignal {
    NextBatch,
    Halted,
    Fatal(ExecError),
}

/// Executes one decoded batch on a fresh operand stack, reporting events
/// and storing into memory per `spec_run_batch`.
pub fn run_batch(batch: &Vec<Instruction>, memory: &mut MemoryStack, events: &mut Vec<Event>) -> (r:
    BatchSignal)
    requires
        spec_batch_wf(batch@),
        old(memory).wf(),
    ensures
        final(memory).wf(),
        ({
            match spec_run_batch(batch@, 0, Seq::empty(), old(memory)@, old(events)@) {
                BatchOutcome::NextBatch { memory: memory2, events: events2 } => r
                    == BatchSignal::NextBatch && final(memory)@ == memory2 && final(events)@
                    == events2,
                BatchOutcome::Halted { memory: memory2, events: events2 } => r
                    == BatchSignal::Halted && final(memory)@ == memory2 && final(events)@
                    == events2,
                BatchOutcome::Fatal { memory: memory2, events: events2, error } => r
                    == BatchSignal::Fatal(error) && final(memory)@ == memory2 && final(events)@
                    == events2,
            }
        }),
{
    let mut operand_stack = OperandStack::new();
    let mut j: usize = 0;
    while j < batch.len()
        invariant
            j <= batch@.len(),
            spec_batch_wf(batch@),
            memory.wf(),
            operand_stack.wf(),
            spec_run_batch(batch@, 0, Seq::empty(), old(memory)@, old(events)@) == spec_run_batch(
                batch@,
                j as int,
                operand_stack@,
                memory@,
                events@,
            ),
        decreases batch@.len() - j,
    {
        let instruction = batch[j];
        match match_instruction(instruction, &mut operand_stack) {
            Ok(NextInstructionStep::Continue) => {
                j += 1;
            },
            Ok(NextInstructionStep::EndExecution) => {
                return BatchSignal::Halted;
            },
            Ok(NextInstructionStep::FlushAnswerAndProceed) => {
                let answer = operand_stack.peek_or_zero();
                if operand_stack.len() == 1 {
                    events.push(Event::Answer(answer));
                } else {
                    events.push(Event::FlushMismatch(answer));
                }
                return BatchSignal::NextBatch;
            },
            Ok(NextInstructionStep::StoreAnswerAndProceed(index)) => {
                proof {
                    assert(batch@[j as int] matches Instruction::Opcode(
                        crate::instruction::Opcode::StoreAtMemoryIndex(stored_index),
                    ) && stored_index == index);
                }
                let answer = operand_stack.peek_or_zero();
                if operand_stack.len() != 1 {
                    events.push(Event::StoreMismatch(answer, index));
                }
                memory.store(index, answer);
                return BatchSignal::NextBatch;
            },
            Err(error) => match error {
                ExecError::UnrecognizedOpcode(b) => {
                    events.push(Event::UnrecognizedOpcode(b));
                    j += 1;
                },
                _ => {
                    return BatchSignal::Fatal(error);
                },
            },
        }
    }
    BatchSignal::NextBatch
}

/// Everything a finished run hands back: the reported events in order,
/// the final memory, and whether the run halted normally or on which
/// fatal error it stopped.
pub struct RunReport {
    pub events: Vec<Event>,
    pub memory: MemoryStack,
    pub outcome: Result<(), RunError>,
}

/// Runs a whole bytecode source, per `spec_run`: locates the start
/// marker, then decodes and executes batch after batch, each on a fresh
/// operand stack, over memory that persists for the run.
pub fn run(source: &Vec<u8>) -> (r: RunReport)
    ensures
        r.memory.wf(),
        ({
            match spec_run(source@) {
                RunOutcome::Finished { memory, events } => r.outcome == Ok::<(), RunError>(())
                    && r.memory@ == memory && r.events@ == events,
                RunOutcome::Failed { memory, events, error } => r.outcome == Err::<(), RunError>(
                    error,
                ) && r.memory@ == memory && r.events@ == events,
            }
        }),
{
    let mut memory = MemoryStack::new();
    let mut events: Vec<Event> = Vec::new();
    let start = match find_start(source) {
        Some(start) => start,
        None => {
            return RunReport { events, memory, outcome: Err(RunError::StartMarkerNotFound) };
        },
    };
    let mut cursor: usize = start;
    loop
        invariant
            cursor <= source@.len(),
            memory.wf(),
            spec_run(source@) == spec_run_from(source@, cursor as int, memory@, events@),
        decreases source@.len() - cursor,
    {
        match decode_batch(source, cursor) {
            Err(error) => {
                return RunReport {
                    events,
                    memory,
                    outcome: Err(RunError::DecodeTruncated(error)),
                };
            },
            Ok((batch, updated)) => {
                proof {
                    let w = spec_window(source@, cursor as int);
                    lemma_decode_consumed_bounds(w, 0, Seq::empty());
                    lemma_decoded_batch_wf(w, 0, Seq::empty());
                }
                cursor = updated;
                match run_batch(&batch, &mut memory, &mut events) {
                    BatchSignal::NextBatch => {},
                    BatchSignal::Halted => {
                        return RunReport { events, memory, outcome: Ok(()) };
                    },
                    BatchSignal::Fatal(error) => {
                        return RunReport {
                            events,
                            memory,
                            outcome: Err(RunError::Execution(error)),
                        };
                    },
                }
            },
        }
    }
}

} // verus!
