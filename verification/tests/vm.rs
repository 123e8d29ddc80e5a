use bytecode_vm::decode::{decode_batch, find_start, memory_index, DecodeError};
use bytecode_vm::driver::{run, Event, RunError};
use bytecode_vm::engine::{match_instruction, operate, ExecError, NextInstructionStep};
use bytecode_vm::instruction::{Instruction, Opcode};
use bytecode_vm::stack::OperandStack;

fn answers(events: &[Event]) -> Vec<i16> {
    events
        .iter()
        .filter_map(|e| match e {
            Event::Answer(v) => Some(*v),
            _ => None,
        })
        .collect()
}

#[test]
fn round_trip_scenario() {
    let source = vec![b'B', b'N', 2, 0, b'N', 3, 0, b'A', b'F', b'E'];
    let report = run(&source);
    assert_eq!(report.outcome, Ok(()));
    assert_eq!(report.events, vec![Event::Answer(5)]);
}

#[test]
fn add_is_left_associative_over_decode_order() {
    let source = vec![b'B', b'N', 5, 0, b'N', 3, 0, b'A', b'F', b'E'];
    let report = run(&source);
    assert_eq!(report.outcome, Ok(()));
    assert_eq!(report.events, vec![Event::Answer(8)]);
}

#[test]
fn subtract_is_left_associative_over_decode_order() {
    let source = vec![b'B', b'N', 5, 0, b'N', 3, 0, b'S', b'F', b'E'];
    let report = run(&source);
    assert_eq!(report.outcome, Ok(()));
    assert_eq!(report.events, vec![Event::Answer(2)]);
}

#[test]
fn three_terms_fold_left() {
    // ((10 - 3) - 2) = 5, not 10 - (3 - 2) = 9.
    let source = vec![
        b'B', b'N', 10, 0, b'N', 3, 0, b'S', b'N', 2, 0, b'S', b'F', b'E',
    ];
    let report = run(&source);
    assert_eq!(report.outcome, Ok(()));
    assert_eq!(report.events, vec![Event::Answer(5)]);
}

#[test]
fn is_equal_yields_one_on_equal() {
    let source = vec![b'B', b'N', 4, 0, b'N', 4, 0, b'Q', b'F', b'E'];
    let report = run(&source);
    assert_eq!(report.outcome, Ok(()));
    assert_eq!(report.events, vec![Event::Answer(1)]);
}

#[test]
fn is_greater_yields_zero_when_not_greater() {
    let source = vec![b'B', b'N', 4, 0, b'N', 5, 0, b'G', b'F', b'E'];
    let report = run(&source);
    assert_eq!(report.outcome, Ok(()));
    assert_eq!(report.events, vec![Event::Answer(0)]);
}

#[test]
fn invert_maps_zero_to_one() {
    let source = vec![b'B', b'N', 0, 0, b'I', b'F', b'E'];
    let report = run(&source);
    assert_eq!(report.outcome, Ok(()));
    assert_eq!(report.events, vec![Event::Answer(1)]);
}

#[test]
fn invert_maps_nonzero_to_zero() {
    let source = vec![b'B', b'N', 7, 0, b'I', b'F', b'E'];
    let report = run(&source);
    assert_eq!(report.outcome, Ok(()));
    assert_eq!(report.events, vec![Event::Answer(0)]);
}

#[test]
fn flush_with_no_value_reports_mismatch_and_no_answer() {
    let source = vec![b'B', b'F', b'E'];
    let report = run(&source);
    assert_eq!(report.outcome, Ok(()));
    assert_eq!(report.events, vec![Event::FlushMismatch(0)]);
    assert_eq!(answers(&report.events), Vec::<i16>::new());
}

#[test]
fn flush_with_two_values_reports_mismatch_and_no_answer() {
    let source = vec![b'B', b'N', 1, 0, b'N', 2, 0, b'F', b'E'];
    let report = run(&source);
    assert_eq!(report.outcome, Ok(()));
    assert_eq!(report.events, vec![Event::FlushMismatch(2)]);
    assert_eq!(answers(&report.events), Vec::<i16>::new());
}

#[test]
fn stored_value_round_trips_across_expressions() {
    // Store 7 at cell 3, run one more expression, then end: the store
    // persists for the whole run.
    let source = vec![
        b'B', b'N', 7, 0, b'M', 3, 0, b'F', b'N', 1, 0, b'F', b'E',
    ];
    let report = run(&source);
    assert_eq!(report.outcome, Ok(()));
    assert_eq!(report.events, vec![Event::Answer(1)]);
    assert_eq!(report.memory.read(3), 7);
}

#[test]
fn store_with_two_values_reports_mismatch_and_stores_top() {
    let source = vec![
        b'B', b'N', 1, 0, b'N', 2, 0, b'M', 5, 0, b'F', b'E',
    ];
    let report = run(&source);
    assert_eq!(report.outcome, Ok(()));
    assert_eq!(report.events, vec![Event::StoreMismatch(2, 5)]);
    assert_eq!(report.memory.read(5), 2);
}

#[test]
fn memory_index_wraps_modulo_capacity() {
    // 4099 = MEMORY_STACK_LENGTH + 3, little-endian 0x1003.
    let source = vec![b'B', b'N', 7, 0, b'M', 0x03, 0x10, b'F', b'E'];
    let report = run(&source);
    assert_eq!(report.outcome, Ok(()));
    assert_eq!(report.memory.read(3), 7);
}

#[test]
fn negative_store_index_wraps_from_the_top() {
    // -1 wraps to the last cell.
    let source = vec![b'B', b'N', 9, 0, b'M', 0xFF, 0xFF, b'F', b'E'];
    let report = run(&source);
    assert_eq!(report.outcome, Ok(()));
    assert_eq!(report.memory.read(4095), 9);
}

#[test]
fn memory_index_examples() {
    assert_eq!(memory_index(4095), 4095);
    assert_eq!(memory_index(-1), 4095);
    assert_eq!(memory_index(-4096), 0);
    assert_eq!(memory_index(3), 3);
}

#[test]
fn unsupported_byte_does_not_abort_the_batch() {
    let source = vec![b'B', b'N', 5, 0, b'X', b'N', 3, 0, b'A', b'F', b'E'];
    let report = run(&source);
    assert_eq!(report.outcome, Ok(()));
    assert_eq!(
        report.events,
        vec![Event::UnrecognizedOpcode(b'X'), Event::Answer(8)]
    );
}

#[test]
fn missing_start_marker_fails_without_execution() {
    let source = b"no marker here".to_vec();
    let report = run(&source);
    assert_eq!(report.outcome, Err(RunError::StartMarkerNotFound));
    assert!(report.events.is_empty());
}

#[test]
fn start_marker_past_search_window_is_not_found() {
    let mut source = vec![b'x'; 5000];
    source[4500] = b'B';
    let report = run(&source);
    assert_eq!(report.outcome, Err(RunError::StartMarkerNotFound));
    assert!(report.events.is_empty());
}

#[test]
fn window_exhausted_without_terminator_fails() {
    // The terminator sits just past the 4096-byte read window.
    let mut source = vec![b' '; 4098];
    source[0] = b'B';
    source[4097] = b'E';
    let report = run(&source);
    assert_eq!(
        report.outcome,
        Err(RunError::DecodeTruncated(DecodeError::NoTerminator))
    );
}

#[test]
fn source_ending_without_terminator_fails() {
    let source = vec![b'B', b'A', b'A'];
    let report = run(&source);
    assert_eq!(
        report.outcome,
        Err(RunError::DecodeTruncated(DecodeError::NoTerminator))
    );
}

#[test]
fn literal_operand_past_window_end_fails() {
    let source = vec![b'B', b'N', 1];
    let report = run(&source);
    assert_eq!(
        report.outcome,
        Err(RunError::DecodeTruncated(DecodeError::TruncatedOperand))
    );
}

#[test]
fn literal_bytes_decode_little_endian() {
    let source = vec![b'B', b'N', 1, 1, b'F', b'E'];
    let report = run(&source);
    assert_eq!(report.outcome, Ok(()));
    assert_eq!(report.events, vec![Event::Answer(257)]);
}

#[test]
fn negative_literal_decodes() {
    let source = vec![b'B', b'N', 0xFF, 0xFF, b'F', b'E'];
    let report = run(&source);
    assert_eq!(report.outcome, Ok(()));
    assert_eq!(report.events, vec![Event::Answer(-1)]);
}

#[test]
fn addition_wraps_at_the_i16_boundary() {
    let source = vec![b'B', b'N', 0xFF, 0x7F, b'N', 1, 0, b'A', b'F', b'E'];
    let report = run(&source);
    assert_eq!(report.outcome, Ok(()));
    assert_eq!(report.events, vec![Event::Answer(i16::MIN)]);
}

#[test]
fn binary_opcode_without_operands_is_fatal_underflow() {
    let source = vec![b'B', b'A', b'F', b'E'];
    let report = run(&source);
    assert_eq!(
        report.outcome,
        Err(RunError::Execution(ExecError::StackUnderflow))
    );
    assert!(report.events.is_empty());
}

#[test]
fn skip_bytes_have_no_effect() {
    let source = vec![b'B', b'N', 6, 0, b' ', b'\n', b'F', b'E'];
    let report = run(&source);
    assert_eq!(report.outcome, Ok(()));
    assert_eq!(report.events, vec![Event::Answer(6)]);
}

#[test]
fn find_start_returns_offset_past_marker() {
    assert_eq!(find_start(&vec![b'x', b'x', b'B', b'E']), Some(3));
    assert_eq!(find_start(&vec![b'x', b'x']), None);
}

#[test]
fn decode_batch_stops_at_terminator_and_advances_cursor() {
    let source = vec![b'N', 5, 0, b'F', b'Q', b'E'];
    let (batch, updated) = decode_batch(&source, 0).unwrap();
    assert_eq!(
        batch,
        vec![
            Instruction::Literal(5),
            Instruction::Opcode(Opcode::FlushAndRestart),
        ]
    );
    assert_eq!(updated, 4);
    let (batch2, updated2) = decode_batch(&source, updated).unwrap();
    assert_eq!(
        batch2,
        vec![
            Instruction::Opcode(Opcode::IsEqual),
            Instruction::Opcode(Opcode::End),
        ]
    );
    assert_eq!(updated2, 6);
}

#[test]
fn operate_applies_add_to_the_stack() {
    let mut stack = OperandStack::new();
    stack.push(5);
    stack.push(3);
    let step = operate(Opcode::Add, &mut stack);
    assert_eq!(step, Ok(NextInstructionStep::Continue));
    assert_eq!(stack.len(), 1);
    assert_eq!(stack.peek_or_zero(), 8);
}

#[test]
fn operate_rejects_the_begin_sentinel() {
    let mut stack = OperandStack::new();
    let step = operate(Opcode::Begin, &mut stack);
    assert_eq!(step, Err(ExecError::BeginNotExecutable));
}

#[test]
fn operate_signals_store_without_touching_the_stack() {
    let mut stack = OperandStack::new();
    stack.push(2);
    let step = operate(Opcode::StoreAtMemoryIndex(9), &mut stack);
    assert_eq!(step, Ok(NextInstructionStep::StoreAnswerAndProceed(9)));
    assert_eq!(stack.len(), 1);
}

#[test]
fn match_instruction_rejects_the_incomplete_sentinel() {
    let mut stack = OperandStack::new();
    let step = match_instruction(Instruction::Incomplete, &mut stack);
    assert_eq!(step, Err(ExecError::IncompleteInstruction));
}

#[test]
fn push_past_capacity_is_stack_overflow() {
    let mut stack = OperandStack::new();
    for _ in 0..4096 {
        assert_eq!(
            match_instruction(Instruction::Literal(1), &mut stack),
            Ok(NextInstructionStep::Continue)
        );
    }
    assert_eq!(
        match_instruction(Instruction::Literal(1), &mut stack),
        Err(ExecError::StackOverflow)
    );
    assert_eq!(stack.len(), 4096);
}

#[test]
fn mismatch_is_recoverable_and_later_expressions_run() {
    let source = vec![
        b'B', b'N', 1, 0, b'N', 2, 0, b'F', b'N', 9, 0, b'F', b'E',
    ];
    let report = run(&source);
    assert_eq!(report.outcome, Ok(()));
    assert_eq!(
        report.events,
        vec![Event::FlushMismatch(2), Event::Answer(9)]
    );
}

#[test]
fn each_expression_starts_with_a_fresh_stack() {
    // Were the stack not reset, the second flush would see two values.
    let source = vec![
        b'B', b'N', 4, 0, b'F', b'N', 6, 0, b'F', b'E',
    ];
    let report = run(&source);
    assert_eq!(report.outcome, Ok(()));
    assert_eq!(report.events, vec![Event::Answer(4), Event::Answer(6)]);
}

#[test]
fn start_marker_byte_inside_a_batch_is_unsupported() {
    let source = vec![b'B', b'N', 3, 0, b'B', b'F', b'E'];
    let report = run(&source);
    assert_eq!(report.outcome, Ok(()));
    assert_eq!(
        report.events,
        vec![Event::UnrecognizedOpcode(b'B'), Event::Answer(3)]
    );
}
