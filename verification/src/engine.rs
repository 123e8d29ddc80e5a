//! The execution engine: one instruction applied to the operand stack,
//! with the signal the driver acts on.

use vstd::prelude::*;

use crate::instruction::{Instruction, Opcode};
use crate::stack::OperandStack;
use crate::BUFFER_LENGTH;

verus! {

/// What the driver does after one executed instruction.
#[derive(Debug, Copy, Clone, PartialEq, Eq, Structural)]
pub enum NextInstructionStep {
    Continue,
    EndExecution,
    FlushAnswerAndProceed,
    StoreAnswerAndProceed(usize),
}

/// Why executing one instruction failed. `UnrecognizedOpcode` is
/// recoverable (the driver reports it and goes on); the rest are fatal.
#[derive(Debug, Copy, Clone, PartialEq, Eq, Structural)]
pub enum ExecError {
    /// A literal was pushed onto a full operand stack.
    StackOverflow,
    /// An opcode had fewer operands on the stack than it needs.
    StackUnderflow,
    /// A byte outside the instruction table reached execution.
    UnrecognizedOpcode(u8),
    /// The start sentinel reached execution; it never leaves the decoder.
    BeginNotExecutable,
    /// The no-terminator sentinel reached execution; the driver stops the
    /// run on the decoder's failure before any such instruction exists.
    IncompleteInstruction,
}

/// What one execution step does: the operand stack it leaves behind and
/// the signal it hands back, or the error on an unchanged stack.
pub ghost enum StepOutcome {
    Stepped { stack: Seq<i16>, step: NextInstructionStep },
    Failed { error: ExecError },
}

/// A binary opcode's result over its two operands, `second` decoded before
/// `top`: arithmetic wraps, comparisons yield one or zero.
pub open spec fn spec_binary_result(opcode: Opcode, second: i16, top: i16) -> i16 {
    match opcode {
        Opcode::Add => second.wrapping_add(top),
        Opcode::Subtract => second.wrapping_sub(top),
        Opcode::IsEqual => if second == top {
            1
        } else {
            0
        },
        Opcode::IsGreater => if second > top {
            1
        } else {
            0
        },
        _ => 0,
    }
}

/// The stack after a binary opcode: the top two values replaced by their
/// combination.
pub open spec fn spec_apply_binary(opcode: Opcode, stack: Seq<i16>) -> Seq<i16> {
    stack.drop_last().drop_last().push(
        spec_binary_result(opcode, stack[stack.len() - 2], stack.last()),
    )
}

/// What executing one opcode against a stack does.
pub open spec fn spec_operate(opcode: Opcode, stack: Seq<i16>) -> StepOutcome {
    match opcode {
        Opcode::Begin => StepOutcome::Failed { error: ExecError::BeginNotExecutable },
        Opcode::FlushAndRestart => StepOutcome::Stepped {
            stack,
            step: NextInstructionStep::FlushAnswerAndProceed,
        },
        Opcode::End => StepOutcome::Stepped { stack, step: NextInstructionStep::EndExecution },
        Opcode::Add | Opcode::Subtract | Opcode::IsEqual | Opcode::IsGreater => if stack.len()
            >= 2 {
            StepOutcome::Stepped {
                stack: spec_apply_binary(opcode, stack),
                step: NextInstructionStep::Continue,
            }
        } else {
            StepOutcome::Failed { error: ExecError::StackUnderflow }
        },
        Opcode::Invert => if stack.len() >= 1 {
            StepOutcome::Stepped {
                stack: stack.drop_last().push(
                    if stack.last() == 0 {
                        1
                    } else {
                        0
                    },
                ),
                step: NextInstructionStep::Continue,
            }
        } else {
            StepOutcome::Failed { error: ExecError::StackUnderflow }
        },
        Opcode::Skip => StepOutcome::Stepped { stack, step: NextInstructionStep::Continue },
        Opcode::StoreAtMemoryIndex(index) => StepOutcome::Stepped {
            stack,
            step: NextInstructionStep::StoreAnswerAndProceed(index),
        },
        Opcode::Unsupported(b) => StepOutcome::Failed { error: ExecError::UnrecognizedOpcode(b) },
    }
}

/// What executing one instruction against a stack does: a literal is
/// pushed if there is room, an opcode goes through `spec_operate`, and the
/// no-terminator sentinel is a fatal defect.
pub open spec fn spec_step(instruction: Instruction, stack: Seq<i16>) -> StepOutcome {
    match instruction {
        Instruction::Literal(value) => if stack.len() < BUFFER_LENGTH {
            StepOutcome::Stepped { stack: stack.push(value), step: NextInstructionStep::Continue }
        } else {
            StepOutcome::Failed { error: ExecError::StackOverflow }
        },
        Instruction::Opcode(opcode) => spec_operate(opcode, stack),
        Instruction::Incomplete => StepOutcome::Failed { error: ExecError::IncompleteInstruction },
    }
}

/// Executes one opcode against the operand stack, per `spec_operate`: a
/// binary opcode pops its two operands and pushes their combination,
/// `Invert` rewrites the top in place, and the control opcodes leave the
/// stack alone and signal the driver. On an error the stack is unchanged.
pub fn operate(opcode: Opcode, operand_stack: &mut OperandStack) -> (r: Result<
    NextInstructionStep,
    ExecError,
>)
    requires
        old(operand_stack).wf(),
    ensures
        final(operand_stack).wf(),
        ({
            match spec_operate(opcode, old(operand_stack)@) {
                StepOutcome::Stepped { stack, step } => r == Ok::<NextInstructionStep, ExecError>(step)
                    && final(operand_stack)@ == stack,
                StepOutcome::Failed { error } => r == Err::<NextInstructionStep, ExecError>(error)
                    && final(operand_stack)@ == old(operand_stack)@,
            }
        }),
{
    match opcode {
        Opcode::Begin => Err(ExecError::BeginNotExecutable),
        Opcode::FlushAndRestart => Ok(NextInstructionStep::FlushAnswerAndProceed),
        Opcode::End => Ok(NextInstructionStep::EndExecution),
        Opcode::Add => {
            if operand_stack.len() < 2 {
                return Err(ExecError::StackUnderflow);
            }
            let top = operand_stack.pop();
            let second = operand_stack.pop();
            operand_stack.push(second.wrapping_add(top));
            Ok(NextInstructionStep::Continue)
        },
        Opcode::Subtract => {
            if operand_stack.len() < 2 {
                return Err(ExecError::StackUnderflow);
            }
            let top = operand_stack.pop();
            let second = operand_stack.pop();
            operand_stack.push(second.wrapping_sub(top));
            Ok(NextInstructionStep::Continue)
        },
        Opcode::IsEqual => {
            if operand_stack.len() < 2 {
                return Err(ExecError::StackUnderflow);
            }
            let top = operand_stack.pop();
            let second = operand_stack.pop();
            operand_stack.push(
                if second == top {
                    1
                } else {
                    0
                },
            );
            Ok(NextInstructionStep::Continue)
        },
        Opcode::IsGreater => {
            if operand_stack.len() < 2 {
                return Err(ExecError::StackUnderflow);
            }
            let top = operand_stack.pop();
            let second = operand_stack.pop();
            operand_stack.push(
                if second > top {
                    1
                } else {
                    0
                },
            );
            Ok(NextInstructionStep::Continue)
        },
        Opcode::Invert => {
            if operand_stack.len() < 1 {
                return Err(ExecError::StackUnderflow);
            }
            let top = operand_stack.pop();
            operand_stack.push(
                if top == 0 {
                    1
                } else {
                    0
                },
            );
            Ok(NextInstructionStep::Continue)
        },
        Opcode::Skip => Ok(NextInstructionStep::Continue),
        Opcode::StoreAtMemoryIndex(index) => Ok(NextInstructionStep::StoreAnswerAndProceed(index)),
        Opcode::Unsupported(b) => Err(ExecError::UnrecognizedOpcode(b)),
    }
}

/// Executes one instruction against the operand stack, per `spec_step`:
/// a literal is pushed (or `StackOverflow` is reported on a full stack),
/// an opcode is handed to `operate`, and the no-terminator sentinel is
/// reported as the defect it would be.
pub fn match_instruction(instruction: Instruction, operand_stack: &mut OperandStack) -> (r: Result<
    NextInstructionStep,
    ExecError,
>)
    requires
        old(operand_stack).wf(),
    ensures
        final(operand_stack).wf(),
        ({
            match spec_step(instruction, old(operand_stack)@) {
                StepOutcome::Stepped { stack, step } => r == Ok::<NextInstructionStep, ExecError>(step)
                    && final(operand_stack)@ == stack,
                StepOutcome::Failed { error } => r == Err::<NextInstructionStep, ExecError>(error)
                    && final(operand_stack)@ == old(operand_stack)@,
            }
        }),
{
    match instruction {
        Instruction::Literal(value) => {
            if operand_stack.len() < BUFFER_LENGTH {
                operand_stack.push(value);
                Ok(NextInstructionStep::Continue)
            } else {
                Err(ExecError::StackOverflow)
            }
        },
        Instruction::Opcode(opcode) => operate(opcode, operand_stack),
        Instruction::Incomplete => Err(ExecError::IncompleteInstruction),
    }
}

} // verus!
