//! Laws of the machine model: what holds of every state.

use vstd::prelude::*;
use crate::cpu::address_mode::AddressingMode;
use crate::cpu::instructions::{spec_decode, Operation};
use crate::cpu::model::CpuState;
use crate::cpu::util::lemma_word_of_its_bytes;

verus! {

/// A byte pushed and popped straight away comes back unchanged, and the stack
/// pointer ends where it began.
pub proof fn lemma_push_then_pop_byte(state: CpuState, value: u8)
    requires
        state.wf(),
    ensures
        state.push_byte(value).pop_byte().1 == value,
        state.push_byte(value).pop_byte().0.sp == state.sp,
        state.push_byte(value).pop_byte().0 == (CpuState {
            mem: state.mem.update(state.sp as int, value),
            ..state
        }),
{
}

/// A word pushed and popped straight away comes back unchanged, and the stack
/// pointer ends where it began.
pub proof fn lemma_push_then_pop_word(state: CpuState, value: u16)
    requires
        state.wf(),
    ensures
        state.push_word(value).pop_word().1 == value,
        state.push_word(value).pop_word().0.sp == state.sp,
{
    lemma_word_of_its_bytes(value);
}

/// A subroutine call followed at once by a return leaves the program counter
/// just past the calling instruction, and the stack pointer where it began.
pub proof fn lemma_jsr_then_rts(state: CpuState, mode: AddressingMode)
    requires
        state.wf(),
        mode.has_operand(),
    ensures
        state.jsr(mode).rts().pc == state.pc.wrapping_add(mode.spec_len()),
        state.jsr(mode).rts().sp == state.sp,
{
    let pushed = state.push_word(state.return_address(mode));
    lemma_push_then_pop_word(state, state.return_address(mode));
    assert(state.jsr(mode).pop_word().1 == pushed.pop_word().1);
}

/// A step on a subroutine call followed by a step on a return ends just past
/// the three-byte call, with the stack pointer where it began.
pub proof fn lemma_call_step_then_return_step(state: CpuState)
    requires
        state.wf(),
        spec_decode(state.fetched_opcode()) matches Some(call) && call.operation
            == Operation::Jsr,
        state.step() matches Some(called) && (spec_decode(called.fetched_opcode()) matches Some(
            back,
        ) && back.operation == Operation::Rts),
    ensures
        state.step() matches Some(called) && (called.step() matches Some(returned) && returned.pc
            == state.pc.wrapping_add(3) && returned.sp == state.sp),
{
    lemma_jsr_then_rts(state, AddressingMode::Absolute);
}

/// A step on a jump leaves the program counter at the effective address of
/// the jump.
pub proof fn lemma_jump_step_lands_on_target(state: CpuState)
    requires
        spec_decode(state.fetched_opcode()) matches Some(jump) && jump.operation
            == Operation::Jmp,
    ensures
        state.step() matches Some(next) && (spec_decode(state.fetched_opcode()) matches Some(
            jump,
        ) && next.pc == state.effective_address(jump.mode)),
{
}

/// A step on an operation that does not transfer control moves the program
/// counter forward by the encoded length of the instruction, wrapping.
pub proof fn lemma_plain_step_advances_by_length(state: CpuState)
    requires
        spec_decode(state.fetched_opcode()) matches Some(instruction)
            && !instruction.operation.spec_transfers_control(),
    ensures
        state.step() matches Some(next) && (spec_decode(state.fetched_opcode()) matches Some(
            instruction,
        ) && next.pc == state.pc.wrapping_add(instruction.mode.spec_len())),
{
}

/// Every operation keeps the state well formed.
pub proof fn lemma_execute_keeps_well_formed(
    state: CpuState,
    operation: Operation,
    mode: AddressingMode,
)
    requires
        state.wf(),
    ensures
        state.execute(operation, mode).wf(),
{
}

/// A step exists exactly when the fetched opcode has an entry in the decode
/// table, and it keeps the state well formed.
pub proof fn lemma_step_keeps_well_formed(state: CpuState)
    requires
        state.wf(),
    ensures
        state.step() is Some <==> spec_decode(state.fetched_opcode()) is Some,
        state.step() matches Some(next) ==> next.wf(),
{
    if let Some(instruction) = spec_decode(state.fetched_opcode()) {
        lemma_execute_keeps_well_formed(state, instruction.operation, instruction.mode);
    }
}

} // verus!
