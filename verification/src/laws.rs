//! The laws of the instruction set, stated over the step model and proved
//! once for every state: how far each fixed-width instruction moves the
//! program counter and what it alone may touch, how a branch moves the
//! program counter, how a call and a return compose, and how an unknown
//! opcode fails a run.

use vstd::prelude::*;

use crate::cpu::RunError;
use crate::cpu::State;
use crate::cpu::StepOutcome;
use crate::cpu::running;
use crate::cpu::spec_exec;
use crate::cpu::spec_operand;
use crate::cpu::spec_step;
use crate::cpu::state_wf;
use crate::isa::Instruction;
use crate::isa::instruction_width;
use crate::isa::is_sequential;
use crate::isa::spec_lookup;
use vstd::wrapping::i32_specs;

verus! {

/// Law: every instruction with a fixed operand width advances the program
/// counter by exactly its width — one cell for the opcode plus one for the
/// operand where it has one — and mutates exactly the state cells its
/// description names; every other register, flag and memory cell is
/// unchanged.
pub proof fn lemma_sequential_advance(s: State, instruction: Instruction, t: State)
    requires
        is_sequential(instruction),
        spec_exec(s, instruction) == StepOutcome::Next(t),
    ensures
        t.pc == s.pc + instruction_width(instruction),
        t.sp == s.sp,
        t.mem.len() == s.mem.len(),
        !(instruction is Sta || instruction is StaX) ==> t.mem == s.mem,
        instruction is Sta ==> t.mem == s.mem.update(spec_operand(s) as int, s.a),
        instruction is StaX ==> t.mem == s.mem.update(s.x as int, s.a),
        t.a == (if instruction is Lda {
            spec_operand(s)
        } else if instruction is Adc {
            i32_specs::wrapping_add(s.a, spec_operand(s))
        } else {
            s.a
        }),
        t.x == (if instruction is Ldx {
            spec_operand(s)
        } else if instruction is Inx {
            i32_specs::wrapping_add(s.x, 1)
        } else {
            s.x
        }),
        t.y == (if instruction is Ldy {
            spec_operand(s)
        } else if instruction is Dey {
            i32_specs::wrapping_sub(s.y, 1)
        } else {
            s.y
        }),
        t.flags == (if instruction is Cmy {
            spec_operand(s) == s.y
        } else {
            s.flags
        }),
        t.halted == (instruction is Brk || s.halted),
{
}

/// Law: a branch whose flag is set falls through to the next instruction,
/// and one whose flag is clear moves the program counter by the signed
/// operand, counted from the cell after the branch opcode; nothing else in
/// the state changes either way.
pub proof fn lemma_branch(s: State, t: State)
    requires
        spec_exec(s, Instruction::Bne) == StepOutcome::Next(t),
    ensures
        s.flags ==> t.pc == s.pc + 2,
        !s.flags ==> t.pc == s.pc + 1 + spec_operand(s),
        t.sp == s.sp,
        t.a == s.a,
        t.x == s.x,
        t.y == s.y,
        t.flags == s.flags,
        t.halted == s.halted,
        t.mem == s.mem,
{
}

/// Law: a call followed eventually by a return resumes execution at the
/// instruction immediately after the call, with the stack pointer back at
/// its pre-call value. `s` executes the `Jsr` and becomes `s1`; `t` is any
/// later state about to execute an `Rts` with the stack balanced — the same
/// stack pointer as after the call and the pushed return cell untouched —
/// and `t1` is the state after that return.
pub proof fn lemma_subroutine_round_trip(s: State, s1: State, t: State, t1: State)
    requires
        state_wf(s),
        running(s),
        spec_lookup(s.mem[s.pc as int] as int) == Some(Instruction::Jsr),
        spec_step(s) == StepOutcome::Next(s1),
        t.sp == s1.sp,
        t.mem.len() == s.mem.len(),
        t.mem[s.sp as int] == s1.mem[s.sp as int],
        spec_step(t) == StepOutcome::Next(t1),
        spec_lookup(t.mem[t.pc as int] as int) == Some(Instruction::Rts),
    ensures
        t1.pc == s.pc + 2,
        t1.sp == s.sp,
{
}

/// Law: fetching an opcode with no table entry faults the run with
/// `OpCodeNotFound`; no instruction is executed and no state cell moves.
pub proof fn lemma_unknown_opcode(s: State)
    requires
        spec_lookup(s.mem[s.pc as int] as int) is None,
    ensures
        spec_step(s) == StepOutcome::Fault(RunError::OpCodeNotFound),
{
}

} // verus!
