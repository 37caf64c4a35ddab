//! The CPU state machine: registers, flags, stack pointer, program counter
//! and memory, together with the mathematical model of one execution step and
//! the fetch-decode-execute loop driven by the opcode table.

use vstd::prelude::*;

use crate::isa::Instruction;
use crate::isa::LookupError;
use crate::isa::MOS6502CpuInstructionSet;
use crate::isa::spec_lookup;
use vstd::pervasive::VecAdditionalExecFns;
use vstd::wrapping::i32_specs;

verus! {

/// The largest memory size a CPU may be built with, in cells. Keeping the
/// address space well below the integer limits lets every program-counter and
/// stack computation stay in range on any machine word size.
pub const MEM_LIMIT: usize = 0x4000_0000;

/// The instruction-count ceiling of `run`: after this many executed
/// instructions a machine that is still running stops with
/// `StepLimitReached` instead of looping forever.
pub const STEP_LIMIT: u64 = 10_000_000;

/// Failure of loading: the program does not fit into memory.
#[derive(Clone, Copy, Debug, PartialEq, Eq, Structural)]
pub enum CpuError {
    ProgramExceedsMemory,
}

/// Fatal failure of a run. `OpCodeNotFound` is a fetched opcode with no table
/// entry. `MemoryAccessOutOfRange` is an instruction that would touch a cell
/// outside memory: an operand cell past the end, a store to an address not in
/// memory, a branch to a negative address, a call with no stack cell left, a
/// return past the bottom of the stack, or a return whose popped cell is
/// negative (which can only mean the program overwrote the stack region,
/// since every pushed return address is non-negative). `StepLimitReached` reports the
/// instruction-count ceiling, a safety extension of the run loop: the machine
/// was still running after `STEP_LIMIT` steps, as an unconditional loop would
/// otherwise run forever.
#[derive(Clone, Copy, Debug, PartialEq, Eq, Structural)]
pub enum RunError {
    OpCodeNotFound,
    MemoryAccessOutOfRange,
    StepLimitReached,
}

/// The mathematical state of the machine: program counter, stack pointer, the
/// three registers, the comparison flag, the halt flag, and memory as a
/// sequence of cells.
#[verifier::ext_equal]
pub ghost struct State {
    pub pc: nat,
    pub sp: nat,
    pub a: i32,
    pub x: i32,
    pub y: i32,
    pub flags: bool,
    pub halted: bool,
    pub mem: Seq<i32>,
}

/// What one step does to a state: move to the next state, or fail fatally.
pub ghost enum StepOutcome {
    Next(State),
    Fault(RunError),
}

/// Structural soundness of a state: memory is non-empty, within the size
/// limit, and the stack pointer addresses a memory cell.
pub open spec fn state_wf(s: State) -> bool {
    &&& 1 <= s.mem.len()
    &&& s.mem.len() <= MEM_LIMIT
    &&& s.sp < s.mem.len()
}

/// Whether the machine would fetch another instruction: not halted and the
/// program counter still inside memory. A state where this fails is terminal.
pub open spec fn running(s: State) -> bool {
    !s.halted && s.pc < s.mem.len()
}

/// The operand of the instruction at the program counter: the cell just past
/// the opcode.
pub open spec fn spec_operand(s: State) -> i32 {
    s.mem[s.pc as int + 1]
}

/// The effect of one instruction on a running state. Every instruction owns
/// the whole movement of the program counter, with no extra increment from
/// the driving loop: sequential instructions step it past their own cells,
/// while branch, call and return set it outright. A taken branch lands at
/// the cell after the branch opcode plus the signed operand; this base — one
/// past the opcode, not the opcode cell itself — is what makes a backward
/// loop of the form "body, compare, branch" re-enter at the head of the
/// body. A call pushes the address of the instruction after the call — the
/// two cells of the call itself skipped — and jumps to the operand clamped
/// to non-negative; a return pops that address and jumps to exactly it, so a
/// call and a balanced return always resume right after the call. Any cell
/// an instruction would touch outside memory, and a popped return address
/// that is negative, is a `MemoryAccessOutOfRange` fault that leaves the
/// state unchanged.
pub open spec fn spec_exec(s: State, instruction: Instruction) -> StepOutcome {
    match instruction {
        Instruction::Brk => StepOutcome::Next(
            State { halted: true, pc: (s.pc + 1) as nat, ..s },
        ),
        Instruction::Lda => if s.pc + 1 < s.mem.len() {
            StepOutcome::Next(State { a: spec_operand(s), pc: (s.pc + 2) as nat, ..s })
        } else {
            StepOutcome::Fault(RunError::MemoryAccessOutOfRange)
        },
        Instruction::Adc => if s.pc + 1 < s.mem.len() {
            StepOutcome::Next(
                State {
                    a: i32_specs::wrapping_add(s.a, spec_operand(s)),
                    pc: (s.pc + 2) as nat,
                    ..s
                },
            )
        } else {
            StepOutcome::Fault(RunError::MemoryAccessOutOfRange)
        },
        Instruction::Sta => if s.pc + 1 < s.mem.len() && 0 <= spec_operand(s)
            && spec_operand(s) < s.mem.len() {
            StepOutcome::Next(
                State {
                    mem: s.mem.update(spec_operand(s) as int, s.a),
                    pc: (s.pc + 2) as nat,
                    ..s
                },
            )
        } else {
            StepOutcome::Fault(RunError::MemoryAccessOutOfRange)
        },
        Instruction::Ldx => if s.pc + 1 < s.mem.len() {
            StepOutcome::Next(State { x: spec_operand(s), pc: (s.pc + 2) as nat, ..s })
        } else {
            StepOutcome::Fault(RunError::MemoryAccessOutOfRange)
        },
        Instruction::Inx => StepOutcome::Next(
            State { x: i32_specs::wrapping_add(s.x, 1), pc: (s.pc + 1) as nat, ..s },
        ),
        Instruction::Cmy => if s.pc + 1 < s.mem.len() {
            StepOutcome::Next(
                State { flags: spec_operand(s) == s.y, pc: (s.pc + 2) as nat, ..s },
            )
        } else {
            StepOutcome::Fault(RunError::MemoryAccessOutOfRange)
        },
        Instruction::Bne => if s.pc + 1 < s.mem.len() {
            if s.flags {
                StepOutcome::Next(State { pc: (s.pc + 2) as nat, ..s })
            } else if s.pc + 1 + spec_operand(s) >= 0 {
                StepOutcome::Next(State { pc: (s.pc + 1 + spec_operand(s)) as nat, ..s })
            } else {
                StepOutcome::Fault(RunError::MemoryAccessOutOfRange)
            }
        } else {
            StepOutcome::Fault(RunError::MemoryAccessOutOfRange)
        },
        Instruction::StaX => if 0 <= s.x && s.x < s.mem.len() {
            StepOutcome::Next(
                State { mem: s.mem.update(s.x as int, s.a), pc: (s.pc + 1) as nat, ..s },
            )
        } else {
            StepOutcome::Fault(RunError::MemoryAccessOutOfRange)
        },
        Instruction::Dey => StepOutcome::Next(
            State { y: i32_specs::wrapping_sub(s.y, 1), pc: (s.pc + 1) as nat, ..s },
        ),
        Instruction::Ldy => if s.pc + 1 < s.mem.len() {
            StepOutcome::Next(State { y: spec_operand(s), pc: (s.pc + 2) as nat, ..s })
        } else {
            StepOutcome::Fault(RunError::MemoryAccessOutOfRange)
        },
        Instruction::Jsr => if s.pc + 1 < s.mem.len() && s.sp >= 1 {
            StepOutcome::Next(
                State {
                    mem: s.mem.update(s.sp as int, (s.pc + 2) as i32),
                    sp: (s.sp - 1) as nat,
                    pc: if spec_operand(s) >= 0 {
                        spec_operand(s) as nat
                    } else {
                        0
                    },
                    ..s
                },
            )
        } else {
            StepOutcome::Fault(RunError::MemoryAccessOutOfRange)
        },
        Instruction::Rts => if s.sp + 1 < s.mem.len() && s.mem[s.sp as int + 1] >= 0 {
            StepOutcome::Next(
                State { sp: (s.sp + 1) as nat, pc: s.mem[s.sp as int + 1] as nat, ..s },
            )
        } else {
            StepOutcome::Fault(RunError::MemoryAccessOutOfRange)
        },
    }
}

/// One whole step of the machine from a running state: fetch the opcode at
/// the program counter, resolve it through the opcode table, and apply the
/// instruction; an opcode with no table entry is an `OpCodeNotFound` fault.
pub open spec fn spec_step(s: State) -> StepOutcome {
    match spec_lookup(s.mem[s.pc as int] as int) {
        Some(instruction) => spec_exec(s, instruction),
        None => StepOutcome::Fault(RunError::OpCodeNotFound),
    }
}

/// The state after `n` steps of the machine, starting from `s`. Each step is
/// deterministic, so the whole trajectory is a function of the start state;
/// once the machine stops running or its step faults, the state stays put.
pub open spec fn spec_run_n(s: State, n: nat) -> State
    decreases n,
{
    if n == 0 {
        s
    } else {
        let prev = spec_run_n(s, (n - 1) as nat);
        if running(prev) {
            match spec_step(prev) {
                StepOutcome::Next(t) => t,
                StepOutcome::Fault(_) => prev,
            }
        } else {
            prev
        }
    }
}

/// Whether `s2` lies on the trajectory of successful steps out of `s1`.
pub open spec fn reachable(s1: State, s2: State) -> bool {
    exists|n: nat| s2 == spec_run_n(s1, n)
}

/// Whether the machine makes `n` successful steps from `s`: at each of the
/// first `n` trajectory states it is still running and its step succeeds,
/// so the trajectory never stalls on a terminal state or a fault within
/// those steps.
pub open spec fn runs_n_steps(s: State, n: nat) -> bool
    decreases n,
{
    if n == 0 {
        true
    } else {
        let prev = spec_run_n(s, (n - 1) as nat);
        &&& runs_n_steps(s, (n - 1) as nat)
        &&& running(prev)
        &&& spec_step(prev) is Next
    }
}

/// The state of a freshly built CPU with `cells` cells of memory: everything
/// zeroed, the flag clear, and the stack pointer seeded to the last cell.
pub open spec fn spec_initial(cells: nat) -> State {
    State {
        pc: 0,
        sp: (cells - 1) as nat,
        a: 0,
        x: 0,
        y: 0,
        flags: false,
        halted: false,
        mem: Seq::new(cells, |i: int| 0i32),
    }
}

/// The machine: a register file, condition and halt flags, the two memory
/// pointers, the memory itself, and the opcode table that resolves fetches.
/// The fields are open for inspection; `state_wf` of the view is the caller's
/// obligation on entry to `execute` and `run`, and both preserve it.
pub struct Cpu {
    pub program_counter: usize,
    pub stack_pointer: usize,
    pub register_a: i32,
    pub register_x: i32,
    pub register_y: i32,
    pub flags: bool,
    pub memory: Vec<i32>,
    pub halted: bool,
    pub cpu_instruction_set: MOS6502CpuInstructionSet,
}

impl View for Cpu {
    type V = State;

    open spec fn view(&self) -> State {
        State {
            pc: self.program_counter as nat,
            sp: self.stack_pointer as nat,
            a: self.register_a,
            x: self.register_x,
            y: self.register_y,
            flags: self.flags,
            halted: self.halted,
            mem: self.memory@,
        }
    }
}

impl Cpu {
    /// Build a CPU with the given number of memory cells, all zeroed, with
    /// the stack pointer at the last cell.
    pub fn with_memory_size(cells: usize) -> (cpu: Cpu)
        requires
            1 <= cells <= MEM_LIMIT,
        ensures
            cpu@ == spec_initial(cells as nat),
            state_wf(cpu@),
    {
        let mut memory: Vec<i32> = Vec::new();
        let mut i: usize = 0;
        while i < cells
            invariant
                i <= cells,
                memory@.len() == i,
                forall|j: int| 0 <= j < i ==> memory@[j] == 0i32,
            decreases cells - i,
        {
            memory.push(0);
            i = i + 1;
        }
        let cpu = Cpu {
            program_counter: 0,
            stack_pointer: cells - 1,
            register_a: 0,
            register_x: 0,
            register_y: 0,
            flags: false,
            memory,
            halted: false,
            cpu_instruction_set: MOS6502CpuInstructionSet {},
        };
        proof {
            assert(cpu@.mem =~= spec_initial(cells as nat).mem);
            assert(cpu@ =~= spec_initial(cells as nat));
        }
        cpu
    }

    /// Build a CPU with the default 512 cells of memory.
    pub fn new() -> (cpu: Cpu)
        ensures
            cpu@ == spec_initial(512),
            state_wf(cpu@),
    {
        Cpu::with_memory_size(512)
    }

    /// Set the halt flag, so that the run loop stops before the next fetch.
    fn halt(&mut self)
        ensures
            final(self)@ == (State { halted: true, ..old(self)@ }),
    {
        self.halted = true;
    }

    /// Move the program counter to the next cell.
    fn advance(&mut self)
        requires
            old(self)@.pc < usize::MAX,
        ensures
            final(self)@ == (State { pc: (old(self)@.pc + 1) as nat, ..old(self)@ }),
    {
        self.program_counter = self.program_counter + 1;
    }

    /// Read the cell at the program counter.
    fn current(&self) -> (r: i32)
        requires
            self@.pc < self@.mem.len(),
        ensures
            r == self@.mem[self@.pc as int],
    {
        self.memory[self.program_counter]
    }

    /// Copy a program into the start of memory. A program longer than memory
    /// is refused whole: the error comes back and nothing changes.
    pub fn load_program(&mut self, program: &[i32]) -> (r: Result<(), CpuError>)
        ensures
            program@.len() > old(self)@.mem.len() ==> r == Err::<(), CpuError>(
                CpuError::ProgramExceedsMemory,
            ) && final(self)@ == old(self)@,
            program@.len() <= old(self)@.mem.len() ==> r == Ok::<(), CpuError>(()) && final(self)@ == (State {
                mem: program@ + old(self)@.mem.skip(program@.len() as int),
                ..old(self)@
            }),
    {
        if program.len() > self.memory.len() {
            return Err(CpuError::ProgramExceedsMemory);
        }
        let mut i: usize = 0;
        while i < program.len()
            invariant
                i <= program@.len(),
                program@.len() <= self.memory@.len(),
                self.memory@.len() == old(self)@.mem.len(),
                forall|j: int| 0 <= j < i ==> self.memory@[j] == program@[j],
                forall|j: int| i <= j < self.memory@.len() ==> self.memory@[j] == old(self)@.mem[j],
                self.program_counter == old(self).program_counter,
                self.stack_pointer == old(self).stack_pointer,
                self.register_a == old(self).register_a,
                self.register_x == old(self).register_x,
                self.register_y == old(self).register_y,
                self.flags == old(self).flags,
                self.halted == old(self).halted,
            decreases program@.len() - i,
        {
            let v = program[i];
            self.memory.set(i, v);
            i = i + 1;
        }
        proof {
            assert(self@.mem =~= program@ + old(self)@.mem.skip(program@.len() as int));
        }
        Ok(())
    }

    /// Apply one resolved instruction to the machine. The outcome and the new
    /// state are exactly those of the step model; a fault leaves every part
    /// of the state as it was.
    pub fn execute(&mut self, instruction: Instruction) -> (r: Result<(), RunError>)
        requires
            state_wf(old(self)@),
            running(old(self)@),
        ensures
            state_wf(final(self)@),
            final(self)@.mem.len() == old(self)@.mem.len(),
            (match spec_exec(old(self)@, instruction) {
                StepOutcome::Next(s2) => r == Ok::<(), RunError>(()) && final(self)@ == s2,
                StepOutcome::Fault(e) => r == Err::<(), RunError>(e) && final(self)@ == old(self)@,
            }),
    {
        match instruction {
            Instruction::Brk => {
                self.halt();
                self.advance();
                Ok(())
            },
            Instruction::Lda => {
                if self.program_counter + 1 < self.memory.len() {
                    self.advance();
                    let v = self.current();
                    self.register_a = v;
                    self.advance();
                    Ok(())
                } else {
                    Err(RunError::MemoryAccessOutOfRange)
                }
            },
            Instruction::Adc => {
                if self.program_counter + 1 < self.memory.len() {
                    self.advance();
                    let v = self.current();
                    self.register_a = self.register_a.wrapping_add(v);
                    self.advance();
                    Ok(())
                } else {
                    Err(RunError::MemoryAccessOutOfRange)
                }
            },
            Instruction::Sta => {
                let pc = self.program_counter;
                if pc + 1 < self.memory.len() {
                    let addr = self.memory[pc + 1];
                    if addr >= 0 && (addr as usize) < self.memory.len() {
                        let value = self.register_a;
                        self.memory.set(addr as usize, value);
                        self.program_counter = pc + 2;
                        Ok(())
                    } else {
                        Err(RunError::MemoryAccessOutOfRange)
                    }
                } else {
                    Err(RunError::MemoryAccessOutOfRange)
                }
            },
            Instruction::Ldx => {
                if self.program_counter + 1 < self.memory.len() {
                    self.advance();
                    let v = self.current();
                    self.register_x = v;
                    self.advance();
                    Ok(())
                } else {
                    Err(RunError::MemoryAccessOutOfRange)
                }
            },
            Instruction::Inx => {
                self.register_x = self.register_x.wrapping_add(1);
                self.advance();
                Ok(())
            },
            Instruction::Cmy => {
                if self.program_counter + 1 < self.memory.len() {
                    self.advance();
                    let v = self.current();
                    self.flags = v == self.register_y;
                    self.advance();
                    Ok(())
                } else {
                    Err(RunError::MemoryAccessOutOfRange)
                }
            },
            Instruction::Bne => {
                let pc = self.program_counter;
                if pc + 1 < self.memory.len() {
                    if self.flags {
                        self.program_counter = pc + 2;
                        Ok(())
                    } else {
                        let offset = self.memory[pc + 1];
                        let target = pc as i64 + 1 + offset as i64;
                        if target >= 0 {
                            self.program_counter = target as usize;
                            Ok(())
                        } else {
                            Err(RunError::MemoryAccessOutOfRange)
                        }
                    }
                } else {
                    Err(RunError::MemoryAccessOutOfRange)
                }
            },
            Instruction::StaX => {
                let x = self.register_x;
                if x >= 0 && (x as usize) < self.memory.len() {
                    let value = self.register_a;
                    self.memory.set(x as usize, value);
                    self.advance();
                    Ok(())
                } else {
                    Err(RunError::MemoryAccessOutOfRange)
                }
            },
            Instruction::Dey => {
                self.register_y = self.register_y.wrapping_sub(1);
                self.advance();
                Ok(())
            },
            Instruction::Ldy => {
                if self.program_counter + 1 < self.memory.len() {
                    self.advance();
                    let v = self.current();
                    self.register_y = v;
                    self.advance();
                    Ok(())
                } else {
                    Err(RunError::MemoryAccessOutOfRange)
                }
            },
            Instruction::Jsr => {
                let pc = self.program_counter;
                if pc + 1 < self.memory.len() && self.stack_pointer >= 1 {
                    let operand = self.memory[pc + 1];
                    let sp = self.stack_pointer;
                    let ret = (pc + 2) as i32;
                    self.memory.set(sp, ret);
                    self.stack_pointer = sp - 1;
                    self.program_counter = if operand >= 0 {
                        operand as usize
                    } else {
                        0
                    };
                    Ok(())
                } else {
                    Err(RunError::MemoryAccessOutOfRange)
                }
            },
            Instruction::Rts => {
                let sp = self.stack_pointer;
                if sp + 1 < self.memory.len() {
                    let ra = self.memory[sp + 1];
                    if ra >= 0 {
                        self.stack_pointer = sp + 1;
                        self.program_counter = ra as usize;
                        Ok(())
                    } else {
                        Err(RunError::MemoryAccessOutOfRange)
                    }
                } else {
                    Err(RunError::MemoryAccessOutOfRange)
                }
            },
        }
    }


    /// Drive the fetch-decode-execute loop until the machine halts, the
    /// program counter leaves memory, a step faults, or the instruction-count
    /// ceiling is reached. On success the final state is terminal; on a fault
    /// the state is exactly the one whose step faulted, reached by successful
    /// steps and not corrupted further; at the ceiling every one of the
    /// `STEP_LIMIT` steps succeeded and the final state is exactly the one
    /// they reach, still running. Since each step is deterministic, each of
    /// the three outcomes pins the final state completely, and no outcome
    /// can stand in for another.
    pub fn run(&mut self) -> (r: Result<(), RunError>)
        requires
            state_wf(old(self)@),
        ensures
            state_wf(final(self)@),
            final(self)@.mem.len() == old(self)@.mem.len(),
            reachable(old(self)@, final(self)@),
            (match r {
                Ok(()) => !running(final(self)@),
                Err(RunError::StepLimitReached) => running(final(self)@) && runs_n_steps(
                    old(self)@,
                    STEP_LIMIT as nat,
                ) && final(self)@ == spec_run_n(old(self)@, STEP_LIMIT as nat),
                Err(e) => running(final(self)@) && spec_step(final(self)@) == StepOutcome::Fault(e),
            }),
    {
        let ghost start = self@;
        let mut steps_left: u64 = STEP_LIMIT;
        while steps_left > 0 && !self.halted && self.program_counter < self.memory.len()
            invariant
                state_wf(self@),
                self@.mem.len() == start.mem.len(),
                steps_left <= STEP_LIMIT,
                self@ == spec_run_n(start, (STEP_LIMIT - steps_left) as nat),
                runs_n_steps(start, (STEP_LIMIT - steps_left) as nat),
                start == old(self)@,
            decreases steps_left,
        {
            let ghost n = (STEP_LIMIT - steps_left) as nat;
            let op_code = self.current();
            let instruction = match self.cpu_instruction_set.lookup_op_code(op_code) {
                Ok(instruction) => instruction,
                Err(LookupError::OpCodeNotFound) => {
                    proof {
                        assert(reachable(start, self@));
                    }
                    return Err(RunError::OpCodeNotFound);
                },
            };
            let ghost pre = self@;
            match self.execute(instruction) {
                Ok(()) => {
                    proof {
                        assert(spec_step(pre) == StepOutcome::Next(self@));
                        assert(self@ == spec_run_n(start, n + 1));
                        assert(runs_n_steps(start, n + 1));
                    }
                },
                Err(e) => {
                    proof {
                        assert(reachable(start, self@));
                    }
                    return Err(e);
                },
            }
            steps_left = steps_left - 1;
        }
        proof {
            assert(reachable(start, self@));
        }
        if !self.halted && self.program_counter < self.memory.len() {
            return Err(RunError::StepLimitReached);
        }
        Ok(())
    }
}

} // verus!
