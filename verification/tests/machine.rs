use cpu_dojo::cpu::Cpu;
use cpu_dojo::cpu::CpuError;
use cpu_dojo::cpu::RunError;

#[test]
fn brk_halts_immediately() {
    let mut cpu = Cpu::new();
    cpu.load_program(&[0]).unwrap();
    cpu.run().unwrap();
    assert!(cpu.halted);
    assert_eq!(1, cpu.program_counter);
    assert_eq!(0, cpu.register_a);
    assert_eq!(0, cpu.register_x);
    assert_eq!(0, cpu.register_y);
    assert!(!cpu.flags);
    assert_eq!(511, cpu.stack_pointer);
    for i in 0..cpu.memory.len() {
        assert_eq!(0, cpu.memory[i]);
    }
}

#[test]
fn load_longer_than_memory_is_refused() {
    let mut cpu = Cpu::new();
    let program = vec![1; 513];
    assert_eq!(Err(CpuError::ProgramExceedsMemory), cpu.load_program(&program));
    for i in 0..cpu.memory.len() {
        assert_eq!(0, cpu.memory[i]);
    }
    assert_eq!(0, cpu.program_counter);
    assert_eq!(511, cpu.stack_pointer);
}

#[test]
fn load_copies_program_to_start_of_memory() {
    let mut cpu = Cpu::new();
    cpu.load_program(&[5, 6, 7]).unwrap();
    assert_eq!(5, cpu.memory[0]);
    assert_eq!(6, cpu.memory[1]);
    assert_eq!(7, cpu.memory[2]);
    for i in 3..cpu.memory.len() {
        assert_eq!(0, cpu.memory[i]);
    }
}

#[test]
fn lda_loads_accumulator() {
    let mut cpu = Cpu::new();
    cpu.load_program(&[1, 42, 0]).unwrap();
    cpu.run().unwrap();
    assert_eq!(42, cpu.register_a);
    assert_eq!(3, cpu.program_counter);
}

#[test]
fn adc_adds_to_accumulator() {
    let mut cpu = Cpu::new();
    cpu.load_program(&[1, 40, 2, 2, 0]).unwrap();
    cpu.run().unwrap();
    assert_eq!(42, cpu.register_a);
    assert_eq!(5, cpu.program_counter);
}

#[test]
fn adc_wraps_on_overflow() {
    let mut cpu = Cpu::new();
    cpu.load_program(&[1, i32::MAX, 2, 1, 0]).unwrap();
    cpu.run().unwrap();
    assert_eq!(i32::MIN, cpu.register_a);
    assert_eq!(5, cpu.program_counter);
}

#[test]
fn ldx_and_inx_drive_the_x_register() {
    let mut cpu = Cpu::new();
    cpu.load_program(&[4, 7, 5, 0]).unwrap();
    cpu.run().unwrap();
    assert_eq!(8, cpu.register_x);
    assert_eq!(4, cpu.program_counter);
}

#[test]
fn ldy_and_dey_drive_the_y_register() {
    let mut cpu = Cpu::new();
    cpu.load_program(&[10, 7, 9, 0]).unwrap();
    cpu.run().unwrap();
    assert_eq!(6, cpu.register_y);
    assert_eq!(4, cpu.program_counter);
}

#[test]
fn sta_stores_accumulator_at_operand_address() {
    let mut cpu = Cpu::new();
    cpu.load_program(&[1, 9, 3, 20, 0]).unwrap();
    cpu.run().unwrap();
    assert_eq!(9, cpu.memory[20]);
    assert_eq!(5, cpu.program_counter);
}

#[test]
fn sta_x_stores_accumulator_at_x_address() {
    let mut cpu = Cpu::new();
    cpu.load_program(&[1, 9, 4, 30, 8, 0]).unwrap();
    cpu.run().unwrap();
    assert_eq!(9, cpu.memory[30]);
    assert_eq!(6, cpu.program_counter);
}

#[test]
fn cmy_sets_flags_on_equality() {
    let mut cpu = Cpu::new();
    cpu.load_program(&[10, 5, 6, 5, 0]).unwrap();
    cpu.run().unwrap();
    assert!(cpu.flags);
}

#[test]
fn cmy_clears_flags_on_inequality() {
    let mut cpu = Cpu::new();
    cpu.load_program(&[10, 5, 6, 4, 0]).unwrap();
    cpu.run().unwrap();
    assert!(!cpu.flags);
}

#[test]
fn bne_with_flags_clear_jumps_by_relative_operand() {
    // CMY 1 leaves flags clear (Y is 0), so BNE at cell 2 jumps to
    // 2 + 1 + 3 = 6 and the LDA there runs instead of the BRK at cell 4.
    let mut cpu = Cpu::new();
    cpu.load_program(&[6, 1, 7, 3, 0, 0, 1, 99, 0]).unwrap();
    cpu.run().unwrap();
    assert_eq!(99, cpu.register_a);
    assert_eq!(9, cpu.program_counter);
}

#[test]
fn bne_with_flags_set_falls_through() {
    // CMY 0 sets flags (Y is 0), so BNE falls through to the BRK at cell 4.
    let mut cpu = Cpu::new();
    cpu.load_program(&[6, 0, 7, 3, 0, 0, 1, 99, 0]).unwrap();
    cpu.run().unwrap();
    assert_eq!(0, cpu.register_a);
    assert_eq!(5, cpu.program_counter);
}

#[test]
fn jsr_and_rts_restore_the_stack_pointer() {
    let mut cpu = Cpu::new();
    cpu.load_program(&[11, 3, 0, 1, 7, 12]).unwrap();
    cpu.run().unwrap();
    assert_eq!(7, cpu.register_a);
    assert_eq!(3, cpu.program_counter);
    assert_eq!(511, cpu.stack_pointer);
    assert_eq!(2, cpu.memory[511]);
}

#[test]
fn unknown_opcode_fails_the_run() {
    let mut cpu = Cpu::new();
    cpu.load_program(&[99]).unwrap();
    assert_eq!(Err(RunError::OpCodeNotFound), cpu.run());
    assert_eq!(0, cpu.program_counter);
    assert!(!cpu.halted);
    assert_eq!(0, cpu.register_a);
}

#[test]
fn sta_outside_memory_fails_the_run() {
    let mut cpu = Cpu::new();
    cpu.load_program(&[1, 9, 3, 600, 0]).unwrap();
    assert_eq!(Err(RunError::MemoryAccessOutOfRange), cpu.run());
    assert_eq!(2, cpu.program_counter);
    assert_eq!(9, cpu.register_a);
}

#[test]
fn sta_to_negative_address_fails_the_run() {
    let mut cpu = Cpu::new();
    cpu.load_program(&[3, -1, 0]).unwrap();
    assert_eq!(Err(RunError::MemoryAccessOutOfRange), cpu.run());
    assert_eq!(0, cpu.program_counter);
}

#[test]
fn rts_with_empty_stack_fails_the_run() {
    let mut cpu = Cpu::new();
    cpu.load_program(&[12]).unwrap();
    assert_eq!(Err(RunError::MemoryAccessOutOfRange), cpu.run());
    assert_eq!(0, cpu.program_counter);
    assert_eq!(511, cpu.stack_pointer);
}

#[test]
fn rts_with_negative_return_address_fails_the_run() {
    // JSR 4 pushes the return address 2 at cell 511; the subroutine then
    // overwrites that stack cell with -5 before returning, so the RTS faults.
    let mut cpu = Cpu::new();
    cpu.load_program(&[11, 4, 0, 0, 1, -5, 3, 511, 12]).unwrap();
    assert_eq!(Err(RunError::MemoryAccessOutOfRange), cpu.run());
    assert_eq!(8, cpu.program_counter);
    assert_eq!(510, cpu.stack_pointer);
    assert_eq!(-5, cpu.memory[511]);
}

#[test]
fn operand_past_end_of_memory_fails_the_run() {
    let mut cpu = Cpu::with_memory_size(1);
    cpu.load_program(&[1]).unwrap();
    assert_eq!(Err(RunError::MemoryAccessOutOfRange), cpu.run());
    assert_eq!(0, cpu.program_counter);
}

#[test]
fn jsr_exhausting_the_stack_fails_the_run() {
    // JSR 0 calls itself forever; every call pushes one return address, so
    // the stack pointer walks down to zero and the next call faults.
    let mut cpu = Cpu::new();
    cpu.load_program(&[11, 0]).unwrap();
    assert_eq!(Err(RunError::MemoryAccessOutOfRange), cpu.run());
    assert_eq!(0, cpu.stack_pointer);
    assert_eq!(0, cpu.program_counter);
}

#[test]
fn endless_branch_hits_the_step_limit() {
    // BNE -1 with flags clear branches to its own cell forever.
    let mut cpu = Cpu::new();
    cpu.load_program(&[7, -1]).unwrap();
    assert_eq!(Err(RunError::StepLimitReached), cpu.run());
    assert_eq!(0, cpu.program_counter);
    assert!(!cpu.halted);
}

#[test]
fn custom_memory_size_runs_the_arithmetic_program() {
    let mut cpu = Cpu::with_memory_size(16);
    cpu.load_program(&[1, 100, 2, 7, 3, 15, 0]).unwrap();
    cpu.run().unwrap();
    assert_eq!(107, cpu.memory[15]);
    assert_eq!(7, cpu.program_counter);
}
