//! The instruction set: the closed enumeration of instructions, the numeric
//! opcode table that resolves an opcode to an instruction, and the
//! classification of instructions by operand width.

use vstd::prelude::*;

verus! {

/// One operation of the instruction set, identified by a numeric opcode.
/// Instructions are pure behavior: resolving an opcode yields a variant, and
/// the CPU interprets the variant; no instruction carries state of its own.
#[derive(Clone, Copy, Debug, PartialEq, Eq, Structural)]
pub enum Instruction {
    /// Opcode 0: set the halt flag.
    Brk,
    /// Opcode 1: load the operand into the accumulator.
    Lda,
    /// Opcode 2: add the operand to the accumulator.
    Adc,
    /// Opcode 3: store the accumulator at the address given by the operand.
    Sta,
    /// Opcode 4: load the operand into the X register.
    Ldx,
    /// Opcode 5: increment the X register.
    Inx,
    /// Opcode 6: compare the operand with the Y register.
    Cmy,
    /// Opcode 7: branch by the operand when the comparison flag is clear.
    Bne,
    /// Opcode 8: store the accumulator at the address in the X register.
    StaX,
    /// Opcode 9: decrement the Y register.
    Dey,
    /// Opcode 10: load the operand into the Y register.
    Ldy,
    /// Opcode 11: call the subroutine at the address given by the operand.
    Jsr,
    /// Opcode 12: return from a subroutine.
    Rts,
}

/// Failure of opcode resolution: the opcode has no entry in the table.
#[derive(Clone, Copy, Debug, PartialEq, Eq, Structural)]
pub enum LookupError {
    OpCodeNotFound,
}

/// The opcode table as a function: which instruction, if any, a numeric
/// opcode denotes. The table is total over the integers and closed: exactly
/// the opcodes 0 through 12 resolve.
pub open spec fn spec_lookup(op_code: int) -> Option<Instruction> {
    if op_code == 0 {
        Some(Instruction::Brk)
    } else if op_code == 1 {
        Some(Instruction::Lda)
    } else if op_code == 2 {
        Some(Instruction::Adc)
    } else if op_code == 3 {
        Some(Instruction::Sta)
    } else if op_code == 4 {
        Some(Instruction::Ldx)
    } else if op_code == 5 {
        Some(Instruction::Inx)
    } else if op_code == 6 {
        Some(Instruction::Cmy)
    } else if op_code == 7 {
        Some(Instruction::Bne)
    } else if op_code == 8 {
        Some(Instruction::StaX)
    } else if op_code == 9 {
        Some(Instruction::Dey)
    } else if op_code == 10 {
        Some(Instruction::Ldy)
    } else if op_code == 11 {
        Some(Instruction::Jsr)
    } else if op_code == 12 {
        Some(Instruction::Rts)
    } else {
        None
    }
}

/// How many memory cells an instruction occupies: one for the opcode, plus
/// one for the operand where the instruction consumes one.
pub open spec fn instruction_width(instruction: Instruction) -> nat {
    match instruction {
        Instruction::Brk => 1,
        Instruction::Lda => 2,
        Instruction::Adc => 2,
        Instruction::Sta => 2,
        Instruction::Ldx => 2,
        Instruction::Inx => 1,
        Instruction::Cmy => 2,
        Instruction::Bne => 2,
        Instruction::StaX => 1,
        Instruction::Dey => 1,
        Instruction::Ldy => 2,
        Instruction::Jsr => 2,
        Instruction::Rts => 1,
    }
}

/// Whether the instruction always advances the program counter past its own
/// cells, as opposed to branching, calling or returning.
pub open spec fn is_sequential(instruction: Instruction) -> bool {
    !(instruction is Bne || instruction is Jsr || instruction is Rts)
}

/// The canonical opcode table. Resolution is a capability of this table value
/// rather than of the CPU, so a different table could drive the same machine.
#[derive(Clone, Copy, Debug)]
pub struct MOS6502CpuInstructionSet {}

impl MOS6502CpuInstructionSet {
    /// Resolve a numeric opcode to its instruction, or report that the table
    /// has no entry for it.
    pub fn lookup_op_code(&self, op_code: i32) -> (r: Result<Instruction, LookupError>)
        ensures
            (match spec_lookup(op_code as int) {
                Some(instruction) => r == Ok::<Instruction, LookupError>(instruction),
                None => r == Err::<Instruction, LookupError>(LookupError::OpCodeNotFound),
            }),
    {
        match op_code {
            0 => Ok(Instruction::Brk),
            1 => Ok(Instruction::Lda),
            2 => Ok(Instruction::Adc),
            3 => Ok(Instruction::Sta),
            4 => Ok(Instruction::Ldx),
            5 => Ok(Instruction::Inx),
            6 => Ok(Instruction::Cmy),
            7 => Ok(Instruction::Bne),
            8 => Ok(Instruction::StaX),
            9 => Ok(Instruction::Dey),
            10 => Ok(Instruction::Ldy),
            11 => Ok(Instruction::Jsr),
            12 => Ok(Instruction::Rts),
            _ => Err(LookupError::OpCodeNotFound),
        }
    }
}

} // verus!
