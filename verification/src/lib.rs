//! A verified interpreter for a small 8-bit-style CPU: a fixed linear memory
//! of signed cells, an accumulator and two index registers, a comparison flag,
//! a call stack growing down from the top of memory, and a fetch-decode-execute
//! loop over a fixed table of thirteen opcodes.

pub mod cpu;
pub mod isa;
pub mod laws;
