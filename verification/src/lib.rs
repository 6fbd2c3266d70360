//! An 8-bit microprocessor interpreter: machine state, opcode dispatch,
//! and a fetch-decode-execute loop with per-instruction semantics.

pub mod byte_string;
pub mod gameboy;
pub mod z80;
