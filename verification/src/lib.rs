//! Decode and execute engine for the Intel 8080 instruction set.
//!
//! `instruction` holds the table of opcodes, `flags` the arithmetic of the
//! status flags, `state` the machine state, `executor` the step function,
//! `decoder` the disassembler, and `laws` what holds of every step.

pub mod decoder;
pub mod executor;
pub mod flags;
pub mod instruction;
pub mod laws;
pub mod state;

pub use decoder::{decode_one, disassemble, DecodeError, DisassemblyRecord};
pub use executor::{deliver_interrupt, emulate_8080, emulate_with_ports, Fault, StepOutcome};
pub use flags::{parity, ConditionFlags};
pub use instruction::{lookup, InstructionDescriptor};
pub use state::State8080;
