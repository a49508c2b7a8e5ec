//! An instruction-set emulator for an 8-bit accumulator-based CPU.
//!
//! The crate is split into three layers:
//! - [`opcodes`]: the instruction table, mapping raw opcode bytes to typed
//!   descriptors (mnemonic, addressing mode, byte length, cycle count);
//! - [`machine`]: the mathematical model of the processor — an abstract
//!   machine state, the semantics of each instruction, and the single-step
//!   transition function that the executable code is proved against;
//! - [`cpu`]: the executable emulator itself, whose public operations carry
//!   contracts stated over the abstract machine.

pub mod cpu;
pub mod machine;
pub mod opcodes;
