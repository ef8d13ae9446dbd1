//! An instruction-level simulator for the RV32I base integer instruction set:
//! a decoder from instruction words to operands, and an execution engine that
//! applies an operand to a register file and a flat little-endian memory.

pub mod bits;
pub mod decode;
pub mod execute;
pub mod loader;
pub mod memory;
pub mod regfile;

pub use decode::{decode, DecodeError, InstrKind, Operand};
pub use execute::{execute, ExecuteError, Signal};
pub use loader::{load_elf, place_sections, LoadError, Section};
pub use regfile::Regfile;
