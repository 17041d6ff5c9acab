//! Emulation core for a 16-bit word-addressed minicomputer: register file,
//! bounds-checked word memory, instruction decoder, execution engine, I/O
//! channel dispatch, and a two-pass assembler for its assembly language.
//!
//! Every executable function carries a contract; the instruction-set
//! semantics are stated as specification functions over an abstract machine
//! model, and the execution engine is proved to implement them.

pub mod assembler;
pub mod cpu;
pub mod devices;
pub mod error;
pub mod instructions;
pub mod text;

pub use cpu::{Cpu, CpuState};
pub use error::{AssemblerError, CpuError, DeviceError, InstructionError};
pub use instructions::{InstructionFormat, InstructionInfo, OpCode};
