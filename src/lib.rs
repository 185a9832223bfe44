//! A small stack-based bytecode virtual machine.
//!
//! Programs are flat byte buffers: a one-byte opcode followed by zero, one or
//! eight operand bytes. `FastCursor` decodes them with bounds checks, `VM`
//! executes them against an operand stack and eight local registers, and
//! `semantics` states, as spec functions, what every instruction does.
pub mod canonical;
pub mod encoding;
pub mod error;
pub mod fastcursor;
pub mod laws;
pub mod opcode;
pub mod operand_stack;
pub mod semantics;
pub mod vm;

pub use error::VmError;
pub use fastcursor::FastCursor;
pub use vm::VM;
