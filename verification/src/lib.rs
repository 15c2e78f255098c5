//! A small stack machine: a flat byte buffer of instructions is executed
//! against an operand stack of signed 64-bit integers.
//!
//! [`VM`] is the machine, [`OP`] its instruction set. What the machine does
//! is laid down in [`semantics`]; the modules [`laws`] and [`padding`] hold
//! what follows from it for whole programs.

pub mod alu;
pub mod error;
pub mod instructions;
pub mod laws;
pub mod operand;
pub mod output;
pub mod padding;
pub mod semantics;
pub mod vm;

pub use crate::error::VmError;
pub use crate::instructions::OP;
pub use crate::output::Output;
pub use crate::semantics::Status;
pub use crate::vm::VM;
