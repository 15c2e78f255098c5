//! The ways in which an instruction can fail.

use vstd::prelude::*;

verus! {

/// Why the machine could not carry out an instruction. Every fault ends the
/// run; the machine is left as it was before the faulting instruction.
#[derive(Clone, Copy, Debug, PartialEq, Eq, Structural)]
pub enum VmError {
    /// The byte at the instruction pointer encodes no instruction.
    InvalidOpcode,
    /// The instruction needs more values than the stack holds.
    EmptyStack,
    /// Fewer than eight bytes follow an opcode that takes an operand.
    TruncatedOperand,
    /// `DIV` found zero on top of the stack.
    DivisionByZero,
}

} // verus!
