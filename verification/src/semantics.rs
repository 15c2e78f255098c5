//! The machine as a mathematical object: its state, and what one instruction
//! and a whole run make of it.

use vstd::prelude::*;
use crate::alu::{binary_result, branch_taken, shift_result, unary_result};
use crate::error::VmError;
use crate::instructions::OP;
use crate::operand::operand_at;
use crate::output::Output;

verus! {

/// Whether the machine can go on.
#[derive(Clone, Copy, Debug, PartialEq, Eq, Structural)]
pub enum Status {
    /// The instruction pointer lies within the program.
    Running,
    /// The instruction pointer has left the program: nothing more will happen.
    Halted,
}

/// All that changes while a program runs.
pub struct State {
    /// The offset of the next opcode.
    pub ip: nat,
    /// The operand stack, the top at the end.
    pub stack: Seq<i64>,
    /// What has been printed so far, the oldest item first.
    pub output: Seq<Output>,
}

impl State {
    /// The state in which every run starts: at offset 0, with an empty
    /// stack and nothing printed.
    pub open spec fn initial() -> State {
        State { ip: 0, stack: Seq::empty(), output: Seq::empty() }
    }

    /// Where a machine in this state stands on the program `code`.
    pub open spec fn status(self, code: Seq<u8>) -> Status {
        if self.ip < code.len() {
            Status::Running
        } else {
            Status::Halted
        }
    }

    /// This state, moved on to the offset `ip`.
    pub open spec fn at(self, ip: nat) -> State {
        State { ip, ..self }
    }

    /// This state with another stack.
    pub open spec fn with_stack(self, stack: Seq<i64>) -> State {
        State { stack, ..self }
    }

    /// This state after `item` was printed.
    pub open spec fn printed(self, item: Output) -> State {
        State { output: self.output.push(item), ..self }
    }
}

/// The offset at which a jump with the operand `addr` continues: `addr`
/// itself, read as an unsigned 64-bit number. No address is refused; one
/// beyond the program halts the machine.
pub open spec fn jump_target(addr: i64) -> nat {
    if addr >= 0 {
        addr as nat
    } else {
        (addr + 0x1_0000_0000_0000_0000) as nat
    }
}

/// What the instruction `op`, found at `s.ip`, makes of the state `s`.
///
/// An instruction that fails changes nothing. One that needs both an
/// operand and a value on the stack reports the missing operand first if it
/// shifts, the missing value first if it jumps.
pub open spec fn execute(code: Seq<u8>, s: State, op: OP) -> Result<State, VmError> {
    let depth = s.stack.len() as int;
    let operand = operand_at(code, s.ip as int + 1);
    match op {
        OP::NOP => Ok(s.at(s.ip + 1)),
        OP::PUSH => match operand {
            None => Err(VmError::TruncatedOperand),
            Some(value) => Ok(s.with_stack(s.stack.push(value)).at(s.ip + 9)),
        },
        OP::DUP => if depth < 1 {
            Err(VmError::EmptyStack)
        } else {
            Ok(s.with_stack(s.stack.push(s.stack.last())).at(s.ip + 1))
        },
        OP::POP => if depth < 1 {
            Err(VmError::EmptyStack)
        } else {
            Ok(s.with_stack(s.stack.drop_last()).at(s.ip + 1))
        },
        OP::JMP => match operand {
            None => Err(VmError::TruncatedOperand),
            Some(addr) => Ok(s.at(jump_target(addr))),
        },
        OP::JE | OP::JNE | OP::JL | OP::JLE | OP::JG | OP::JGE => if depth < 1 {
            Err(VmError::EmptyStack)
        } else {
            match operand {
                None => Err(VmError::TruncatedOperand),
                Some(addr) => if branch_taken(op, s.stack.last()) {
                    Ok(s.at(jump_target(addr)))
                } else {
                    Ok(s.at(s.ip + 9))
                },
            }
        },
        OP::NOT | OP::NEG | OP::ROL | OP::ROR | OP::INC | OP::DEC => if depth < 1 {
            Err(VmError::EmptyStack)
        } else {
            Ok(
                s.with_stack(s.stack.update(depth - 1, unary_result(op, s.stack.last()))).at(
                    s.ip + 1,
                ),
            )
        },
        OP::SHL | OP::SHR => match operand {
            None => Err(VmError::TruncatedOperand),
            Some(dist) => if depth < 1 {
                Err(VmError::EmptyStack)
            } else {
                Ok(
                    s.with_stack(
                        s.stack.update(depth - 1, shift_result(op, s.stack.last(), dist)),
                    ).at(s.ip + 9),
                )
            },
        },
        OP::CMP | OP::AND | OP::OR | OP::XOR | OP::ADD | OP::SUB | OP::MUL | OP::DIV => if depth
            < 2 {
            Err(VmError::EmptyStack)
        } else {
            match binary_result(op, s.stack[depth - 1], s.stack[depth - 2]) {
                Err(fault) => Err(fault),
                Ok(value) => Ok(
                    s.with_stack(s.stack.drop_last().drop_last().push(value)).at(s.ip + 1),
                ),
            }
        },
        OP::PRNT => if depth < 1 {
            Ok(s.printed(Output::Placeholder).at(s.ip + 1))
        } else {
            Ok(
                s.printed(Output::Value(s.stack.last())).with_stack(s.stack.drop_last()).at(
                    s.ip + 1,
                ),
            )
        },
    }
}

/// One step of the machine on the program `code`: a halted machine stays as
/// it is; a running one decodes the byte at `s.ip` and carries the
/// instruction out, or fails with `InvalidOpcode` if the byte encodes none.
pub open spec fn step(code: Seq<u8>, s: State) -> Result<State, VmError> {
    if s.status(code) == Status::Halted {
        Ok(s)
    } else {
        match OP::of_byte(code[s.ip as int]) {
            None => Err(VmError::InvalidOpcode),
            Some(op) => execute(code, s, op),
        }
    }
}

/// How a run of at most `fuel` steps from the state `s` ends: the state in
/// which it stops, and why. It stops with `Ok(Halted)` once the machine has
/// halted, with the fault of the first instruction that fails, in the state
/// before that instruction, and with `Ok(Running)` if the steps are used up
/// first.
pub open spec fn run(code: Seq<u8>, s: State, fuel: nat) -> (State, Result<Status, VmError>)
    decreases fuel,
{
    if s.status(code) == Status::Halted {
        (s, Ok(Status::Halted))
    } else if fuel == 0 {
        (s, Ok(Status::Running))
    } else {
        match step(code, s) {
            Err(fault) => (s, Err(fault)),
            Ok(next) => run(code, next, (fuel - 1) as nat),
        }
    }
}

} // verus!
