//! The machine itself: a program, an instruction pointer, an operand stack
//! and a record of what was printed.

use vstd::prelude::*;
use crate::alu::{binary, shift, test_branch, unary};
use crate::error::VmError;
use crate::instructions::OP;
use crate::operand::{operand_at, read_operand};
use crate::output::Output;
use crate::semantics;
use crate::semantics::{execute, jump_target, State, Status};

verus! {

/// The number of values for which a new machine's stack has room before it
/// has to grow.
pub const STACK_CAPACITY: usize = 1_000_000;

/// A machine at work on one program. It borrows the program and never
/// changes it.
pub struct VM<'a> {
    bytecode: &'a [u8],
    ip: u64,
    stack: Vec<i64>,
    output: Vec<Output>,
}

impl<'a> View for VM<'a> {
    type V = State;

    closed spec fn view(&self) -> State {
        State { ip: self.ip as nat, stack: self.stack@, output: self.output@ }
    }
}

/// Whether a machine that was in the state `before` has done what `wanted`
/// says: reached the new state and reported success, or reported the fault
/// and stayed as it was.
pub open spec fn carried_out(
    before: State,
    after: State,
    reported: Result<(), VmError>,
    wanted: Result<State, VmError>,
) -> bool {
    match wanted {
        Ok(next) => reported is Ok && after == next,
        Err(fault) => reported == Err::<(), VmError>(fault) && after == before,
    }
}

/// The offset at which a jump with the operand `addr` continues.
fn target(addr: i64) -> (ip: u64)
    ensures
        ip == jump_target(addr),
{
    let ip = #[verifier::truncate] (addr as u64);
    assert(ip == if addr >= 0 { addr as int } else { addr + 0x1_0000_0000_0000_0000 })
        by (bit_vector)
        requires
            ip == addr as u64,
    ;
    ip
}

impl<'a> VM<'a> {
    /// The program that this machine runs.
    pub closed spec fn code(&self) -> Seq<u8> {
        self.bytecode@
    }

    /// No program has more bytes than a `usize` can count.
    pub proof fn code_fits(&self)
        ensures
            self.code().len() <= usize::MAX,
    {
        assert(self.bytecode.len() == self.bytecode@.len());
    }

    /// A machine about to run `code`: at offset 0, with an empty stack and
    /// nothing printed.
    pub fn new(code: &'a [u8]) -> (vm: VM<'a>)
        ensures
            vm.code() == code@,
            vm@ == State::initial(),
    {
        VM { bytecode: code, ip: 0, stack: Vec::with_capacity(STACK_CAPACITY), output: Vec::new() }
    }

    /// Tells whether the machine can go on.
    pub fn status(&self) -> (status: Status)
        ensures
            status == self@.status(self.code()),
    {
        if self.ip < self.bytecode.len() as u64 {
            Status::Running
        } else {
            Status::Halted
        }
    }

    /// Reads the operand of the instruction at the instruction pointer.
    fn operand(&self) -> (r: Result<i64, VmError>)
        requires
            self@.status(self.code()) == Status::Running,
        ensures
            match r {
                Ok(value) => operand_at(self.code(), self@.ip as int + 1) == Some(value),
                Err(fault) => fault == VmError::TruncatedOperand && operand_at(
                    self.code(),
                    self@.ip as int + 1,
                ) is None,
            },
            r is Ok ==> self@.ip + 9 <= self.code().len() <= u64::MAX,
    {
        proof {
            self.code_fits();
        }
        read_operand(self.bytecode, (self.ip + 1) as usize)
    }

    /// Moves the instruction pointer over an instruction without operand.
    fn advance(&mut self)
        requires
            old(self)@.status(old(self).code()) == Status::Running,
        ensures
            final(self).code() == old(self).code(),
            final(self)@ == old(self)@.at(old(self)@.ip + 1),
    {
        proof {
            self.code_fits();
        }
        self.ip = self.ip + 1;
    }

    /// Carries out a conditional jump: looks at the top of the stack, reads
    /// the address, and continues there or behind the operand.
    fn unary_op_with_arg(&mut self, op: OP) -> (r: Result<(), VmError>)
        requires
            old(self)@.status(old(self).code()) == Status::Running,
            op.is_branch(),
        ensures
            final(self).code() == old(self).code(),
            carried_out(old(self)@, final(self)@, r, execute(old(self).code(), old(self)@, op)),
    {
        match self.stack.last() {
            None => Err(VmError::EmptyStack),
            Some(tos) => {
                let taken = test_branch(op, *tos);
                match self.operand() {
                    Err(fault) => Err(fault),
                    Ok(addr) => {
                        if taken {
                            self.ip = target(addr);
                        } else {
                            self.ip = self.ip + 9;
                        }
                        Ok(())
                    },
                }
            },
        }
    }

    /// Rewrites the top of the stack by `NOT`, `NEG`, `ROL`, `ROR`, `INC` or `DEC`.
    fn unary_op_inplace(&mut self, op: OP) -> (r: Result<(), VmError>)
        requires
            old(self)@.status(old(self).code()) == Status::Running,
            op.is_unary(),
        ensures
            final(self).code() == old(self).code(),
            carried_out(old(self)@, final(self)@, r, execute(old(self).code(), old(self)@, op)),
    {
        match self.stack.last_mut() {
            None => {
                assert(self.stack@ =~= old(self).stack@);
                Err(VmError::EmptyStack)
            },
            Some(tos) => {
                *tos = unary(op, *tos);
                self.advance();
                Ok(())
            },
        }
    }

    /// Shifts the top of the stack by the operand of `SHL` or `SHR`.
    fn unary_op_with_arg_inplace(&mut self, op: OP) -> (r: Result<(), VmError>)
        requires
            old(self)@.status(old(self).code()) == Status::Running,
            op.is_shift(),
        ensures
            final(self).code() == old(self).code(),
            carried_out(old(self)@, final(self)@, r, execute(old(self).code(), old(self)@, op)),
    {
        match self.operand() {
            Err(fault) => Err(fault),
            Ok(delta) => {
                match self.stack.last_mut() {
                    None => {
                        assert(self.stack@ =~= old(self).stack@);
                        Err(VmError::EmptyStack)
                    },
                    Some(tos) => {
                        *tos = shift(op, *tos, delta);
                        self.ip = self.ip + 9;
                        Ok(())
                    },
                }
            },
        }
    }

    /// Replaces the two topmost values by what `op` makes of them. Nothing
    /// is taken off the stack unless both are there and `op` succeeds.
    fn binary_op(&mut self, op: OP) -> (r: Result<(), VmError>)
        requires
            old(self)@.status(old(self).code()) == Status::Running,
            op.is_binary(),
        ensures
            final(self).code() == old(self).code(),
            carried_out(old(self)@, final(self)@, r, execute(old(self).code(), old(self)@, op)),
    {
        let depth = self.stack.len();
        if depth < 2 {
            return Err(VmError::EmptyStack);
        }
        let tos = self.stack[depth - 1];
        let tos1 = self.stack[depth - 2];
        match binary(op, tos, tos1) {
            Err(fault) => Err(fault),
            Ok(value) => {
                self.stack.pop();
                self.stack.pop();
                self.stack.push(value);
                self.advance();
                Ok(())
            },
        }
    }

    /// Carries out one instruction.
    ///
    /// A halted machine stays as it is. A running machine decodes the byte
    /// at the instruction pointer and does what that instruction asks:
    /// it changes the stack, prints, and moves the instruction pointer
    /// behind the instruction or to the target of a jump. If the
    /// instruction cannot be carried out, the fault comes back and the
    /// machine is left untouched, the instruction pointer still at the
    /// faulting instruction.
    pub fn step(&mut self) -> (r: Result<(), VmError>)
        ensures
            final(self).code() == old(self).code(),
            carried_out(
                old(self)@,
                final(self)@,
                r,
                semantics::step(old(self).code(), old(self)@),
            ),
    {
        if self.ip >= self.bytecode.len() as u64 {
            return Ok(());
        }
        let byte = self.bytecode[self.ip as usize];
        match OP::from_u8(byte) {
            None => Err(VmError::InvalidOpcode),
            Some(op) => match op {
                OP::NOP => {
                    self.advance();
                    Ok(())
                },
                OP::PUSH => match self.operand() {
                    Err(fault) => Err(fault),
                    Ok(value) => {
                        self.stack.push(value);
                        self.ip = self.ip + 9;
                        Ok(())
                    },
                },
                OP::DUP => match self.stack.last() {
                    None => Err(VmError::EmptyStack),
                    Some(x) => {
                        let x = *x;
                        self.stack.push(x);
                        self.advance();
                        Ok(())
                    },
                },
                OP::POP => match self.stack.pop() {
                    None => Err(VmError::EmptyStack),
                    Some(_) => {
                        self.advance();
                        Ok(())
                    },
                },
                OP::JMP => match self.operand() {
                    Err(fault) => Err(fault),
                    Ok(addr) => {
                        self.ip = target(addr);
                        Ok(())
                    },
                },
                OP::JE | OP::JNE | OP::JL | OP::JLE | OP::JG | OP::JGE => self.unary_op_with_arg(
                    op,
                ),
                OP::NOT | OP::NEG | OP::ROL | OP::ROR | OP::INC | OP::DEC => self.unary_op_inplace(
                    op,
                ),
                OP::SHL | OP::SHR => self.unary_op_with_arg_inplace(op),
                OP::CMP | OP::AND | OP::OR | OP::XOR | OP::ADD | OP::SUB | OP::MUL | OP::DIV => {
                    self.binary_op(op)
                },
                OP::PRNT => {
                    match self.stack.pop() {
                        Some(x) => self.output.push(Output::Value(x)),
                        None => self.output.push(Output::Placeholder),
                    }
                    self.advance();
                    Ok(())
                },
            },
        }
    }

    /// Runs the program to its end.
    ///
    /// The run ends with `Ok(Halted)` as soon as the instruction pointer
    /// has left the program, and with the fault of the first instruction
    /// that fails, the machine being left as it was before that
    /// instruction. A program that has done neither after `u64::MAX`
    /// instructions is given up with `Ok(Running)`.
    pub fn run(&mut self) -> (r: Result<Status, VmError>)
        ensures
            final(self).code() == old(self).code(),
            (final(self)@, r) == semantics::run(old(self).code(), old(self)@, u64::MAX as nat),
    {
        self.run_for(u64::MAX)
    }

    /// Runs the program for at most `max_steps` instructions.
    ///
    /// The run ends as that of [`VM::run`] does, but for the number of
    /// instructions after which it ends with `Ok(Running)`; another call
    /// goes on from there.
    pub fn run_for(&mut self, max_steps: u64) -> (r: Result<Status, VmError>)
        ensures
            final(self).code() == old(self).code(),
            (final(self)@, r) == semantics::run(old(self).code(), old(self)@, max_steps as nat),
    {
        let mut left = max_steps;
        while self.ip < self.bytecode.len() as u64 && left > 0
            invariant
                self.code() == old(self).code(),
                semantics::run(self.code(), self@, left as nat) == semantics::run(
                    old(self).code(),
                    old(self)@,
                    max_steps as nat,
                ),
            decreases left,
        {
            match self.step() {
                Err(fault) => {
                    return Err(fault);
                },
                Ok(()) => {},
            }
            left = left - 1;
        }
        Ok(self.status())
    }

    /// The offset of the next opcode.
    pub fn ip(&self) -> (ip: u64)
        ensures
            ip == self@.ip,
    {
        self.ip
    }

    /// The operand stack, the top at the end.
    pub fn stack(&self) -> (stack: &Vec<i64>)
        ensures
            stack@ == self@.stack,
    {
        &self.stack
    }

    /// What has been printed so far, the oldest item first.
    pub fn output(&self) -> (output: &Vec<Output>)
        ensures
            output@ == self@.output,
    {
        &self.output
    }

    /// Hands over what has been printed so far and starts the record anew.
    pub fn take_output(&mut self) -> (printed: Vec<Output>)
        ensures
            final(self).code() == old(self).code(),
            printed@ == old(self)@.output,
            final(self)@ == (State { output: Seq::empty(), ..old(self)@ }),
    {
        let mut printed = Vec::new();
        std::mem::swap(&mut self.output, &mut printed);
        printed
    }
}

} // verus!
