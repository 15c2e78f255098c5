//! Padding a program with `NOP`: instructions that do nothing can be
//! inserted between two instructions without changing what the program
//! computes or prints, as long as no jump is thrown off by the bytes that
//! move.

use vstd::prelude::*;
use crate::alu::branch_taken;
use crate::error::VmError;
use crate::instructions::OP;
use crate::operand::operand_at;
use crate::semantics::{execute, jump_target, run, step, State, Status};

verus! {

/// `count` instructions `NOP` in a row.
pub open spec fn nops(count: nat) -> Seq<u8> {
    Seq::new(count, |i: int| OP::NOP.byte())
}

/// The program `code` with `count` instructions `NOP` inserted at offset `at`.
pub open spec fn padded(code: Seq<u8>, at: nat, count: nat) -> Seq<u8>
    recommends
        at <= code.len(),
{
    code.subrange(0, at as int) + nops(count) + code.subrange(at as int, code.len() as int)
}

/// Where the byte at offset `ip` of a program stands once `count` bytes
/// have been inserted at offset `at`.
pub open spec fn moved(ip: nat, at: nat, count: nat) -> nat {
    if ip < at {
        ip
    } else {
        ip + count
    }
}

/// Whether the state `t` of the padded program answers the state `s` of
/// the unpadded program, one of `len` bytes: the same stack, the same output,
/// and the instruction pointer at the same instruction, or in the inserted
/// `NOP`s on its way to the instruction behind them, or beyond the end as
/// that of `s` is.
pub open spec fn answers(s: State, t: State, len: nat, at: nat, count: nat) -> bool {
    &&& t.stack == s.stack
    &&& t.output == s.output
    &&& (t.ip == moved(s.ip, at, count) || (s.ip == at && at <= t.ip <= at + count) || (s.ip
        >= len && t.ip >= len + count))
}

/// Whether the instruction `op`, carried out in the state `s`, continues
/// at the address in its operand.
pub open spec fn jumps(op: OP, s: State) -> bool {
    op == OP::JMP || (op.is_branch() && s.stack.len() > 0 && branch_taken(op, s.stack.last()))
}

/// Whether the step from the state `s` is untroubled by an insertion of
/// `count` bytes at offset `at`: the instruction does not reach across
/// `at`, and if it jumps, then not to an address behind `at` that the
/// insertion would move away or bring into the program.
pub open spec fn step_is_clear(code: Seq<u8>, s: State, at: nat, count: nat) -> bool {
    match OP::of_byte(code[s.ip as int]) {
        None => true,
        Some(op) => {
            &&& op.has_operand() && s.ip < at ==> s.ip + 9 <= at
            &&& jumps(op, s) ==> (operand_at(code, s.ip as int + 1) matches Some(addr)
                ==> jump_target(addr) <= at || jump_target(addr) >= code.len() + count)
        },
    }
}

/// Whether every step of the run of at most `fuel` steps from `s` is
/// untroubled by an insertion of `count` bytes at offset `at`.
pub open spec fn run_is_clear(code: Seq<u8>, s: State, fuel: nat, at: nat, count: nat) -> bool
    decreases fuel,
{
    if s.status(code) == Status::Halted || fuel == 0 {
        true
    } else {
        step_is_clear(code, s, at, count) && match step(code, s) {
            Err(_) => true,
            Ok(next) => run_is_clear(code, next, (fuel - 1) as nat, at, count),
        }
    }
}

/// Whether the instructions that follow one another from offset `from` hold
/// no jump and do not reach across offset `at`: whether `code` is
/// straight-line code from there, with `at` between two of its
/// instructions or behind the last of them.
pub open spec fn is_straight(code: Seq<u8>, from: nat, at: nat) -> bool
    decreases code.len() + 9 - from,
{
    if from >= code.len() {
        true
    } else {
        match OP::of_byte(code[from as int]) {
            None => true,
            Some(op) => {
                &&& op != OP::JMP && !op.is_branch()
                &&& op.has_operand() && from < at ==> from + 9 <= at
                &&& is_straight(code, from + op.size(), at)
            },
        }
    }
}

/// Whether two runs end alike: for the same reason, with the same stack
/// and the same output.
pub open spec fn end_alike(
    one: (State, Result<Status, VmError>),
    other: (State, Result<Status, VmError>),
) -> bool {
    &&& one.1 == other.1
    &&& one.0.stack == other.0.stack
    &&& one.0.output == other.0.output
}

/// The padded program holds the unpadded one's bytes, each at its moved
/// offset, and `NOP` in between.
proof fn padded_bytes(code: Seq<u8>, at: nat, count: nat)
    requires
        at <= code.len(),
    ensures
        padded(code, at, count).len() == code.len() + count,
        forall|i: int|
            0 <= i < code.len() ==> #[trigger] padded(code, at, count)[moved(
                i as nat,
                at,
                count,
            ) as int] == code[i],
        forall|i: int| at <= i < at + count ==> #[trigger] padded(code, at, count)[i] == 0,
{
}

/// An operand that does not reach across the insertion is read back from
/// its moved offset.
proof fn padded_operand(code: Seq<u8>, at: nat, count: nat, from: nat)
    requires
        at <= code.len(),
        from >= at || from + 8 <= at,
    ensures
        operand_at(padded(code, at, count), moved(from, at, count) as int) == operand_at(
            code,
            from as int,
        ),
{
    if from + 8 <= code.len() {
        let to = moved(from, at, count) as int;
        assert(padded(code, at, count).subrange(to, to + 8) =~= code.subrange(
            from as int,
            from as int + 8,
        ));
    }
}

/// Through the inserted `NOP`s the padded program slides to the
/// instruction behind them, one step for each, and changes nothing else.
proof fn slide(code: Seq<u8>, t: State, at: nat, count: nat, more: nat)
    requires
        at <= code.len(),
        at <= t.ip <= at + count,
    ensures
        run(padded(code, at, count), t, (at + count - t.ip + more) as nat) == run(
            padded(code, at, count),
            t.at(at + count),
            more,
        ),
    decreases at + count - t.ip,
{
    padded_bytes(code, at, count);
    if t.ip < at + count {
        let next = t.at(t.ip + 1);
        assert(padded(code, at, count)[t.ip as int] == 0);
        assert(step(padded(code, at, count), t) == Ok::<State, VmError>(next));
        slide(code, next, at, count, more);
        assert(next.at(at + count) == t.at(at + count));
    } else {
        assert(t.at(at + count) == t);
    }
}

/// A step that is clear of the insertion is the same step in the padded
/// program: it fails alike, or leads to a state that answers.
proof fn same_step(code: Seq<u8>, s: State, at: nat, count: nat)
    requires
        at <= code.len(),
        s.ip < code.len(),
        step_is_clear(code, s, at, count),
    ensures
        match step(code, s) {
            Err(fault) => step(padded(code, at, count), s.at(moved(s.ip, at, count))) == Err::<
                State,
                VmError,
            >(fault),
            Ok(next) => step(padded(code, at, count), s.at(moved(s.ip, at, count))) matches Ok(
                reached,
            ) && answers(next, reached, code.len(), at, count),
        },
{
    let long = padded(code, at, count);
    let t = s.at(moved(s.ip, at, count));
    padded_bytes(code, at, count);
    assert(long[t.ip as int] == code[s.ip as int]);
    match OP::of_byte(code[s.ip as int]) {
        None => {},
        Some(op) => {
            if op.has_operand() {
                padded_operand(code, at, count, s.ip + 1);
                assert(operand_at(long, t.ip as int + 1) == operand_at(code, s.ip as int + 1));
            }
            assert(step(code, s) == execute(code, s, op));
            assert(step(long, t) == execute(long, t, op));
        },
    }
}

/// The run of the padded program from a state that answers `s`, for a
/// suitable number of steps, ends like the run of the unpadded one from `s`.
proof fn simulate(code: Seq<u8>, s: State, t: State, fuel: nat, at: nat, count: nat) -> (steps:
    nat)
    requires
        at <= code.len(),
        answers(s, t, code.len(), at, count),
        run_is_clear(code, s, fuel, at, count),
    ensures
        end_alike(run(code, s, fuel), run(padded(code, at, count), t, steps)),
    decreases fuel,
{
    let long = padded(code, at, count);
    padded_bytes(code, at, count);
    let exact = s.at(moved(s.ip, at, count));
    let sled: nat = if t.ip == moved(s.ip, at, count) {
        0
    } else {
        (at + count - t.ip) as nat
    };
    assert(t.at(moved(s.ip, at, count)) == exact);
    if s.status(code) == Status::Halted {
        if t.ip >= code.len() + count {
            0
        } else {
            slide(code, t, at, count, 0);
            sled
        }
    } else if fuel == 0 {
        0
    } else {
        same_step(code, s, at, count);
        match step(code, s) {
            Err(fault) => {
                if t.ip != moved(s.ip, at, count) {
                    slide(code, t, at, count, 1);
                }
                assert(run(long, exact, 1) == (exact, Err::<Status, VmError>(fault)));
                sled + 1
            },
            Ok(next) => {
                let reached = step(long, exact).unwrap();
                let rest = simulate(code, next, reached, (fuel - 1) as nat, at, count);
                if t.ip != moved(s.ip, at, count) {
                    slide(code, t, at, count, 1 + rest);
                }
                assert(run(long, exact, 1 + rest) == run(long, reached, rest));
                sled + 1 + rest
            },
        }
    }
}

/// Inserting any number of `NOP`s between two instructions changes
/// neither the final stack nor the output, only the instruction pointer
/// and the number of steps.
///
/// `code` is run for at most `fuel` steps from a state `s` in front of the
/// offset `at`, where `count` instructions `NOP` are inserted. If every
/// step of that run is clear of the insertion (no instruction carried out
/// reaches across `at`, no jump taken leads behind `at`), then the padded
/// program, run from `s` for the number of steps that this proof returns,
/// ends for the same reason with the same stack and the same output.
pub proof fn nops_change_only_the_pointer(
    code: Seq<u8>,
    s: State,
    fuel: nat,
    at: nat,
    count: nat,
) -> (steps: nat)
    requires
        at <= code.len(),
        s.ip <= at,
        run_is_clear(code, s, fuel, at, count),
    ensures
        end_alike(run(code, s, fuel), run(padded(code, at, count), s, steps)),
{
    simulate(code, s, s, fuel, at, count)
}

/// Every run of straight-line code is clear of an insertion between two
/// of its instructions.
pub proof fn straight_code_runs_clear(code: Seq<u8>, s: State, fuel: nat, at: nat, count: nat)
    requires
        is_straight(code, s.ip, at),
    ensures
        run_is_clear(code, s, fuel, at, count),
    decreases fuel,
{
    if s.status(code) == Status::Running && fuel > 0 {
        match step(code, s) {
            Err(_) => {},
            Ok(next) => {
                let op = OP::of_byte(code[s.ip as int]).unwrap();
                assert(next.ip == s.ip + op.size());
                straight_code_runs_clear(code, next, (fuel - 1) as nat, at, count);
            },
        }
    }
}

/// In straight-line code, any number of `NOP`s inserted between two
/// instructions changes neither the final stack nor the output: the padded
/// program, run for the number of steps that this proof returns, ends
/// like the unpadded run of at most `fuel` steps.
pub proof fn nops_in_straight_code(code: Seq<u8>, s: State, fuel: nat, at: nat, count: nat) -> (steps:
    nat)
    requires
        at <= code.len(),
        s.ip <= at,
        is_straight(code, s.ip, at),
    ensures
        end_alike(run(code, s, fuel), run(padded(code, at, count), s, steps)),
{
    straight_code_runs_clear(code, s, fuel, at, count);
    nops_change_only_the_pointer(code, s, fuel, at, count)
}

} // verus!
