//! Laws of the machine: what holds of every program of a given shape,
//! proved from the semantics.

use vstd::prelude::*;
use crate::alu::{binary_result, comparison, quotient, wrap};
use crate::error::VmError;
use crate::instructions::OP;
use crate::operand::{operand_at, operand_bytes, operand_round_trip};
use crate::output::{decimal, Output};
use crate::semantics::{execute, jump_target, run, step, State, Status};

verus! {

/// The encoding of an instruction without operand.
pub open spec fn plain(op: OP) -> Seq<u8> {
    seq![op.byte()]
}

/// The encoding of an instruction with the operand `v`.
pub open spec fn with_operand(op: OP, v: i64) -> Seq<u8> {
    seq![op.byte()] + operand_bytes(v)
}

/// The program that pushes `a`, then `b`, and then carries out `op`.
pub open spec fn push_push(a: i64, b: i64, op: OP) -> Seq<u8> {
    with_operand(OP::PUSH, a) + with_operand(OP::PUSH, b) + plain(op)
}

/// An encoded instruction with operand takes nine bytes, and wherever it
/// stands in a program, its opcode and its operand are read back from there.
pub proof fn instruction_is_read_back(code: Seq<u8>, at: int, op: OP, v: i64)
    requires
        0 <= at,
        at + 9 <= code.len(),
        code.subrange(at, at + 9) == with_operand(op, v),
    ensures
        with_operand(op, v).len() == 9,
        OP::of_byte(code[at]) == Some(op),
        operand_at(code, at + 1) == Some(v),
{
    op.byte_round_trip();
    operand_bytes_len(v);
    let whole = code.subrange(at, at + 9);
    assert(code[at] == whole[0]);
    assert(code.subrange(at + 1, at + 9) =~= whole.subrange(1, 9));
    assert(whole.subrange(1, 9) =~= operand_bytes(v));
    operand_round_trip(code, at + 1, v);
}

/// An operand is encoded in eight bytes.
pub proof fn operand_bytes_len(v: i64)
    ensures
        operand_bytes(v).len() == 8,
{
    reveal_with_fuel(crate::operand::le_bytes, 9);
}

/// Pushing a value and printing it prints that value, in decimal, and
/// leaves the stack empty: the program `PUSH v, PRNT` halts after two
/// steps with the one output item `v`.
pub proof fn push_then_print(v: i64, fuel: nat)
    requires
        fuel >= 2,
    ensures
        run(with_operand(OP::PUSH, v) + plain(OP::PRNT), State::initial(), fuel) == (
            State { ip: 10, stack: Seq::empty(), output: seq![Output::Value(v)] },
            Ok::<Status, VmError>(Status::Halted),
        ),
        Output::Value(v).text() == decimal(v as int),
{
    let code = with_operand(OP::PUSH, v) + plain(OP::PRNT);
    operand_bytes_len(v);
    assert(code.subrange(0, 9) =~= with_operand(OP::PUSH, v));
    instruction_is_read_back(code, 0, OP::PUSH, v);
    let s0 = State::initial();
    let s1 = State { ip: 9, stack: seq![v], output: Seq::empty() };
    let s2 = State { ip: 10, stack: Seq::empty(), output: seq![Output::Value(v)] };
    assert(s0.stack.push(v) =~= seq![v]);
    assert(step(code, s0) == Ok::<State, VmError>(s1));
    assert(code[9] == OP::PRNT.byte());
    assert(s1.stack.drop_last() =~= Seq::<i64>::empty());
    assert(s1.output.push(Output::Value(v)) =~= seq![Output::Value(v)]);
    assert(step(code, s1) == Ok::<State, VmError>(s2));
    reveal_with_fuel(run, 3);
}

/// What a two-operand instruction does after two pushes: the program
/// `PUSH a, PUSH b, op` ends with the one value that `op` makes of `b` on
/// top and `a` beneath it; if `op` fails, it ends with that fault in front
/// of `op`, with `a` and `b` still on the stack and nothing pushed.
pub proof fn two_pushes_then(op: OP, a: i64, b: i64, fuel: nat)
    requires
        op.is_binary(),
        fuel >= 3,
    ensures
        run(push_push(a, b, op), State::initial(), fuel) == (match binary_result(op, b, a) {
            Ok(value) => (
                State { ip: 19, stack: seq![value], output: Seq::empty() },
                Ok::<Status, VmError>(Status::Halted),
            ),
            Err(fault) => (
                State { ip: 18, stack: seq![a, b], output: Seq::empty() },
                Err::<Status, VmError>(fault),
            ),
        }),
{
    let code = push_push(a, b, op);
    operand_bytes_len(a);
    operand_bytes_len(b);
    assert(code.subrange(0, 9) =~= with_operand(OP::PUSH, a));
    assert(code.subrange(9, 18) =~= with_operand(OP::PUSH, b));
    instruction_is_read_back(code, 0, OP::PUSH, a);
    instruction_is_read_back(code, 9, OP::PUSH, b);
    op.byte_round_trip();
    assert(code[18] == op.byte());
    let s0 = State::initial();
    let s1 = State { ip: 9, stack: seq![a], output: Seq::empty() };
    let s2 = State { ip: 18, stack: seq![a, b], output: Seq::empty() };
    assert(s0.stack.push(a) =~= seq![a]);
    assert(step(code, s0) == Ok::<State, VmError>(s1));
    assert(s1.stack.push(b) =~= seq![a, b]);
    assert(step(code, s1) == Ok::<State, VmError>(s2));
    assert(step(code, s2) == execute(code, s2, op));
    match binary_result(op, b, a) {
        Ok(value) => {
            let s3 = State { ip: 19, stack: seq![value], output: Seq::empty() };
            assert(s2.stack.drop_last().drop_last().push(value) =~= seq![value]);
            assert(step(code, s2) == Ok::<State, VmError>(s3));
        },
        Err(fault) => {
            assert(step(code, s2) == Err::<State, VmError>(fault));
        },
    }
    reveal_with_fuel(run, 4);
}

/// `CMP` is antisymmetric: pushing `a` then `b` and comparing leaves the
/// negation of what pushing `b` then `a` and comparing leaves, so that -1
/// answers 1 and 0 answers 0.
pub proof fn comparison_is_antisymmetric(a: i64, b: i64, fuel: nat)
    requires
        fuel >= 3,
    ensures
        run(push_push(a, b, OP::CMP), State::initial(), fuel).0.stack == seq![
            comparison(a as int, b as int) as i64,
        ],
        run(push_push(b, a, OP::CMP), State::initial(), fuel).0.stack == seq![
            comparison(b as int, a as int) as i64,
        ],
        comparison(a as int, b as int) == -comparison(b as int, a as int),
{
    two_pushes_then(OP::CMP, a, b, fuel);
    two_pushes_then(OP::CMP, b, a, fuel);
}

/// `SUB` follows the order of the pushes: pushing `a` then `b` and
/// subtracting leaves `a - b`, wrapped into 64 bits if it does not fit.
pub proof fn subtraction_follows_push_order(a: i64, b: i64, fuel: nat)
    requires
        fuel >= 3,
    ensures
        run(push_push(a, b, OP::SUB), State::initial(), fuel) == (
            State { ip: 19, stack: seq![wrap(a - b)], output: Seq::empty() },
            Ok::<Status, VmError>(Status::Halted),
        ),
        i64::MIN <= a - b <= i64::MAX ==> wrap(a - b) == a - b,
{
    two_pushes_then(OP::SUB, a, b, fuel);
}

/// `DIV` follows the order of the pushes: pushing `a` then a `b` other than
/// zero and dividing leaves `a / b` rounded towards zero; only the least
/// integer divided by -1 does not fit and wraps around. With `b` zero the
/// program fails with `DivisionByZero` in front of `DIV` and pushes
/// nothing: `a` and `b` stay on the stack.
pub proof fn division_follows_push_order(a: i64, b: i64, fuel: nat)
    requires
        fuel >= 3,
    ensures
        b != 0 ==> run(push_push(a, b, OP::DIV), State::initial(), fuel) == (
            State {
                ip: 19,
                stack: seq![wrap(quotient(a as int, b as int))],
                output: Seq::empty(),
            },
            Ok::<Status, VmError>(Status::Halted),
        ),
        b == 0 ==> run(push_push(a, b, OP::DIV), State::initial(), fuel) == (
            State { ip: 18, stack: seq![a, b], output: Seq::empty() },
            Err::<Status, VmError>(VmError::DivisionByZero),
        ),
        b != 0 && !(a == i64::MIN && b == -1) ==> wrap(quotient(a as int, b as int)) == quotient(
            a as int,
            b as int,
        ),
{
    two_pushes_then(OP::DIV, a, b, fuel);
    if b != 0 && !(a == i64::MIN && b == -1) {
        quotient_fits(a, b);
    }
}

/// The quotient of two 64-bit integers fits in 64 bits, but for the least
/// integer divided by -1.
pub proof fn quotient_fits(a: i64, b: i64)
    requires
        b != 0,
        !(a == i64::MIN && b == -1),
    ensures
        wrap(quotient(a as int, b as int)) == quotient(a as int, b as int),
{
    let x = if a < 0 { -a } else { a as int };
    let y = if b < 0 { -b } else { b as int };
    assert(0 <= x / y <= x) by (nonlinear_arith)
        requires
            x >= 0,
            y >= 1,
    ;
    if y >= 2 {
        assert(x / y <= x / 2) by (nonlinear_arith)
            requires
                x >= 0,
                y >= 2,
        ;
    }
}

/// A run ends where it says: with `Ok(Halted)` in a halted state, with
/// `Ok(Running)` in a running one, and with a fault in a running state
/// whose next step fails with that fault.
pub proof fn run_ends_where_it_says(code: Seq<u8>, s: State, fuel: nat)
    ensures
        ({
            let (end, how) = run(code, s, fuel);
            match how {
                Ok(status) => end.status(code) == status,
                Err(fault) => end.status(code) == Status::Running && step(code, end) == Err::<
                    State,
                    VmError,
                >(fault),
            }
        }),
    decreases fuel,
{
    if s.status(code) == Status::Running && fuel > 0 {
        match step(code, s) {
            Err(_) => {},
            Ok(next) => run_ends_where_it_says(code, next, (fuel - 1) as nat),
        }
    }
}

/// A run can be made in parts: running for `first` steps and, if the
/// machine is still running after them, for `more`, ends like one run of
/// `first + more` steps.
pub proof fn run_in_parts(code: Seq<u8>, s: State, first: nat, more: nat)
    ensures
        run(code, s, first + more) == ({
            let (middle, how) = run(code, s, first);
            if how == Ok::<Status, VmError>(Status::Running) {
                run(code, middle, more)
            } else {
                (middle, how)
            }
        }),
    decreases first,
{
    if s.status(code) == Status::Running && first > 0 {
        match step(code, s) {
            Err(_) => {},
            Ok(next) => {
                run_in_parts(code, next, (first - 1) as nat, more);
                assert((first + more - 1) as nat == (first - 1) as nat + more);
            },
        }
    }
}

/// `JMP` goes wherever its operand says: no address is checked, whether it
/// lies in the program, beyond it, or in the middle of an instruction. The
/// stack and the output stay as they are.
pub proof fn jump_is_unchecked(code: Seq<u8>, s: State, addr: i64)
    requires
        s.ip < code.len(),
        code[s.ip as int] == OP::JMP.byte(),
        operand_at(code, s.ip as int + 1) == Some(addr),
    ensures
        step(code, s) == Ok::<State, VmError>(s.at(jump_target(addr))),
        addr >= 0 ==> jump_target(addr) == addr,
{
}

/// Whatever byte the instruction pointer lands on, the step from there is
/// well defined: it fails with `InvalidOpcode` exactly if the byte encodes no
/// instruction, and otherwise does what the encoded instruction does.
pub proof fn any_byte_is_dispatched(code: Seq<u8>, s: State)
    requires
        s.ip < code.len(),
    ensures
        step(code, s) == Err::<State, VmError>(VmError::InvalidOpcode) <==> code[s.ip as int] > 27,
        OP::of_byte(code[s.ip as int]) matches Some(op) ==> step(code, s) == execute(code, s, op),
{
    OP::of_byte_defined(code[s.ip as int]);
}

/// No instruction reaches below the two topmost values: after a step that
/// succeeds, at most one value has been added, at most one removed, and
/// every value beneath the two topmost is where it was.
pub proof fn deep_stack_is_untouched(code: Seq<u8>, s: State)
    ensures
        step(code, s) matches Ok(next) ==> {
            &&& s.stack.len() - 1 <= next.stack.len() <= s.stack.len() + 1
            &&& forall|i: int| 0 <= i < s.stack.len() - 2 ==> next.stack[i] == s.stack[i]
        },
{
}

/// The output only grows: a step that succeeds keeps what was printed and
/// adds at most one item.
pub proof fn output_only_grows(code: Seq<u8>, s: State)
    ensures
        step(code, s) matches Ok(next) ==> next.output == s.output || next.output.drop_last()
            == s.output,
{
    match step(code, s) {
        Ok(next) => {
            if next.output != s.output {
                assert(next.output.drop_last() =~= s.output);
            }
        },
        Err(_) => {},
    }
}

} // verus!
