use stack_vm::error::VmError;
use stack_vm::instructions::OP;
use stack_vm::output::Output;
use stack_vm::semantics::Status;
use stack_vm::vm::{VM, STACK_CAPACITY};

fn plain(op: OP) -> Vec<u8> {
    vec![op.to_u8()]
}

fn with_operand(op: OP, v: i64) -> Vec<u8> {
    let mut bytes = vec![op.to_u8()];
    bytes.extend_from_slice(&v.to_le_bytes());
    bytes
}

fn program(parts: &[Vec<u8>]) -> Vec<u8> {
    parts.concat()
}

fn lines(vm: &VM) -> Vec<String> {
    vm.output().iter().map(|item| item.line()).collect()
}

#[test]
fn new_machine_starts_at_zero_with_nothing() {
    let code = [0u8, 0, 0];
    let vm = VM::new(&code);
    assert_eq!(vm.ip(), 0);
    assert!(vm.stack().is_empty());
    assert!(vm.output().is_empty());
    assert_eq!(vm.status(), Status::Running);
}

#[test]
fn new_machine_has_room_on_its_stack() {
    let code = [0u8];
    let vm = VM::new(&code);
    assert!(vm.stack().capacity() >= STACK_CAPACITY);
    assert_eq!(STACK_CAPACITY, 1_000_000);
}

#[test]
fn empty_program_is_halted_at_once() {
    let code: [u8; 0] = [];
    let mut vm = VM::new(&code);
    assert_eq!(vm.status(), Status::Halted);
    assert_eq!(vm.step(), Ok(()));
    assert_eq!(vm.ip(), 0);
    assert_eq!(vm.run_for(10), Ok(Status::Halted));
    assert_eq!(vm.run_for(0), Ok(Status::Halted));
    assert!(vm.output().is_empty());
}

#[test]
fn one_plus_two_prints_three() {
    let code: [u8; 20] = [1, 1, 0, 0, 0, 0, 0, 0, 0, 1, 2, 0, 0, 0, 0, 0, 0, 0, 23, 27];
    let mut vm = VM::new(&code);
    assert_eq!(vm.run(), Ok(Status::Halted));
    assert_eq!(lines(&vm), vec!["3"]);
    assert_eq!(vm.output(), &vec![Output::Value(3)]);
    assert!(vm.stack().is_empty());
    assert_eq!(vm.ip(), 20);
}

#[test]
fn branch_is_taken_when_comparison_yields_zero() {
    // 0: PUSH 6   9: PUSH 6   18: CMP   19: JE 38   28: PUSH 1   37: PRNT
    // 38: POP   39: PUSH 6   48: PRNT
    let code = program(&[
        with_operand(OP::PUSH, 6),
        with_operand(OP::PUSH, 6),
        plain(OP::CMP),
        with_operand(OP::JE, 38),
        with_operand(OP::PUSH, 1),
        plain(OP::PRNT),
        plain(OP::POP),
        with_operand(OP::PUSH, 6),
        plain(OP::PRNT),
    ]);
    let mut vm = VM::new(&code);
    assert_eq!(vm.run_for(3), Ok(Status::Running));
    assert_eq!(vm.stack(), &vec![0]);
    assert_eq!(vm.step(), Ok(()));
    assert_eq!(vm.ip(), 38);
    assert_eq!(vm.stack(), &vec![0]);
    assert_eq!(vm.run_for(100), Ok(Status::Halted));
    assert_eq!(lines(&vm), vec!["6"]);
}

#[test]
fn branch_is_not_taken_when_comparison_yields_one() {
    // 0: PUSH 6   9: PUSH 0   18: CMP   19: JE 38   28: PRNT
    let code = program(&[
        with_operand(OP::PUSH, 6),
        with_operand(OP::PUSH, 0),
        plain(OP::CMP),
        with_operand(OP::JE, 38),
        plain(OP::PRNT),
    ]);
    let mut vm = VM::new(&code);
    assert_eq!(vm.run_for(4), Ok(Status::Running));
    assert_eq!(vm.ip(), 28);
    assert_eq!(vm.stack(), &vec![1]);
    assert_eq!(vm.run_for(100), Ok(Status::Halted));
    assert_eq!(lines(&vm), vec!["1"]);
}

#[test]
fn div_alone_fails_on_empty_stack() {
    let code = [26u8];
    let mut vm = VM::new(&code);
    assert_eq!(vm.run(), Err(VmError::EmptyStack));
    assert!(vm.output().is_empty());
    assert!(vm.stack().is_empty());
    assert_eq!(vm.ip(), 0);
}

#[test]
fn division_by_zero_pushes_nothing() {
    let code = program(&[with_operand(OP::PUSH, 5), with_operand(OP::PUSH, 0), plain(OP::DIV)]);
    let mut vm = VM::new(&code);
    assert_eq!(vm.run(), Err(VmError::DivisionByZero));
    assert_eq!(vm.stack(), &vec![5, 0]);
    assert_eq!(vm.ip(), 18);
    assert!(vm.output().is_empty());
}

#[test]
fn buffer_ending_in_the_middle_of_push_is_truncated() {
    let code = [1u8, 7, 0, 0, 0];
    let mut vm = VM::new(&code);
    assert_eq!(vm.run(), Err(VmError::TruncatedOperand));
    assert!(vm.stack().is_empty());
    assert_eq!(vm.ip(), 0);
}

#[test]
fn push_with_no_operand_byte_at_all_is_truncated() {
    let code = [1u8];
    let mut vm = VM::new(&code);
    assert_eq!(vm.step(), Err(VmError::TruncatedOperand));
}

#[test]
fn push_then_print_prints_the_value_and_empties_the_stack() {
    for v in [0i64, 1, -1, 42, -42, i64::MIN, i64::MAX] {
        let code = program(&[with_operand(OP::PUSH, v), plain(OP::PRNT)]);
        let mut vm = VM::new(&code);
        assert_eq!(vm.run_for(2), Ok(Status::Halted));
        assert_eq!(lines(&vm), vec![format!("{}", v)]);
        assert!(vm.stack().is_empty());
        assert_eq!(vm.ip(), 10);
    }
}

#[test]
fn cmp_after_two_pushes_is_antisymmetric() {
    for (a, b) in [(1i64, 2i64), (2, 1), (5, 5), (i64::MIN, i64::MAX), (-3, 0)] {
        let ab = program(&[with_operand(OP::PUSH, a), with_operand(OP::PUSH, b), plain(OP::CMP)]);
        let ba = program(&[with_operand(OP::PUSH, b), with_operand(OP::PUSH, a), plain(OP::CMP)]);
        let mut first = VM::new(&ab);
        let mut second = VM::new(&ba);
        assert_eq!(first.run_for(3), Ok(Status::Halted));
        assert_eq!(second.run_for(3), Ok(Status::Halted));
        assert_eq!(first.stack().len(), 1);
        assert_eq!(first.stack()[0], -second.stack()[0]);
        assert_eq!(first.stack()[0], if a < b { -1 } else if a == b { 0 } else { 1 });
    }
}

#[test]
fn sub_and_div_follow_push_order() {
    let sub = program(&[with_operand(OP::PUSH, 10), with_operand(OP::PUSH, 3), plain(OP::SUB)]);
    let mut vm = VM::new(&sub);
    assert_eq!(vm.run_for(3), Ok(Status::Halted));
    assert_eq!(vm.stack(), &vec![7]);

    let div = program(&[with_operand(OP::PUSH, -17), with_operand(OP::PUSH, 5), plain(OP::DIV)]);
    let mut vm = VM::new(&div);
    assert_eq!(vm.run_for(3), Ok(Status::Halted));
    assert_eq!(vm.stack(), &vec![-3]);
}

#[test]
fn nop_only_moves_the_pointer() {
    let code = [0u8, 0];
    let mut vm = VM::new(&code);
    assert_eq!(vm.step(), Ok(()));
    assert_eq!(vm.ip(), 1);
    assert!(vm.stack().is_empty());
    assert!(vm.output().is_empty());
    assert_eq!(vm.status(), Status::Running);
    assert_eq!(vm.step(), Ok(()));
    assert_eq!(vm.ip(), 2);
    assert_eq!(vm.status(), Status::Halted);
}

#[test]
fn dup_copies_the_top() {
    let code = program(&[with_operand(OP::PUSH, 9), plain(OP::DUP)]);
    let mut vm = VM::new(&code);
    assert_eq!(vm.run_for(2), Ok(Status::Halted));
    assert_eq!(vm.stack(), &vec![9, 9]);
    assert_eq!(vm.ip(), 10);
}

#[test]
fn dup_on_empty_stack_fails() {
    let code = [2u8];
    let mut vm = VM::new(&code);
    assert_eq!(vm.step(), Err(VmError::EmptyStack));
    assert_eq!(vm.ip(), 0);
}

#[test]
fn pop_discards_the_top() {
    let code = program(&[with_operand(OP::PUSH, 1), with_operand(OP::PUSH, 2), plain(OP::POP)]);
    let mut vm = VM::new(&code);
    assert_eq!(vm.run_for(3), Ok(Status::Halted));
    assert_eq!(vm.stack(), &vec![1]);
}

#[test]
fn pop_on_empty_stack_fails() {
    let code = [3u8, 0];
    let mut vm = VM::new(&code);
    assert_eq!(vm.step(), Err(VmError::EmptyStack));
    assert_eq!(vm.ip(), 0);
    assert!(vm.stack().is_empty());
}

#[test]
fn print_on_empty_stack_prints_the_placeholder_and_goes_on() {
    let code = program(&[plain(OP::PRNT), with_operand(OP::PUSH, 4), plain(OP::PRNT)]);
    let mut vm = VM::new(&code);
    assert_eq!(vm.step(), Ok(()));
    assert_eq!(vm.ip(), 1);
    assert_eq!(vm.output(), &vec![Output::Placeholder]);
    assert_eq!(vm.run_for(10), Ok(Status::Halted));
    assert_eq!(lines(&vm), vec!["???", "4"]);
}

#[test]
fn print_pops_only_the_top() {
    let code = program(&[with_operand(OP::PUSH, 1), with_operand(OP::PUSH, 2), plain(OP::PRNT)]);
    let mut vm = VM::new(&code);
    assert_eq!(vm.run_for(10), Ok(Status::Halted));
    assert_eq!(vm.stack(), &vec![1]);
    assert_eq!(lines(&vm), vec!["2"]);
}

#[test]
fn jmp_continues_at_the_address() {
    // 0: JMP 18   9: PUSH 1   18: PUSH 2   27: PRNT
    let code = program(&[
        with_operand(OP::JMP, 18),
        with_operand(OP::PUSH, 1),
        with_operand(OP::PUSH, 2),
        plain(OP::PRNT),
    ]);
    let mut vm = VM::new(&code);
    assert_eq!(vm.step(), Ok(()));
    assert_eq!(vm.ip(), 18);
    assert_eq!(vm.run_for(10), Ok(Status::Halted));
    assert_eq!(lines(&vm), vec!["2"]);
}

#[test]
fn jmp_beyond_the_program_halts() {
    let code = program(&[with_operand(OP::PUSH, 1), with_operand(OP::JMP, 1000), plain(OP::PRNT)]);
    let mut vm = VM::new(&code);
    assert_eq!(vm.run_for(10), Ok(Status::Halted));
    assert_eq!(vm.ip(), 1000);
    assert_eq!(vm.stack(), &vec![1]);
    assert!(vm.output().is_empty());
}

#[test]
fn jmp_to_a_negative_address_halts_far_beyond() {
    let code = program(&[with_operand(OP::JMP, -1), plain(OP::PRNT)]);
    let mut vm = VM::new(&code);
    assert_eq!(vm.step(), Ok(()));
    assert_eq!(vm.ip(), u64::MAX);
    assert_eq!(vm.status(), Status::Halted);

    let code = program(&[with_operand(OP::JMP, i64::MIN)]);
    let mut vm = VM::new(&code);
    assert_eq!(vm.run_for(5), Ok(Status::Halted));
    assert_eq!(vm.ip(), 1 << 63);
}

#[test]
fn jmp_into_the_middle_of_an_instruction_decodes_what_is_there() {
    // 0: JMP 10   9: PUSH 0x1b (= PRNT when read as an opcode at offset 10)
    let code = program(&[with_operand(OP::JMP, 10), with_operand(OP::PUSH, 27)]);
    let mut vm = VM::new(&code);
    assert_eq!(vm.step(), Ok(()));
    assert_eq!(vm.ip(), 10);
    assert_eq!(vm.step(), Ok(()));
    assert_eq!(vm.output(), &vec![Output::Placeholder]);
    assert_eq!(vm.run_for(10), Ok(Status::Halted));
    assert_eq!(vm.ip(), 18);
    assert!(vm.stack().is_empty());
}

#[test]
fn jmp_onto_garbage_fails_with_invalid_opcode_and_keeps_the_stack() {
    // 0: PUSH 7   9: JMP 19   18: NOP   operand byte at 19 is 0xee
    let code = program(&[with_operand(OP::PUSH, 7), with_operand(OP::JMP, 19), with_operand(OP::NOP, 0xee)]);
    let mut vm = VM::new(&code);
    assert_eq!(vm.run_for(10), Err(VmError::InvalidOpcode));
    assert_eq!(vm.ip(), 19);
    assert_eq!(vm.stack(), &vec![7]);
    assert!(vm.output().is_empty());
}

#[test]
fn jmp_without_its_operand_is_truncated() {
    let code = [5u8, 1, 2, 3];
    let mut vm = VM::new(&code);
    assert_eq!(vm.step(), Err(VmError::TruncatedOperand));
    assert_eq!(vm.ip(), 0);
}

#[test]
fn conditional_jumps_taken_and_not() {
    let cases: [(OP, i64, bool); 12] = [
        (OP::JE, 0, true),
        (OP::JE, 1, false),
        (OP::JNE, 5, true),
        (OP::JNE, 0, false),
        (OP::JL, -1, true),
        (OP::JL, 0, false),
        (OP::JLE, 0, true),
        (OP::JLE, 1, false),
        (OP::JG, 1, true),
        (OP::JG, 2, false),
        (OP::JGE, 1, true),
        (OP::JGE, -1, false),
    ];
    for (op, top, taken) in cases {
        let code = program(&[with_operand(OP::PUSH, top), with_operand(op, 100)]);
        let mut vm = VM::new(&code);
        assert_eq!(vm.step(), Ok(()));
        assert_eq!(vm.step(), Ok(()));
        assert_eq!(vm.ip(), if taken { 100 } else { 18 }, "{:?} on {}", op, top);
        assert_eq!(vm.stack(), &vec![top]);
    }
}

#[test]
fn conditional_jump_not_taken_skips_its_operand() {
    // 0: PUSH 1   9: JE 0   18: PRNT ; the operand of JE is all NOP bytes
    let code = program(&[with_operand(OP::PUSH, 1), with_operand(OP::JE, 0), plain(OP::PRNT)]);
    let mut vm = VM::new(&code);
    assert_eq!(vm.run_for(2), Ok(Status::Running));
    assert_eq!(vm.ip(), 18);
    assert_eq!(vm.run_for(1), Ok(Status::Halted));
    assert_eq!(lines(&vm), vec!["1"]);
}

#[test]
fn conditional_jump_on_empty_stack_fails() {
    for op in [OP::JE, OP::JNE, OP::JL, OP::JLE, OP::JG, OP::JGE] {
        let code = with_operand(op, 0);
        let mut vm = VM::new(&code);
        assert_eq!(vm.step(), Err(VmError::EmptyStack));
        assert_eq!(vm.ip(), 0);
    }
}

#[test]
fn conditional_jump_reports_the_empty_stack_before_the_missing_operand() {
    let code = [6u8, 0, 0];
    let mut vm = VM::new(&code);
    assert_eq!(vm.step(), Err(VmError::EmptyStack));
}

#[test]
fn conditional_jump_needs_its_operand_taken_or_not() {
    for top in [0i64, 1] {
        let mut code = with_operand(OP::PUSH, top);
        code.extend_from_slice(&[6, 0, 0, 0]);
        let mut vm = VM::new(&code);
        assert_eq!(vm.step(), Ok(()));
        assert_eq!(vm.step(), Err(VmError::TruncatedOperand));
        assert_eq!(vm.ip(), 9);
        assert_eq!(vm.stack(), &vec![top]);
    }
}

#[test]
fn unary_instructions_rewrite_the_top_in_place() {
    let cases: [(OP, i64, i64); 8] = [
        (OP::NOT, 0, -1),
        (OP::NEG, 12, -12),
        (OP::ROL, i64::MIN, 1),
        (OP::ROR, 1, i64::MIN),
        (OP::INC, -1, 0),
        (OP::DEC, 0, -1),
        (OP::INC, i64::MAX, i64::MIN),
        (OP::NEG, i64::MIN, i64::MIN),
    ];
    for (op, before, after) in cases {
        let code = program(&[with_operand(OP::PUSH, 77), with_operand(OP::PUSH, before), plain(op)]);
        let mut vm = VM::new(&code);
        assert_eq!(vm.run_for(10), Ok(Status::Halted));
        assert_eq!(vm.stack(), &vec![77, after], "{:?} on {}", op, before);
        assert_eq!(vm.ip(), 19);
    }
}

#[test]
fn unary_instructions_fail_on_empty_stack() {
    for op in [OP::NOT, OP::NEG, OP::ROL, OP::ROR, OP::INC, OP::DEC] {
        let code = plain(op);
        let mut vm = VM::new(&code);
        assert_eq!(vm.step(), Err(VmError::EmptyStack));
        assert_eq!(vm.ip(), 0);
    }
}

#[test]
fn shifts_take_their_distance_from_the_operand() {
    let code = program(&[with_operand(OP::PUSH, 3), with_operand(OP::SHL, 4), with_operand(OP::SHR, 1)]);
    let mut vm = VM::new(&code);
    assert_eq!(vm.run_for(2), Ok(Status::Running));
    assert_eq!(vm.stack(), &vec![48]);
    assert_eq!(vm.ip(), 18);
    assert_eq!(vm.run_for(1), Ok(Status::Halted));
    assert_eq!(vm.stack(), &vec![24]);
    assert_eq!(vm.ip(), 27);
}

#[test]
fn shift_reports_the_missing_operand_before_the_empty_stack() {
    let code = [16u8, 1, 0];
    let mut vm = VM::new(&code);
    assert_eq!(vm.step(), Err(VmError::TruncatedOperand));
    let code = with_operand(OP::SHR, 1);
    let mut vm = VM::new(&code);
    assert_eq!(vm.step(), Err(VmError::EmptyStack));
    assert_eq!(vm.ip(), 0);
}

#[test]
fn binary_instructions_replace_two_values_by_one() {
    let cases: [(OP, i64, i64, i64); 8] = [
        (OP::CMP, 1, 2, -1),
        (OP::AND, 6, 3, 2),
        (OP::OR, 6, 3, 7),
        (OP::XOR, 6, 3, 5),
        (OP::ADD, 6, 3, 9),
        (OP::SUB, 6, 3, 3),
        (OP::MUL, 6, 3, 18),
        (OP::DIV, 6, 3, 2),
    ];
    for (op, a, b, want) in cases {
        let code = program(&[
            with_operand(OP::PUSH, 55),
            with_operand(OP::PUSH, a),
            with_operand(OP::PUSH, b),
            plain(op),
        ]);
        let mut vm = VM::new(&code);
        assert_eq!(vm.run_for(10), Ok(Status::Halted));
        assert_eq!(vm.stack(), &vec![55, want], "{:?}", op);
        assert_eq!(vm.ip(), 28);
    }
}

#[test]
fn binary_instruction_with_one_value_fails_and_keeps_it() {
    for op in [OP::CMP, OP::AND, OP::OR, OP::XOR, OP::ADD, OP::SUB, OP::MUL, OP::DIV] {
        let code = program(&[with_operand(OP::PUSH, 8), plain(op)]);
        let mut vm = VM::new(&code);
        assert_eq!(vm.run_for(10), Err(VmError::EmptyStack));
        assert_eq!(vm.stack(), &vec![8]);
        assert_eq!(vm.ip(), 9);
    }
}

#[test]
fn undefined_byte_is_an_invalid_opcode() {
    for byte in [28u8, 29, 100, 255] {
        let code = [0u8, byte];
        let mut vm = VM::new(&code);
        assert_eq!(vm.run_for(10), Err(VmError::InvalidOpcode));
        assert_eq!(vm.ip(), 1);
    }
}

#[test]
fn built_in_smoke_program_ends_on_an_invalid_opcode() {
    let code: [u8; 19] = [1, 1, 0, 0, 0, 0, 0, 0, 0, 6, 0, 0, 0, 0, 0, 0, 0, 0, 28];
    let mut vm = VM::new(&code);
    assert_eq!(vm.run(), Err(VmError::InvalidOpcode));
    assert_eq!(vm.ip(), 18);
    assert_eq!(vm.stack(), &vec![1]);
    assert!(vm.output().is_empty());
}

#[test]
fn a_fault_leaves_the_machine_as_it_was_and_comes_again() {
    let code = program(&[with_operand(OP::PUSH, 3), plain(OP::PRNT), plain(OP::ADD)]);
    let mut vm = VM::new(&code);
    assert_eq!(vm.run_for(10), Err(VmError::EmptyStack));
    assert_eq!(vm.ip(), 10);
    assert_eq!(lines(&vm), vec!["3"]);
    assert_eq!(vm.step(), Err(VmError::EmptyStack));
    assert_eq!(vm.run_for(10), Err(VmError::EmptyStack));
    assert_eq!(vm.ip(), 10);
    assert_eq!(lines(&vm), vec!["3"]);
}

#[test]
fn run_stops_when_the_steps_are_used_up() {
    // 0: PUSH 1   9: PRNT   10: JMP 0
    let code = program(&[with_operand(OP::PUSH, 1), plain(OP::PRNT), with_operand(OP::JMP, 0)]);
    let mut vm = VM::new(&code);
    assert_eq!(vm.run_for(0), Ok(Status::Running));
    assert_eq!(vm.ip(), 0);
    assert_eq!(vm.run_for(7), Ok(Status::Running));
    assert_eq!(lines(&vm), vec!["1", "1"]);
    assert_eq!(vm.ip(), 9);
    assert_eq!(vm.stack(), &vec![1]);
    assert_eq!(vm.run_for(2), Ok(Status::Running));
    assert_eq!(lines(&vm), vec!["1", "1", "1"]);
    assert_eq!(vm.ip(), 0);
}

#[test]
fn run_in_parts_is_run_in_one() {
    let code = program(&[
        with_operand(OP::PUSH, 2),
        with_operand(OP::PUSH, 40),
        plain(OP::ADD),
        plain(OP::DUP),
        plain(OP::PRNT),
        plain(OP::PRNT),
    ]);
    let mut whole = VM::new(&code);
    assert_eq!(whole.run_for(6), Ok(Status::Halted));
    let mut parts = VM::new(&code);
    assert_eq!(parts.run_for(2), Ok(Status::Running));
    assert_eq!(parts.run_for(3), Ok(Status::Running));
    assert_eq!(parts.run_for(1), Ok(Status::Halted));
    assert_eq!(parts.output(), whole.output());
    assert_eq!(parts.stack(), whole.stack());
    assert_eq!(parts.ip(), whole.ip());
    assert_eq!(lines(&whole), vec!["42", "42"]);
}

#[test]
fn counting_loop_prints_three_two_one() {
    // 0: PUSH 3   9: DUP   10: PRNT   11: DEC   12: JNE 9   21: POP
    let code = program(&[
        with_operand(OP::PUSH, 3),
        plain(OP::DUP),
        plain(OP::PRNT),
        plain(OP::DEC),
        with_operand(OP::JNE, 9),
        plain(OP::POP),
    ]);
    let mut vm = VM::new(&code);
    assert_eq!(vm.run(), Ok(Status::Halted));
    assert_eq!(lines(&vm), vec!["3", "2", "1"]);
    assert!(vm.stack().is_empty());
    assert_eq!(vm.ip(), 22);
}

#[test]
fn take_output_hands_over_and_starts_anew() {
    let code = program(&[
        with_operand(OP::PUSH, 1),
        plain(OP::PRNT),
        with_operand(OP::PUSH, 2),
        plain(OP::PRNT),
    ]);
    let mut vm = VM::new(&code);
    assert_eq!(vm.run_for(2), Ok(Status::Running));
    assert_eq!(vm.take_output(), vec![Output::Value(1)]);
    assert!(vm.output().is_empty());
    assert_eq!(vm.ip(), 10);
    assert_eq!(vm.run_for(2), Ok(Status::Halted));
    assert_eq!(vm.take_output(), vec![Output::Value(2)]);
    assert_eq!(vm.take_output(), vec![]);
}

#[test]
fn inserted_nops_change_neither_stack_nor_output() {
    let parts = [
        with_operand(OP::PUSH, 20),
        with_operand(OP::PUSH, 22),
        plain(OP::ADD),
        plain(OP::DUP),
        plain(OP::PRNT),
        with_operand(OP::SHL, 1),
    ];
    let code = program(&parts);
    let mut bare = VM::new(&code);
    assert_eq!(bare.run_for(1000), Ok(Status::Halted));
    assert_eq!(bare.stack(), &vec![84]);
    assert_eq!(lines(&bare), vec!["42"]);
    for gap in 0..=parts.len() {
        for count in [1usize, 2, 9] {
            let mut code = program(&parts[..gap]);
            code.extend(std::iter::repeat(OP::NOP.to_u8()).take(count));
            code.extend(program(&parts[gap..]));
            let mut vm = VM::new(&code);
            assert_eq!(vm.run_for(1000), Ok(Status::Halted));
            assert_eq!(vm.stack(), bare.stack());
            assert_eq!(vm.output(), bare.output());
            assert_eq!(vm.ip(), bare.ip() + count as u64);
        }
    }
}

#[test]
fn inserted_nops_keep_a_fault_and_what_came_before_it() {
    let parts = [with_operand(OP::PUSH, 5), plain(OP::PRNT), plain(OP::MUL), plain(OP::PRNT)];
    let code = program(&parts);
    let mut bare = VM::new(&code);
    assert_eq!(bare.run_for(1000), Err(VmError::EmptyStack));
    for gap in 0..=parts.len() {
        let mut padded = program(&parts[..gap]);
        padded.extend_from_slice(&[0, 0, 0]);
        padded.extend(program(&parts[gap..]));
        let mut vm = VM::new(&padded);
        assert_eq!(vm.run_for(1000), Err(VmError::EmptyStack));
        assert_eq!(vm.stack(), bare.stack());
        assert_eq!(vm.output(), bare.output());
    }
}

#[test]
fn inserted_nops_at_a_jump_target_keep_the_loop() {
    // 0: PUSH 3   9: DUP   10: PRNT   11: DEC   12: JNE 9   21: POP
    let code = program(&[
        with_operand(OP::PUSH, 3),
        plain(OP::DUP),
        plain(OP::PRNT),
        plain(OP::DEC),
        with_operand(OP::JNE, 9),
        plain(OP::POP),
    ]);
    let mut bare = VM::new(&code);
    assert_eq!(bare.run_for(1000), Ok(Status::Halted));
    let mut padded = code[..9].to_vec();
    padded.extend_from_slice(&[0, 0]);
    padded.extend_from_slice(&code[9..]);
    // The target 9 is the place of the insertion: the jump lands on the
    // inserted instructions and slides into the loop.
    let mut vm = VM::new(&padded);
    assert_eq!(vm.run_for(1000), Ok(Status::Halted));
    assert_eq!(vm.output(), bare.output());
    assert_eq!(vm.stack(), bare.stack());
}

#[test]
fn inserted_nop_behind_which_a_jump_lands_changes_the_output() {
    // 0: JMP 10   9: PRNT   10: PUSH 7   19: PRNT
    let parts = [
        with_operand(OP::JMP, 10),
        plain(OP::PRNT),
        with_operand(OP::PUSH, 7),
        plain(OP::PRNT),
    ];
    let code = program(&parts);
    let mut bare = VM::new(&code);
    assert_eq!(bare.run(), Ok(Status::Halted));
    assert_eq!(lines(&bare), vec!["7"]);
    // With one NOP at offset 9 the jump to 10 finds the first PRNT.
    let mut padded = program(&parts[..1]);
    padded.push(OP::NOP.to_u8());
    padded.extend(program(&parts[1..]));
    let mut vm = VM::new(&padded);
    assert_eq!(vm.run(), Ok(Status::Halted));
    assert_eq!(lines(&vm), vec!["???", "7"]);
}

#[test]
fn run_goes_on_where_run_for_stopped() {
    let code = program(&[
        with_operand(OP::PUSH, 8),
        plain(OP::DUP),
        plain(OP::MUL),
        plain(OP::PRNT),
    ]);
    let mut vm = VM::new(&code);
    assert_eq!(vm.run_for(2), Ok(Status::Running));
    assert_eq!(vm.run(), Ok(Status::Halted));
    assert_eq!(lines(&vm), vec!["64"]);
    assert_eq!(vm.run(), Ok(Status::Halted));
    assert_eq!(lines(&vm), vec!["64"]);
}

#[test]
fn deep_values_stay_where_they_are() {
    let code = program(&[
        with_operand(OP::PUSH, 100),
        with_operand(OP::PUSH, 200),
        with_operand(OP::PUSH, 1),
        with_operand(OP::PUSH, 2),
        plain(OP::ADD),
        plain(OP::NEG),
        plain(OP::DUP),
        plain(OP::MUL),
        plain(OP::PRNT),
    ]);
    let mut vm = VM::new(&code);
    assert_eq!(vm.run_for(4), Ok(Status::Running));
    for _ in 0..5 {
        assert_eq!(vm.step(), Ok(()));
        assert_eq!(&vm.stack()[..2], &[100, 200]);
    }
    assert_eq!(lines(&vm), vec!["9"]);
    assert_eq!(vm.status(), Status::Halted);
}
