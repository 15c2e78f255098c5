//! The instruction set: the closed list of opcodes and the byte assigned to each.

use vstd::prelude::*;

verus! {

/// One instruction of the machine.
#[allow(clippy::upper_case_acronyms)]
#[derive(Clone, Copy, Debug, PartialEq, Eq, Structural)]
pub enum OP {
    /// Does nothing.
    NOP,
    /// Pushes the operand.
    PUSH,
    /// Pushes a copy of the top of the stack.
    DUP,
    /// Discards the top of the stack.
    POP,
    /// Replaces the two topmost values by -1, 0 or 1: how the lower one
    /// compares to the upper one.
    CMP,
    /// Continues at the operand's address.
    JMP,
    /// Jumps if the top of the stack is 0.
    JE,
    /// Jumps if the top of the stack is not 0.
    JNE,
    /// Jumps if the top of the stack is -1.
    JL,
    /// Jumps if the top of the stack is -1 or 0.
    JLE,
    /// Jumps if the top of the stack is 1.
    JG,
    /// Jumps if the top of the stack is 0 or 1.
    JGE,
    /// Complements every bit of the top of the stack.
    NOT,
    /// Negates the top of the stack.
    NEG,
    /// Rotates the top of the stack left by one bit.
    ROL,
    /// Rotates the top of the stack right by one bit.
    ROR,
    /// Shifts the top of the stack left by the operand.
    SHL,
    /// Shifts the top of the stack right by the operand, keeping the sign.
    SHR,
    /// Adds one to the top of the stack.
    INC,
    /// Subtracts one from the top of the stack.
    DEC,
    /// Replaces the two topmost values by their bitwise and.
    AND,
    /// Replaces the two topmost values by their bitwise or.
    OR,
    /// Replaces the two topmost values by their bitwise exclusive or.
    XOR,
    /// Replaces the two topmost values by their sum.
    ADD,
    /// Replaces the two topmost values by the lower one minus the upper one.
    SUB,
    /// Replaces the two topmost values by their product.
    MUL,
    /// Replaces the two topmost values by the lower one divided by the upper one.
    DIV,
    /// Pops the top of the stack and prints it.
    PRNT,
}

impl OP {
    /// The byte that encodes this opcode.
    pub open spec fn byte(self) -> u8 {
        match self {
            OP::NOP => 0,
            OP::PUSH => 1,
            OP::DUP => 2,
            OP::POP => 3,
            OP::CMP => 4,
            OP::JMP => 5,
            OP::JE => 6,
            OP::JNE => 7,
            OP::JL => 8,
            OP::JLE => 9,
            OP::JG => 10,
            OP::JGE => 11,
            OP::NOT => 12,
            OP::NEG => 13,
            OP::ROL => 14,
            OP::ROR => 15,
            OP::SHL => 16,
            OP::SHR => 17,
            OP::INC => 18,
            OP::DEC => 19,
            OP::AND => 20,
            OP::OR => 21,
            OP::XOR => 22,
            OP::ADD => 23,
            OP::SUB => 24,
            OP::MUL => 25,
            OP::DIV => 26,
            OP::PRNT => 27,
        }
    }

    /// Whether an eight-byte operand follows this opcode.
    pub open spec fn has_operand(self) -> bool {
        self == OP::PUSH || self == OP::JMP || self.is_branch() || self.is_shift()
    }

    /// The number of bytes that this instruction takes: the opcode and, if
    /// it has one, the operand.
    pub open spec fn size(self) -> nat {
        if self.has_operand() {
            9
        } else {
            1
        }
    }

    /// Whether this is a conditional jump.
    pub open spec fn is_branch(self) -> bool {
        self == OP::JE || self == OP::JNE || self == OP::JL || self == OP::JLE || self == OP::JG
            || self == OP::JGE
    }

    /// Whether this instruction rewrites the top of the stack from that value alone.
    pub open spec fn is_unary(self) -> bool {
        self == OP::NOT || self == OP::NEG || self == OP::ROL || self == OP::ROR || self
            == OP::INC || self == OP::DEC
    }

    /// Whether this instruction shifts the top of the stack by its operand.
    pub open spec fn is_shift(self) -> bool {
        self == OP::SHL || self == OP::SHR
    }

    /// Whether this instruction replaces the two topmost values by one.
    pub open spec fn is_binary(self) -> bool {
        self == OP::CMP || self == OP::AND || self == OP::OR || self == OP::XOR || self
            == OP::ADD || self == OP::SUB || self == OP::MUL || self == OP::DIV
    }

    /// The opcode that a byte encodes, if any.
    pub open spec fn of_byte(b: u8) -> Option<OP> {
        match b {
            0 => Some(OP::NOP),
            1 => Some(OP::PUSH),
            2 => Some(OP::DUP),
            3 => Some(OP::POP),
            4 => Some(OP::CMP),
            5 => Some(OP::JMP),
            6 => Some(OP::JE),
            7 => Some(OP::JNE),
            8 => Some(OP::JL),
            9 => Some(OP::JLE),
            10 => Some(OP::JG),
            11 => Some(OP::JGE),
            12 => Some(OP::NOT),
            13 => Some(OP::NEG),
            14 => Some(OP::ROL),
            15 => Some(OP::ROR),
            16 => Some(OP::SHL),
            17 => Some(OP::SHR),
            18 => Some(OP::INC),
            19 => Some(OP::DEC),
            20 => Some(OP::AND),
            21 => Some(OP::OR),
            22 => Some(OP::XOR),
            23 => Some(OP::ADD),
            24 => Some(OP::SUB),
            25 => Some(OP::MUL),
            26 => Some(OP::DIV),
            27 => Some(OP::PRNT),
            _ => None,
        }
    }

    /// Looks a byte up in the instruction set.
    ///
    /// The bytes 0 to 27 each name one opcode; every other byte names none.
    pub fn from_u8(op: u8) -> (r: Option<OP>)
        ensures
            r == OP::of_byte(op),
    {
        match op {
            0 => Some(OP::NOP),
            1 => Some(OP::PUSH),
            2 => Some(OP::DUP),
            3 => Some(OP::POP),
            4 => Some(OP::CMP),
            5 => Some(OP::JMP),
            6 => Some(OP::JE),
            7 => Some(OP::JNE),
            8 => Some(OP::JL),
            9 => Some(OP::JLE),
            10 => Some(OP::JG),
            11 => Some(OP::JGE),
            12 => Some(OP::NOT),
            13 => Some(OP::NEG),
            14 => Some(OP::ROL),
            15 => Some(OP::ROR),
            16 => Some(OP::SHL),
            17 => Some(OP::SHR),
            18 => Some(OP::INC),
            19 => Some(OP::DEC),
            20 => Some(OP::AND),
            21 => Some(OP::OR),
            22 => Some(OP::XOR),
            23 => Some(OP::ADD),
            24 => Some(OP::SUB),
            25 => Some(OP::MUL),
            26 => Some(OP::DIV),
            27 => Some(OP::PRNT),
            _ => None,
        }
    }

    /// The byte that encodes this opcode.
    pub fn to_u8(self) -> (b: u8)
        ensures
            b == self.byte(),
    {
        match self {
            OP::NOP => 0,
            OP::PUSH => 1,
            OP::DUP => 2,
            OP::POP => 3,
            OP::CMP => 4,
            OP::JMP => 5,
            OP::JE => 6,
            OP::JNE => 7,
            OP::JL => 8,
            OP::JLE => 9,
            OP::JG => 10,
            OP::JGE => 11,
            OP::NOT => 12,
            OP::NEG => 13,
            OP::ROL => 14,
            OP::ROR => 15,
            OP::SHL => 16,
            OP::SHR => 17,
            OP::INC => 18,
            OP::DEC => 19,
            OP::AND => 20,
            OP::OR => 21,
            OP::XOR => 22,
            OP::ADD => 23,
            OP::SUB => 24,
            OP::MUL => 25,
            OP::DIV => 26,
            OP::PRNT => 27,
        }
    }

    /// Every opcode is found again from its byte.
    pub proof fn byte_round_trip(self)
        ensures
            OP::of_byte(self.byte()) == Some(self),
            self.byte() <= 27,
    {
    }

    /// A byte names an opcode exactly if it is at most 27, and that opcode
    /// is encoded by the byte.
    pub proof fn of_byte_defined(b: u8)
        ensures
            OP::of_byte(b) is Some <==> b <= 27,
            OP::of_byte(b) matches Some(op) ==> op.byte() == b,
    {
    }
}

} // verus!
