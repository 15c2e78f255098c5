//! Operands: eight bytes that follow an opcode and hold a signed 64-bit
//! integer in two's complement, least significant byte first.

use vstd::prelude::*;
use crate::error::VmError;

verus! {

/// The number of bytes of an operand.
pub const OPERAND_LEN: usize = 8;

/// The natural number that `bytes` spell out, least significant byte first.
pub open spec fn unsigned_le(bytes: Seq<u8>) -> nat
    decreases bytes.len(),
{
    if bytes.len() == 0 {
        0
    } else {
        bytes[0] as nat + 256 * unsigned_le(bytes.skip(1))
    }
}

/// The integer that a 64-bit pattern stands for in two's complement.
pub open spec fn signed(pattern: nat) -> int {
    if pattern < 0x8000_0000_0000_0000 {
        pattern as int
    } else {
        pattern - 0x1_0000_0000_0000_0000
    }
}

/// The operand that starts at offset `at` of `code`, if eight bytes are left there.
pub open spec fn operand_at(code: Seq<u8>, at: int) -> Option<i64> {
    if 0 <= at && at + 8 <= code.len() {
        Some(signed(unsigned_le(code.subrange(at, at + 8))) as i64)
    } else {
        None
    }
}

/// What at most eight bytes spell out is below 256 to the power of their number.
pub proof fn unsigned_le_bound(bytes: Seq<u8>)
    ensures
        bytes.len() == 0 ==> unsigned_le(bytes) == 0,
        bytes.len() <= 1 ==> unsigned_le(bytes) < 0x100,
        bytes.len() <= 2 ==> unsigned_le(bytes) < 0x1_0000,
        bytes.len() <= 3 ==> unsigned_le(bytes) < 0x100_0000,
        bytes.len() <= 4 ==> unsigned_le(bytes) < 0x1_0000_0000,
        bytes.len() <= 5 ==> unsigned_le(bytes) < 0x100_0000_0000,
        bytes.len() <= 6 ==> unsigned_le(bytes) < 0x1_0000_0000_0000,
        bytes.len() <= 7 ==> unsigned_le(bytes) < 0x100_0000_0000_0000,
        bytes.len() <= 8 ==> unsigned_le(bytes) < 0x1_0000_0000_0000_0000,
    decreases bytes.len(),
{
    if bytes.len() > 0 {
        unsigned_le_bound(bytes.skip(1));
    }
}

/// The 64-bit pattern that stands for `v` in two's complement.
pub open spec fn pattern(v: i64) -> nat {
    if v >= 0 {
        v as nat
    } else {
        (v + 0x1_0000_0000_0000_0000) as nat
    }
}

/// The `count` lowest bytes of `p`, least significant first.
pub open spec fn le_bytes(p: nat, count: nat) -> Seq<u8>
    decreases count,
{
    if count == 0 {
        Seq::empty()
    } else {
        seq![(p % 256) as u8] + le_bytes(p / 256, (count - 1) as nat)
    }
}

/// The eight bytes that encode the operand `v`.
pub open spec fn operand_bytes(v: i64) -> Seq<u8> {
    le_bytes(pattern(v), 8)
}

/// What is left of `p` above its `count` lowest bytes.
pub open spec fn above(p: nat, count: nat) -> nat
    decreases count,
{
    if count == 0 {
        p
    } else {
        above(p / 256, (count - 1) as nat)
    }
}

/// The lowest bytes of a number spell it out again, if nothing of it lies above them.
pub proof fn le_bytes_round_trip(p: nat, count: nat)
    requires
        above(p, count) == 0,
    ensures
        le_bytes(p, count).len() == count,
        unsigned_le(le_bytes(p, count)) == p,
    decreases count,
{
    if count > 0 {
        let rest = le_bytes(p / 256, (count - 1) as nat);
        le_bytes_round_trip(p / 256, (count - 1) as nat);
        assert(le_bytes(p, count).skip(1) =~= rest);
    }
}

/// Every operand is read back from its eight bytes, wherever they stand in a program.
pub proof fn operand_round_trip(code: Seq<u8>, at: int, v: i64)
    requires
        0 <= at,
        at + 8 <= code.len(),
        code.subrange(at, at + 8) == operand_bytes(v),
    ensures
        operand_at(code, at) == Some(v),
{
    let p = pattern(v);
    assert(above(p, 8) == 0) by {
        reveal_with_fuel(above, 9);
    }
    le_bytes_round_trip(p, 8);
}

/// Reads the operand that starts at offset `at` of `code`.
///
/// Fails with `TruncatedOperand` exactly if fewer than eight bytes lie
/// between `at` and the end of `code`.
pub fn read_operand(code: &[u8], at: usize) -> (r: Result<i64, VmError>)
    ensures
        match r {
            Ok(v) => operand_at(code@, at as int) == Some(v),
            Err(e) => e == VmError::TruncatedOperand && operand_at(code@, at as int) is None,
        },
{
    let len = code.len();
    if len < OPERAND_LEN || at > len - OPERAND_LEN {
        return Err(VmError::TruncatedOperand);
    }
    let ghost bytes = code@.subrange(at as int, at + 8);
    let mut bits: u64 = 0;
    let mut left: usize = OPERAND_LEN;
    while left > 0
        invariant
            left <= 8,
            len == code@.len(),
            at + 8 <= len,
            bytes == code@.subrange(at as int, at + 8),
            bits == unsigned_le(bytes.skip(left as int)),
        decreases left,
    {
        left -= 1;
        proof {
            assert(bytes.skip(left as int).skip(1) == bytes.skip(left + 1));
            unsigned_le_bound(bytes.skip(left as int));
        }
        bits = bits * 256 + code[at + left] as u64;
    }
    proof {
        assert(bytes.skip(0) == bytes);
    }
    let value = #[verifier::truncate] (bits as i64);
    assert(value == signed(bits as nat)) by (bit_vector)
        requires
            value == bits as i64,
    ;
    Ok(value)
}

} // verus!
