//! What the instructions compute: each operation as a function on 64-bit
//! integers, with its meaning over the mathematical integers.
//!
//! Arithmetic never fails: a result that does not fit in 64 bits wraps around
//! in two's complement. Shifts take their distance modulo 64.

use vstd::prelude::*;
use crate::error::VmError;
use crate::instructions::OP;

verus! {

/// The 64-bit integer that is congruent to `v` modulo 2^64.
pub open spec fn wrap(v: int) -> i64 {
    let low = v % 0x1_0000_0000_0000_0000;
    if low > i64::MAX {
        (low - 0x1_0000_0000_0000_0000) as i64
    } else {
        low as i64
    }
}

/// How `a` compares to `b`: -1 if it is less, 0 if equal, 1 if greater.
pub open spec fn comparison(a: int, b: int) -> int {
    if a < b {
        -1
    } else if a == b {
        0
    } else {
        1
    }
}

/// The quotient of `a` by `b`, rounded towards zero.
pub open spec fn quotient(a: int, b: int) -> int
    recommends
        b != 0,
{
    let magnitude = (if a < 0 { -a } else { a }) / (if b < 0 { -b } else { b });
    if (a < 0) == (b < 0) {
        magnitude
    } else {
        -magnitude
    }
}

/// The number of bit positions that a shift by `dist` moves: `dist` modulo 64.
pub open spec fn shift_distance(dist: i64) -> u32 {
    (dist as int % 64) as u32
}

/// `x` with its bits moved one place up and the top bit brought round to the bottom.
pub open spec fn rotated_left(x: i64) -> i64 {
    wrap(2 * x + (if x < 0 { 1int } else { 0int }))
}

/// `x` with its bits moved one place down and the bottom bit brought round to the top.
pub open spec fn rotated_right(x: i64) -> i64 {
    let pattern = x as int % 0x1_0000_0000_0000_0000;
    wrap(pattern / 2 + (pattern % 2) * 0x8000_0000_0000_0000)
}

/// Whether a conditional jump `op` is taken when `top` is on top of the stack.
pub open spec fn branch_taken(op: OP, top: i64) -> bool {
    match op {
        OP::JE => top == 0,
        OP::JNE => top != 0,
        OP::JL => top == -1,
        OP::JLE => top == -1 || top == 0,
        OP::JG => top == 1,
        OP::JGE => top == 0 || top == 1,
        _ => false,
    }
}

/// What `NOT`, `NEG`, `ROL`, `ROR`, `INC` or `DEC` puts in the place of `x`.
/// No other opcode changes it.
pub open spec fn unary_result(op: OP, x: i64) -> i64 {
    match op {
        OP::NOT => !x,
        OP::NEG => wrap(-x),
        OP::ROL => rotated_left(x),
        OP::ROR => rotated_right(x),
        OP::INC => wrap(x + 1),
        OP::DEC => wrap(x - 1),
        _ => x,
    }
}

/// Two to the power of `k`.
pub open spec fn two_to(k: nat) -> int
    decreases k,
{
    if k == 0 {
        1
    } else {
        2 * two_to((k - 1) as nat)
    }
}

/// What `SHL` or `SHR` with operand `dist` puts in the place of `x`.
/// No other opcode changes it.
///
/// A shift to the left by `k` places multiplies by two to the power of `k`
/// and wraps around; a shift to the right divides by it and rounds down, so
/// that a negative value stays negative.
pub open spec fn shift_result(op: OP, x: i64, dist: i64) -> i64 {
    match op {
        OP::SHL => wrap(x * two_to(shift_distance(dist) as nat)),
        OP::SHR => (x as int / two_to(shift_distance(dist) as nat)) as i64,
        _ => x,
    }
}

/// What a two-operand instruction makes of `upper`, the value on top of the
/// stack, and `lower`, the value beneath it. The lower value was pushed
/// first: it is the minuend of `SUB` and the dividend of `DIV`.
pub open spec fn binary_result(op: OP, upper: i64, lower: i64) -> Result<i64, VmError> {
    match op {
        OP::CMP => Ok(comparison(lower as int, upper as int) as i64),
        OP::AND => Ok(upper & lower),
        OP::OR => Ok(upper | lower),
        OP::XOR => Ok(upper ^ lower),
        OP::ADD => Ok(wrap(upper + lower)),
        OP::SUB => Ok(wrap(lower - upper)),
        OP::MUL => Ok(wrap(upper * lower)),
        OP::DIV => if upper == 0 {
            Err(VmError::DivisionByZero)
        } else {
            Ok(wrap(quotient(lower as int, upper as int)))
        },
        _ => Ok(upper),
    }
}

/// Decides a conditional jump.
pub fn test_branch(op: OP, top: i64) -> (taken: bool)
    ensures
        taken == branch_taken(op, top),
{
    match op {
        OP::JE => top == 0,
        OP::JNE => top != 0,
        OP::JL => top == -1,
        OP::JLE => top == -1 || top == 0,
        OP::JG => top == 1,
        OP::JGE => top == 0 || top == 1,
        _ => false,
    }
}

/// Rotates `x` left by one bit.
pub fn rotate_left(x: i64) -> (r: i64)
    ensures
        r == rotated_left(x),
{
    let pattern = #[verifier::truncate] (x as u64);
    let turned = (pattern << 1) | (pattern >> 63);
    let r = #[verifier::truncate] (turned as i64);
    assert(r == rotated_left(x)) by (bit_vector)
        requires
            r == ((((x as u64) << 1) | ((x as u64) >> 63)) as i64),
    ;
    r
}

/// Rotates `x` right by one bit.
pub fn rotate_right(x: i64) -> (r: i64)
    ensures
        r == rotated_right(x),
{
    let pattern = #[verifier::truncate] (x as u64);
    let turned = (pattern >> 1) | (pattern << 63);
    let r = #[verifier::truncate] (turned as i64);
    assert(r == rotated_right(x)) by (bit_vector)
        requires
            r == ((((x as u64) >> 1) | ((x as u64) << 63)) as i64),
    ;
    r
}

/// Carries out `NOT`, `NEG`, `ROL`, `ROR`, `INC` or `DEC` on `x`; for any
/// other opcode `x` comes back as it is.
pub fn unary(op: OP, x: i64) -> (r: i64)
    ensures
        r == unary_result(op, x),
{
    match op {
        OP::NOT => !x,
        OP::NEG => 0i64.wrapping_sub(x),
        OP::ROL => rotate_left(x),
        OP::ROR => rotate_right(x),
        OP::INC => x.wrapping_add(1),
        OP::DEC => x.wrapping_sub(1),
        _ => x,
    }
}

/// The complement of every bit of `x` is `-x - 1`.
pub proof fn complement_is_one_less_than_negation(x: i64)
    ensures
        !x == -x - 1,
{
    assert(!x == -x - 1) by (bit_vector);
}

/// No power of two is zero or less.
pub proof fn two_to_is_positive(k: nat)
    ensures
        two_to(k) > 0,
    decreases k,
{
    if k > 0 {
        two_to_is_positive((k - 1) as nat);
    }
}

/// Moving the bits of `x` up by `k` places multiplies it by two to the
/// power of `k`, modulo 2^64.
proof fn shl_multiplies(x: i64, k: u32)
    requires
        k < 64,
    ensures
        x << k == wrap(x * two_to(k as nat)),
    decreases k,
{
    if k == 0 {
        assert(x << 0u32 == x) by (bit_vector);
        assert(x * 1 == x);
    } else {
        let j = (k - 1) as u32;
        shl_multiplies(x, j);
        let y = x << j;
        let z = x * two_to(j as nat);
        assert(x << k == (x << j) << 1u32) by (bit_vector)
            requires
                0 < k < 64,
                j == k - 1,
        ;
        assert(y << 1u32 == wrap(2 * y)) by (bit_vector);
        assert(wrap(2 * wrap(z)) == wrap(2 * z)) by {
            vstd::arithmetic::div_mod::lemma_mul_mod_noop_right(2, z, 0x1_0000_0000_0000_0000);
        }
        assert(2 * z == x * two_to(k as nat)) by (nonlinear_arith)
            requires
                z == x * two_to(j as nat),
                two_to(k as nat) == 2 * two_to(j as nat),
        ;
    }
}

/// Moving the bits of `x` down by `k` places, the sign filling in from
/// above, divides it by two to the power of `k` and rounds down.
proof fn shr_divides(x: i64, k: u32)
    requires
        k < 64,
    ensures
        x >> k == x as int / two_to(k as nat),
    decreases k,
{
    if k == 0 {
        assert(x >> 0u32 == x) by (bit_vector);
    } else {
        let j = (k - 1) as u32;
        shr_divides(x, j);
        two_to_is_positive(j as nat);
        let p = two_to(j as nat);
        let y = x >> j;
        assert(x >> k == (x >> j) >> 1u32) by (bit_vector)
            requires
                0 < k < 64,
                j == k - 1,
        ;
        let half = y >> 1u32;
        let low = y - 2 * half;
        assert(0 <= y - 2 * (y >> 1u32) <= 1) by (bit_vector);
        let r = x as int % p;
        vstd::arithmetic::div_mod::lemma_fundamental_div_mod(x as int, p);
        vstd::arithmetic::div_mod::lemma_mod_bound(x as int, p);
        assert(x == (2 * p) * half + (p * low + r)) by (nonlinear_arith)
            requires
                x == p * y + r,
                y == 2 * half + low,
        ;
        assert(0 <= p * low + r < 2 * p) by (nonlinear_arith)
            requires
                0 <= low <= 1,
                0 <= r < p,
        ;
        vstd::arithmetic::div_mod::lemma_fundamental_div_mod_converse(
            x as int,
            2 * p,
            half as int,
            p * low + r,
        );
    }
}

/// Carries out `SHL` or `SHR` on `x` with the operand `dist`; for any other
/// opcode `x` comes back as it is.
pub fn shift(op: OP, x: i64, dist: i64) -> (r: i64)
    ensures
        r == shift_result(op, x, dist),
{
    let places = #[verifier::truncate] ((dist & 63) as u32);
    assert(places == shift_distance(dist) && places < 64) by (bit_vector)
        requires
            places == (dist & 63) as u32,
    ;
    proof {
        shl_multiplies(x, places);
        shr_divides(x, places);
    }
    match op {
        OP::SHL => x.wrapping_shl(places),
        OP::SHR => x.wrapping_shr(places),
        _ => x,
    }
}

/// Carries out a two-operand instruction on `upper`, the value on top of the
/// stack, and `lower`, the value beneath it.
///
/// Only `DIV` can fail, and only with `DivisionByZero`: exactly if `upper`
/// is zero. For an opcode that takes no two operands `upper` comes back.
pub fn binary(op: OP, upper: i64, lower: i64) -> (r: Result<i64, VmError>)
    ensures
        r == binary_result(op, upper, lower),
{
    match op {
        OP::CMP => if lower < upper {
            Ok(-1)
        } else if lower == upper {
            Ok(0)
        } else {
            Ok(1)
        },
        OP::AND => Ok(upper & lower),
        OP::OR => Ok(upper | lower),
        OP::XOR => Ok(upper ^ lower),
        OP::ADD => Ok(upper.wrapping_add(lower)),
        OP::SUB => Ok(lower.wrapping_sub(upper)),
        OP::MUL => Ok(upper.wrapping_mul(lower)),
        OP::DIV => if upper == 0 {
            Err(VmError::DivisionByZero)
        } else {
            Ok(divide(lower, upper))
        },
        _ => Ok(upper),
    }
}

/// Divides `a` by `b`, rounding towards zero. The one quotient that does not
/// fit, that of the least integer by -1, wraps around to the least integer.
fn divide(a: i64, b: i64) -> (q: i64)
    requires
        b != 0,
    ensures
        q == wrap(quotient(a as int, b as int)),
{
    match a.checked_div(b) {
        Some(q) => q,
        None => i64::MIN,
    }
}

} // verus!
