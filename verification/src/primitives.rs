//! Condition-code primitives over 32-bit machine words.
//!
//! Each stands for one machine instruction that reads the processor's flags,
//! computed with plain integer logic instead. All three are pure.

use vstd::prelude::*;

verus! {

/// The byte that a set-on-condition instruction writes when the condition
/// holds: all eight bits set.
pub const BYTE_SET: i32 = 0xff;

/// The byte that a set-on-condition instruction writes when the condition
/// does not hold. No caller is known to have looked at it; it is taken to be
/// the complement of `BYTE_SET` within the byte.
pub const BYTE_CLEAR: i32 = 0x00;

/// What `set_on_equal` returns for a flag: it depends on nothing else.
pub open spec fn byte_for_flag(flag: i32) -> i32 {
    if flag != 0 {
        BYTE_SET
    } else {
        BYTE_CLEAR
    }
}

/// Sets a byte on the zero flag: `BYTE_SET` when `flag` is not zero,
/// `BYTE_CLEAR` when it is. The second operand mirrors the shape of the
/// machine instruction and is not read.
pub fn set_on_equal(flag: i32, operand: i32) -> (byte: i32)
    ensures
        byte == byte_for_flag(flag),
{
    if flag != 0 {
        BYTE_SET
    } else {
        BYTE_CLEAR
    }
}

/// The number of bits in a machine word.
pub const WORD_BITS: i32 = 32;

/// Shifts `value` left by `amount` bits. Bits that leave the word are lost;
/// zeros come in from the right. An amount outside `0..WORD_BITS` has no
/// defined result and is not accepted.
pub fn shift_left(value: i32, amount: i32) -> (shifted: i32)
    requires
        0 <= amount < WORD_BITS,
    ensures
        shifted == value << (amount as u32),
{
    value << (amount as u32)
}

/// The sign of `a - b` over the integers: -1, 0 or 1.
pub open spec fn sign_of_difference(a: int, b: int) -> int {
    if a < b {
        -1
    } else if a == b {
        0
    } else {
        1
    }
}

/// Compares two words as signed integers: -1 when `a < b`, 0 when they are
/// equal, 1 when `a > b`.
pub fn compare_three_way(a: i32, b: i32) -> (sign: i32)
    ensures
        sign == sign_of_difference(a as int, b as int),
{
    if a < b {
        -1
    } else if a == b {
        0
    } else {
        1
    }
}

/// Swapping the operands of a comparison negates its result, and a word
/// compares equal to itself.
pub proof fn lemma_compare_antisymmetric(a: int, b: int)
    ensures
        sign_of_difference(a, b) == -sign_of_difference(b, a),
        sign_of_difference(a, a) == 0,
{
}

} // verus!
