//! The tagged representation of Scheme values in 32-bit machine words.
//!
//! A word carries its kind in its low-order bits. The kinds are told apart by
//! testing, in a fixed order, the bits selected by a mask against a tag:
//!
//! | kind      | mask   | tag           | payload                          |
//! |-----------|--------|---------------|----------------------------------|
//! | fixnum    | `0x03` | 0             | word shifted right by 2 (signed) |
//! | character | `0xff` | 7             | low byte of word shifted by 8    |
//! | boolean   | `0xff` | 15            | word shifted right by 8, nonzero |
//! | heap      | `0x07` | 1, 2, 3, 5, 6 | word with the tag bits cleared   |

use vstd::prelude::*;

verus! {

/// Selects the two bits that tag a fixnum.
pub const FIXNUM_MASK: i32 = 3;

/// The tag of a fixnum under `FIXNUM_MASK`.
pub const FIXNUM_TAG: i32 = 0;

/// How far a fixnum is shifted left to make room for its tag.
pub const FIXNUM_SHIFT: i32 = 2;

/// Selects the byte that tags a character.
pub const CHAR_MASK: i32 = 0xff;

/// How far a character's code point is shifted left.
pub const CHAR_SHIFT: i32 = 8;

/// The tag of a character under `CHAR_MASK`.
pub const CHAR_TAG: i32 = 7;

/// Selects the byte that tags a boolean.
pub const BOOL_MASK: i32 = 0xff;

/// How far a boolean's truth value is shifted left.
pub const BOOL_SHIFT: i32 = 8;

/// The tag of a boolean under `BOOL_MASK`.
pub const BOOL_TAG: i32 = 15;

/// Selects the three bits that tag a heap value.
pub const PTR_MASK: i32 = 7;

/// The tag of a pair under `PTR_MASK`.
pub const PAIR_TAG: i32 = 1;

/// The tag of a vector under `PTR_MASK`.
pub const VEC_TAG: i32 = 2;

/// The tag of a string under `PTR_MASK`.
pub const STR_TAG: i32 = 3;

/// The tag of a symbol under `PTR_MASK`.
pub const SYM_TAG: i32 = 5;

/// The tag of a closure under `PTR_MASK`.
pub const CLOSURE_TAG: i32 = 6;

/// The smallest integer that a fixnum can hold.
pub const FIXNUM_MIN: i32 = -0x2000_0000;

/// The largest integer that a fixnum can hold.
pub const FIXNUM_MAX: i32 = 0x1fff_ffff;

/// What a machine word stands for.
#[derive(Clone, Copy, Debug, PartialEq, Eq)]
pub enum Value {
    /// A signed integer of 30 bits.
    Fixnum(i32),
    /// A character, by its one-byte code point.
    Char(u8),
    /// A truth value.
    Bool(bool),
    /// A pair at the given heap address.
    Pair(i32),
    /// A vector at the given heap address.
    Vector(i32),
    /// A string at the given heap address.
    Str(i32),
    /// A symbol at the given heap address.
    Symbol(i32),
    /// A closure at the given heap address.
    Closure(i32),
    /// A word whose low bits match no tag; it is kept as it came.
    Unknown(i32),
}

/// The bits of `word` that `mask` selects, for a mask of the form `2^k - 1`:
/// the remainder of `word` modulo `mask + 1`, which is never negative.
pub open spec fn tag_bits(word: i32, mask: i32) -> int {
    (word as int) % (mask as int + 1)
}

/// `word` shifted right by `FIXNUM_SHIFT` bits with its sign kept: the
/// quotient of `word` by 4, rounded down.
pub open spec fn above_fixnum_tag(word: i32) -> int {
    (word as int) / 4
}

/// `word` shifted right by `CHAR_SHIFT` bits, which is `BOOL_SHIFT` too, with
/// its sign kept: the quotient of `word` by 256, rounded down.
pub open spec fn above_byte_tag(word: i32) -> int {
    (word as int) / 256
}

/// Whether `word` carries the fixnum tag.
pub open spec fn is_fixnum(word: i32) -> bool {
    tag_bits(word, FIXNUM_MASK) == FIXNUM_TAG
}

/// Whether `word` carries the character tag.
pub open spec fn is_char(word: i32) -> bool {
    tag_bits(word, CHAR_MASK) == CHAR_TAG
}

/// Whether `word` carries the boolean tag.
pub open spec fn is_bool(word: i32) -> bool {
    tag_bits(word, BOOL_MASK) == BOOL_TAG
}

/// Whether `word` carries the tag of one of the five heap kinds.
pub open spec fn is_heap(word: i32) -> bool {
    let tag = tag_bits(word, PTR_MASK);
    tag == PAIR_TAG || tag == VEC_TAG || tag == STR_TAG || tag == SYM_TAG || tag == CLOSURE_TAG
}

/// The address that a heap-tagged word holds: the word with its tag taken off.
pub open spec fn heap_address(word: i32) -> i32 {
    (word as int - tag_bits(word, PTR_MASK)) as i32
}

/// The value that `word` stands for. The tags are tried in the order
/// fixnum, character, boolean, heap kinds; the first that matches decides.
pub open spec fn decode_spec(word: i32) -> Value {
    if is_fixnum(word) {
        Value::Fixnum(above_fixnum_tag(word) as i32)
    } else if is_char(word) {
        Value::Char((above_byte_tag(word) % 256) as u8)
    } else if is_bool(word) {
        Value::Bool(above_byte_tag(word) != 0)
    } else if tag_bits(word, PTR_MASK) == PAIR_TAG {
        Value::Pair(heap_address(word))
    } else if tag_bits(word, PTR_MASK) == VEC_TAG {
        Value::Vector(heap_address(word))
    } else if tag_bits(word, PTR_MASK) == STR_TAG {
        Value::Str(heap_address(word))
    } else if tag_bits(word, PTR_MASK) == SYM_TAG {
        Value::Symbol(heap_address(word))
    } else if tag_bits(word, PTR_MASK) == CLOSURE_TAG {
        Value::Closure(heap_address(word))
    } else {
        Value::Unknown(word)
    }
}

/// Whether `n` fits in a fixnum.
pub open spec fn fits_fixnum(n: int) -> bool {
    FIXNUM_MIN <= n <= FIXNUM_MAX
}

/// Masking and shifting a word, as remainders and quotients.
proof fn lemma_word_bits(word: i32)
    ensures
        (word & 3) as int == (word as int) % 4,
        (word & 0xff) as int == (word as int) % 256,
        (word & 7) as int == (word as int) % 8,
        (word >> 2u32) as int == (word as int) / 4,
        (word >> 8u32) as int == (word as int) / 256,
        ((word >> 8u32) & 0xff) as int == ((word as int) / 256) % 256,
        i32::MIN <= word as int - (word as int) % 8,
{
    assert((word & 3) == word % 4) by (bit_vector);
    assert((word & 0xff) == word % 256) by (bit_vector);
    assert((word & 7) == word % 8) by (bit_vector);
    assert((word >> 2u32) == word / 4) by (bit_vector);
    assert((word >> 8u32) == word / 256) by (bit_vector);
    assert(((word >> 8u32) & 0xff) == (word / 256) % 256) by (bit_vector);
    assert(-0x8000_0000 <= word - (word % 8)) by (bit_vector);
}

/// Decodes a machine word. Every word stands for exactly one value.
pub fn decode(word: i32) -> (value: Value)
    ensures
        value == decode_spec(word),
{
    proof {
        lemma_word_bits(word);
    }
    if word & FIXNUM_MASK == FIXNUM_TAG {
        Value::Fixnum(word >> FIXNUM_SHIFT)
    } else if word & CHAR_MASK == CHAR_TAG {
        let code: i32 = (word >> CHAR_SHIFT) & 0xff;
        Value::Char(code as u8)
    } else if word & BOOL_MASK == BOOL_TAG {
        Value::Bool(word >> BOOL_SHIFT != 0)
    } else {
        let tag: i32 = word & PTR_MASK;
        let address: i32 = word - tag;
        if tag == PAIR_TAG {
            Value::Pair(address)
        } else if tag == VEC_TAG {
            Value::Vector(address)
        } else if tag == STR_TAG {
            Value::Str(address)
        } else if tag == SYM_TAG {
            Value::Symbol(address)
        } else if tag == CLOSURE_TAG {
            Value::Closure(address)
        } else {
            Value::Unknown(word)
        }
    }
}

/// The word that stands for the fixnum `n`: `n` shifted left by
/// `FIXNUM_SHIFT` bits, past the tag.
pub open spec fn fixnum_word(n: int) -> int {
    4 * n
}

/// Packs an integer into a fixnum word, if it fits in 30 bits.
pub fn encode_fixnum(n: i32) -> (word: Option<i32>)
    ensures
        fits_fixnum(n as int) ==> word == Some(fixnum_word(n as int) as i32),
        !fits_fixnum(n as int) ==> word.is_none(),
        word matches Some(w) ==> decode_spec(w) == Value::Fixnum(n),
{
    if FIXNUM_MIN <= n && n <= FIXNUM_MAX {
        proof {
            lemma_fixnum_round_trip(n as int);
            assert(n << 2u32 == 4 * n) by (bit_vector)
                requires
                    -0x2000_0000 <= n <= 0x1fff_ffff,
            ;
        }
        Some(n << FIXNUM_SHIFT)
    } else {
        None
    }
}

/// Decoding the word of a fixnum gives the fixnum back.
pub proof fn lemma_fixnum_round_trip(n: int)
    requires
        fits_fixnum(n),
    ensures
        i32::MIN <= fixnum_word(n) <= i32::MAX,
        decode_spec(fixnum_word(n) as i32) == Value::Fixnum(n as i32),
{
}

/// A word carries at most one tag, so no order of the tests could decode a
/// word in two ways.
pub proof fn lemma_tags_exclusive(word: i32)
    ensures
        !(is_fixnum(word) && is_char(word)),
        !(is_fixnum(word) && is_bool(word)),
        !(is_fixnum(word) && is_heap(word)),
        !(is_char(word) && is_bool(word)),
        !(is_char(word) && is_heap(word)),
        !(is_bool(word) && is_heap(word)),
{
    assert(word % 4 == 0 ==> word % 8 == 0 || word % 8 == 4) by (bit_vector);
    assert(word % 256 == 7 ==> word % 8 == 7 && word % 4 == 3) by (bit_vector);
    assert(word % 256 == 15 ==> word % 8 == 7 && word % 4 == 3) by (bit_vector);
}

} // verus!
