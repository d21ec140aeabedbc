//! The tagged words, the primitives and the external forms, on given values.

use scheme_runtime::primitives::{
    compare_three_way, set_on_equal, shift_left, BYTE_CLEAR, BYTE_SET, WORD_BITS,
};
use scheme_runtime::render::{render, UnsupportedVariantError};
use scheme_runtime::tags::{decode, encode_fixnum, Value, FIXNUM_MAX, FIXNUM_MIN};

#[test]
fn set_on_equal_sets_the_byte_on_a_true_flag() {
    assert_eq!(set_on_equal(1, 20), 0xff);
    assert_eq!(set_on_equal(-1, 0), 0xff);
    assert_eq!(set_on_equal(i32::MIN, 7), BYTE_SET);
}

#[test]
fn set_on_equal_clears_the_byte_on_a_false_flag() {
    // No caller shows what a false flag gives; the complement is assumed.
    assert_eq!(set_on_equal(0, 20), 0x00);
    assert_eq!(set_on_equal(0, 0), BYTE_CLEAR);
}

#[test]
fn set_on_equal_ignores_its_second_operand() {
    for flag in [-3, 0, 1, 255] {
        for operand in [i32::MIN, -1, 0, 20, i32::MAX] {
            assert_eq!(set_on_equal(flag, operand), set_on_equal(flag, 0));
        }
    }
}

#[test]
fn shift_left_is_the_native_shift() {
    assert_eq!(shift_left(4, 8), 1024);
    assert_eq!(shift_left(4, 8), 4 << 8);
    assert_eq!(shift_left(1, 0), 1);
    assert_eq!(shift_left(1, 31), i32::MIN);
    assert_eq!(shift_left(-1, 4), -16);
    assert_eq!(shift_left(0x4000_0001, 2), 4);
    assert_eq!(WORD_BITS, 32);
    for value in [i32::MIN, -7, 0, 3, i32::MAX] {
        for amount in 0..WORD_BITS {
            assert_eq!(shift_left(value, amount), value << amount);
        }
    }
}

#[test]
fn compare_three_way_gives_the_sign() {
    assert_eq!(compare_three_way(4, 8), -1);
    assert_eq!(compare_three_way(4, 4), 0);
    assert_eq!(compare_three_way(8, 4), 1);
    assert_eq!(compare_three_way(i32::MIN, i32::MAX), -1);
    assert_eq!(compare_three_way(i32::MAX, i32::MIN), 1);
    assert_eq!(compare_three_way(-1, 0), -1);
}

#[test]
fn compare_three_way_is_antisymmetric() {
    let words = [i32::MIN, -8, -1, 0, 1, 4, 8, i32::MAX];
    for a in words {
        assert_eq!(compare_three_way(a, a), 0);
        for b in words {
            assert_eq!(compare_three_way(a, b), -compare_three_way(b, a));
        }
    }
}

#[test]
fn decode_tells_the_kinds_apart() {
    assert_eq!(decode(0), Value::Fixnum(0));
    assert_eq!(decode(168), Value::Fixnum(42));
    assert_eq!(decode(-4), Value::Fixnum(-1));
    assert_eq!(decode(i32::MIN), Value::Fixnum(FIXNUM_MIN));
    assert_eq!(decode(0x7fff_fffc), Value::Fixnum(FIXNUM_MAX));
    assert_eq!(decode(0x6107), Value::Char(0x61));
    assert_eq!(decode(0x0007), Value::Char(0));
    assert_eq!(decode(0x0012_4107), Value::Char(0x41));
    assert_eq!(decode(-0xf9), Value::Char(0xff));
    assert_eq!(decode(0x000f), Value::Bool(false));
    assert_eq!(decode(0x010f), Value::Bool(true));
    assert_eq!(decode(0xff0f), Value::Bool(true));
    assert_eq!(decode(-0xf1), Value::Bool(true));
    assert_eq!(decode(0x1001), Value::Pair(0x1000));
    assert_eq!(decode(0x1002), Value::Vector(0x1000));
    assert_eq!(decode(0x1003), Value::Str(0x1000));
    assert_eq!(decode(0x1005), Value::Symbol(0x1000));
    assert_eq!(decode(0x1006), Value::Closure(0x1000));
    assert_eq!(decode(-7), Value::Pair(-8));
    assert_eq!(decode(0x17), Value::Unknown(0x17));
    assert_eq!(decode(-1), Value::Unknown(-1));
}

#[test]
fn decode_tries_the_fixnum_tag_first() {
    // The low byte of 0x700 is zero, so no wider tag is looked at.
    assert_eq!(decode(0x0700), Value::Fixnum(0x1c0));
    assert_eq!(decode(0x0f00), Value::Fixnum(0x3c0));
    assert_eq!(decode(4), Value::Fixnum(1));
}

#[test]
fn encode_fixnum_round_trips() {
    for n in [FIXNUM_MIN, -1000, -1, 0, 1, 42, 1000, FIXNUM_MAX] {
        let word = encode_fixnum(n).expect("it fits");
        assert_eq!(word, n << 2);
        assert_eq!(decode(word), Value::Fixnum(n));
    }
    assert_eq!(encode_fixnum(42), Some(168));
    assert_eq!(encode_fixnum(-1), Some(-4));
    assert_eq!(encode_fixnum(FIXNUM_MIN), Some(i32::MIN));
}

#[test]
fn encode_fixnum_refuses_what_does_not_fit() {
    assert_eq!(encode_fixnum(FIXNUM_MAX + 1), None);
    assert_eq!(encode_fixnum(FIXNUM_MIN - 1), None);
    assert_eq!(encode_fixnum(i32::MAX), None);
    assert_eq!(encode_fixnum(i32::MIN), None);
    assert_eq!(FIXNUM_MAX, 536_870_911);
    assert_eq!(FIXNUM_MIN, -536_870_912);
}

#[test]
fn render_prints_integers_in_decimal() {
    assert_eq!(render(0), Ok("0".to_string()));
    assert_eq!(render(168), Ok("42".to_string()));
    assert_eq!(render(-4), Ok("-1".to_string()));
    assert_eq!(render(40), Ok("10".to_string()));
    assert_eq!(render(4 * 1_000_000), Ok("1000000".to_string()));
    assert_eq!(render(-4 * 90_210), Ok("-90210".to_string()));
    assert_eq!(render(0x7fff_fffc), Ok("536870911".to_string()));
    assert_eq!(render(i32::MIN), Ok("-536870912".to_string()));
}

#[test]
fn render_prints_characters_behind_hash_backslash() {
    assert_eq!(render(0x6107), Ok("#\\a".to_string()));
    assert_eq!(render(0x5a07), Ok("#\\Z".to_string()));
    assert_eq!(render(0x2007), Ok("#\\ ".to_string()));
    assert_eq!(render(0xe907), Ok("#\\\u{e9}".to_string()));
}

#[test]
fn render_prints_booleans() {
    assert_eq!(render(0x010f), Ok("#t".to_string()));
    assert_eq!(render(0x000f), Ok("#f".to_string()));
    assert_eq!(render(0x7f0f), Ok("#t".to_string()));
}

#[test]
fn render_refuses_heap_values_and_unknown_words() {
    for word in [0x1001, 0x1002, 0x1003, 0x1005, 0x1006, 0x17, -1] {
        assert_eq!(render(word), Err(UnsupportedVariantError { word }));
    }
}

#[test]
fn render_matches_the_standard_formatting_of_integers() {
    for n in [FIXNUM_MIN, -123_456, -10, -9, 0, 9, 10, 99, 100, 101, 65_535, FIXNUM_MAX] {
        let word = encode_fixnum(n).expect("it fits");
        assert_eq!(render(word), Ok(format!("{}", n)));
    }
}
