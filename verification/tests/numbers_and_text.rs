use clap_validator::double::Double;
use clap_validator::text::{
    c_char_slice_to_string, characters, decimal_text, string_to_c_string, TextError,
};

fn double(value: f64) -> Double {
    Double {
        bits: value.to_bits(),
    }
}

fn samples() -> Vec<f64> {
    vec![
        0.0,
        -0.0,
        1.0,
        -1.0,
        0.5,
        -0.5,
        0.1,
        1.5,
        2.0,
        -2.5,
        3.0,
        1e-300,
        -1e-300,
        1e300,
        -1e300,
        f64::MIN_POSITIVE,
        f64::MIN_POSITIVE / 2.0,
        5e-324,
        -5e-324,
        f64::MAX,
        f64::MIN,
        f64::INFINITY,
        f64::NEG_INFINITY,
        f64::NAN,
        -f64::NAN,
        4503599627370495.5,
        4503599627370496.0,
        4503599627370497.0,
        9007199254740991.0,
        2251799813685247.75,
        1.0 - f64::EPSILON,
        1.0 + f64::EPSILON,
        1024.0,
        1024.25,
    ]
}

#[test]
fn doubles_are_ordered_like_their_values() {
    for left in samples() {
        for right in samples() {
            assert_eq!(double(left).above(double(right)), left > right);
            assert_eq!(double(left).at_most(double(right)), left <= right);
        }
    }
}

#[test]
fn doubles_are_whole_if_nothing_is_cut_off() {
    for value in samples() {
        assert_eq!(double(value).whole(), value == value.trunc());
    }
}

#[test]
fn numbers_are_written_in_decimal() {
    assert_eq!(decimal_text(0), "0");
    assert_eq!(decimal_text(1234567890), "1234567890");
    assert_eq!(decimal_text(u64::MAX), u64::MAX.to_string());
}

#[test]
fn characters_are_listed() {
    assert_eq!(characters("a\u{e9}/"), vec!['a', '\u{e9}', '/']);
    assert!(characters("").is_empty());
}

#[test]
fn text_ends_at_the_first_zero_byte() {
    assert_eq!(c_char_slice_to_string(b"ab\0cd\0"), Ok("ab".to_string()));
    assert_eq!(c_char_slice_to_string(b"\0"), Ok(String::new()));
    assert_eq!(
        c_char_slice_to_string(b"Gr\xc3\xb6\xc3\x9fe\0\xff"),
        Ok("Gr\u{f6}\u{df}e".to_string())
    );
    assert_eq!(
        c_char_slice_to_string(b"abc"),
        Err(TextError::NotTerminated)
    );
    assert_eq!(c_char_slice_to_string(b""), Err(TextError::NotTerminated));
    assert_eq!(
        c_char_slice_to_string(b"\xc3\x28\0"),
        Err(TextError::NotUtf8)
    );
    assert_eq!(
        c_char_slice_to_string(b"\xed\xa0\x80\0"),
        Err(TextError::NotUtf8)
    );
}

#[test]
fn text_is_written_with_a_zero_byte() {
    assert_eq!(string_to_c_string("ab"), Ok(b"ab\0".to_vec()));
    assert_eq!(string_to_c_string(""), Ok(b"\0".to_vec()));
    assert_eq!(string_to_c_string("a\u{e9}\0b\0"), Err(3));
}

#[test]
fn written_text_can_be_read() {
    for text in ["", "plain", "Gr\u{f6}\u{df}e", "\u{1f3b9}\u{266b}"] {
        let bytes = string_to_c_string(text).unwrap();
        assert_eq!(c_char_slice_to_string(&bytes), Ok(text.to_string()));
    }
}
