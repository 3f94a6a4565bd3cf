//! Text: numbers in decimal, and strings as they cross a C interface.
use vstd::prelude::*;
use vstd::string::*;

verus! {

/// The digit of a number below ten.
pub open spec fn digit(number: nat) -> Seq<char> {
    if number == 0 {
        "0"@
    } else if number == 1 {
        "1"@
    } else if number == 2 {
        "2"@
    } else if number == 3 {
        "3"@
    } else if number == 4 {
        "4"@
    } else if number == 5 {
        "5"@
    } else if number == 6 {
        "6"@
    } else if number == 7 {
        "7"@
    } else if number == 8 {
        "8"@
    } else {
        "9"@
    }
}

/// A number in decimal, without leading zeros.
pub open spec fn decimal(number: nat) -> Seq<char>
    decreases number,
{
    if number < 10 {
        digit(number)
    } else {
        decimal(number / 10) + digit(number % 10)
    }
}

/// Writes one digit.
fn digit_text(number: u64) -> (text: &'static str)
    requires
        number < 10,
    ensures
        text@ == digit(number as nat),
{
    if number == 0 {
        "0"
    } else if number == 1 {
        "1"
    } else if number == 2 {
        "2"
    } else if number == 3 {
        "3"
    } else if number == 4 {
        "4"
    } else if number == 5 {
        "5"
    } else if number == 6 {
        "6"
    } else if number == 7 {
        "7"
    } else if number == 8 {
        "8"
    } else {
        "9"
    }
}

/// Writes a number in decimal.
pub fn decimal_text(number: u64) -> (text: String)
    ensures
        text@ == decimal(number as nat),
    decreases number,
{
    if number < 10 {
        digit_text(number).to_owned()
    } else {
        let mut text = decimal_text(number / 10);
        text.append(digit_text(number % 10));
        text
    }
}

/// The characters of a text, one after the other.
pub fn characters(text: &str) -> (result: Vec<char>)
    ensures
        result@ == text@,
{
    let mut result: Vec<char> = Vec::new();
    for character in iter: text.chars()
        invariant
            result@ == iter.seq().take(iter.index()),
            iter.seq() == text@,
    {
        result.push(character);
    }
    result
}

/// Why a buffer of characters holds no readable text.
#[derive(Debug, Clone, Copy, PartialEq, Eq, Structural)]
pub enum TextError {
    /// No byte of the buffer is zero, so that nothing says where the text ends.
    NotTerminated,
    /// What stands before the first zero byte is not valid UTF-8.
    NotUtf8,
}

/// Whether the first zero byte stands at a position.
pub open spec fn is_first_nul(bytes: Seq<u8>, at: int) -> bool {
    &&& 0 <= at < bytes.len()
    &&& bytes[at] == 0
    &&& forall|before: int| 0 <= before < at ==> bytes[before] != 0
}

/// The position of the first zero byte, if there is one.
pub open spec fn first_nul(bytes: Seq<u8>) -> Option<int> {
    if exists|at: int| is_first_nul(bytes, at) {
        Some(choose|at: int| is_first_nul(bytes, at))
    } else {
        None
    }
}

/// The text that a buffer holds: what stands before its first zero byte, read as UTF-8.
pub open spec fn buffer_text(buffer: Seq<u8>) -> Result<Seq<char>, TextError> {
    match first_nul(buffer) {
        None => Err(TextError::NotTerminated),
        Some(end) => if vstd::utf8::valid_utf8(buffer.take(end)) {
            Ok(vstd::utf8::decode_utf8(buffer.take(end)))
        } else {
            Err(TextError::NotUtf8)
        },
    }
}

/// Finds the first zero byte.
fn find_nul(bytes: &[u8]) -> (position: Option<usize>)
    ensures
        match position {
            Some(at) => first_nul(bytes@) == Some(at as int) && at < bytes@.len(),
            None => first_nul(bytes@) is None,
        },
        position matches Some(at) ==> bytes@[at as int] == 0 && forall|i: int|
            0 <= i < at ==> bytes@[i] != 0,
        position is None ==> forall|i: int| 0 <= i < bytes@.len() ==> bytes@[i] != 0,
{
    let mut at: usize = 0;
    while at < bytes.len()
        invariant
            at <= bytes@.len(),
            forall|before: int| 0 <= before < at ==> bytes@[before] != 0,
        decreases bytes@.len() - at,
    {
        if bytes[at] == 0 {
            assert(is_first_nul(bytes@, at as int));
            return Some(at);
        }
        at = at + 1;
    }
    None
}

/// Reads bytes as UTF-8 with `String::from_utf8`.
///
/// Trusted: the call succeeds exactly on valid UTF-8, and then gives the characters that the bytes
/// encode.
#[verifier::external_body]
fn string_from_utf8(bytes: Vec<u8>) -> (text: Option<String>)
    ensures
        text is Some <==> vstd::utf8::valid_utf8(bytes@),
        text matches Some(string) ==> string@ == vstd::utf8::decode_utf8(bytes@),
{
    String::from_utf8(bytes).ok()
}

/// Reads the text in a buffer that ends with a zero byte, or says why it cannot be read.
pub fn c_char_slice_to_string(slice: &[u8]) -> (result: Result<String, TextError>)
    ensures
        match result {
            Ok(text) => buffer_text(slice@) == Ok::<Seq<char>, TextError>(text@),
            Err(error) => buffer_text(slice@) == Err::<Seq<char>, TextError>(error),
        },
        result matches Ok(text) ==> exists|end: int|
            0 <= end < slice@.len() && #[trigger] slice@[end] == 0 && (forall|i: int|
                0 <= i < end ==> slice@[i] != 0) && vstd::utf8::encode_utf8(text@) == slice@.take(
                end,
            ),
        result == Err::<String, TextError>(TextError::NotTerminated) ==> forall|i: int|
            0 <= i < slice@.len() ==> slice@[i] != 0,
        result == Err::<String, TextError>(TextError::NotUtf8) ==> exists|end: int|
            0 <= end < slice@.len() && #[trigger] slice@[end] == 0 && (forall|i: int|
                0 <= i < end ==> slice@[i] != 0) && !vstd::utf8::valid_utf8(slice@.take(end)),
{
    match find_nul(slice) {
        None => Err(TextError::NotTerminated),
        Some(end) => {
            let mut bytes: Vec<u8> = Vec::new();
            let mut at: usize = 0;
            while at < end
                invariant
                    at <= end < slice@.len(),
                    bytes@ == slice@.take(at as int),
                decreases end - at,
            {
                bytes.push(slice[at]);
                at = at + 1;
            }
            assert(slice@[end as int] == 0);
            match string_from_utf8(bytes) {
                Some(text) => {
                    proof {
                        vstd::utf8::decode_utf8_encode_utf8(bytes@);
                    }
                    Ok(text)
                },
                None => Err(TextError::NotUtf8),
            }
        },
    }
}

/// The bytes of a text with a zero byte behind them, or the position of a zero byte within the
/// text, for which there is no such form.
pub open spec fn c_string(text: Seq<char>) -> Result<Seq<u8>, int> {
    match first_nul(vstd::utf8::encode_utf8(text)) {
        Some(at) => Err(at),
        None => Ok(vstd::utf8::encode_utf8(text).push(0u8)),
    }
}

/// Writes a text as bytes with a zero byte behind them. Gives the position of the first zero byte
/// if the text holds one.
pub fn string_to_c_string(text: &str) -> (result: Result<Vec<u8>, usize>)
    ensures
        match result {
            Ok(bytes) => c_string(text@) == Ok::<Seq<u8>, int>(bytes@),
            Err(at) => c_string(text@) == Err::<Seq<u8>, int>(at as int),
        },
        result matches Ok(bytes) ==> bytes@ == vstd::utf8::encode_utf8(text@).push(0u8) && forall|
            i: int,
        |
            0 <= i < vstd::utf8::encode_utf8(text@).len() ==> vstd::utf8::encode_utf8(text@)[i]
                != 0,
        result matches Err(at) ==> at < vstd::utf8::encode_utf8(text@).len()
            && vstd::utf8::encode_utf8(text@)[at as int] == 0 && forall|i: int|
            0 <= i < at ==> vstd::utf8::encode_utf8(text@)[i] != 0,
{
    let bytes = text.as_bytes();
    match find_nul(bytes) {
        Some(at) => Err(at),
        None => {
            let mut result: Vec<u8> = Vec::new();
            let mut at: usize = 0;
            while at < bytes.len()
                invariant
                    at <= bytes@.len(),
                    result@ == bytes@.take(at as int),
                decreases bytes@.len() - at,
            {
                result.push(bytes[at]);
                at = at + 1;
            }
            assert(result@ == bytes@);
            result.push(0);
            Ok(result)
        },
    }
}

/// Reading gives back what was written: the text in the bytes of a text with a zero byte behind
/// them is that text.
pub proof fn law_c_string_round_trip(text: Seq<char>)
    ensures
        c_string(text) matches Ok(bytes) ==> buffer_text(bytes) == Ok::<Seq<char>, TextError>(text),
{
    let encoded = vstd::utf8::encode_utf8(text);
    if first_nul(encoded) is None {
        let bytes = encoded.push(0u8);
        let end = encoded.len() as int;
        assert forall|at: int| 0 <= at < end implies encoded[at] != 0 by {
            if encoded[at] == 0 {
                lemma_some_nul_is_first(encoded, at);
            }
        }
        assert(is_first_nul(bytes, end));
        assert(bytes.take(end) =~= encoded);
        vstd::utf8::encode_utf8_valid_utf8(text);
        vstd::utf8::encode_utf8_decode_utf8(text);
    }
}

/// Where there is a zero byte, there is a first one.
proof fn lemma_some_nul_is_first(bytes: Seq<u8>, at: int)
    requires
        0 <= at < bytes.len(),
        bytes[at] == 0,
    ensures
        first_nul(bytes) is Some,
    decreases at,
{
    if exists|before: int| 0 <= before < at && bytes[before] == 0 {
        let before = choose|before: int| 0 <= before < at && bytes[before] == 0;
        lemma_some_nul_is_first(bytes, before);
    } else {
        assert(is_first_nul(bytes, at));
    }
}

/// What a buffer holds: whatever stands before the first zero byte. A text that was written in UTF-8
/// with a zero byte behind it is read back in full, whatever its length and whatever stands behind
/// it.
pub proof fn law_buffer_holds_what_was_written(buffer: Seq<u8>, text: Seq<char>)
    requires
        vstd::utf8::encode_utf8(text).len() < buffer.len(),
        buffer.take(vstd::utf8::encode_utf8(text).len() as int) == vstd::utf8::encode_utf8(text),
        buffer[vstd::utf8::encode_utf8(text).len() as int] == 0,
        forall|i: int|
            0 <= i < vstd::utf8::encode_utf8(text).len() ==> vstd::utf8::encode_utf8(text)[i] != 0,
    ensures
        buffer_text(buffer) == Ok::<Seq<char>, TextError>(text),
{
    let encoded = vstd::utf8::encode_utf8(text);
    let end = encoded.len() as int;
    assert forall|i: int| 0 <= i < end implies buffer[i] != 0 by {
        assert(buffer.take(end)[i] == encoded[i]);
    }
    assert(is_first_nul(buffer, end));
    vstd::utf8::encode_utf8_valid_utf8(text);
    vstd::utf8::encode_utf8_decode_utf8(text);
}

/// Which buffers cannot be read: those without a zero byte, and those with something other than
/// UTF-8 before the first one. From every other buffer the text whose UTF-8 stands before the first
/// zero byte is read.
pub proof fn law_readable_buffers(buffer: Seq<u8>, end: int)
    ensures
        buffer_text(buffer) == Err::<Seq<char>, TextError>(TextError::NotTerminated) <==> forall|
            i: int,
        |
            0 <= i < buffer.len() ==> buffer[i] != 0,
        0 <= end < buffer.len() && buffer[end] == 0 && (forall|i: int|
            0 <= i < end ==> buffer[i] != 0) ==> {
            &&& buffer_text(buffer) is Ok <==> vstd::utf8::valid_utf8(buffer.take(end))
            &&& buffer_text(buffer) is Err ==> buffer_text(buffer) == Err::<Seq<char>, TextError>(
                TextError::NotUtf8,
            )
            &&& buffer_text(buffer) matches Ok(text) ==> vstd::utf8::encode_utf8(text)
                == buffer.take(end)
        },
{
    if exists|i: int| 0 <= i < buffer.len() && buffer[i] == 0 {
        let i = choose|i: int| 0 <= i < buffer.len() && buffer[i] == 0;
        lemma_some_nul_is_first(buffer, i);
    }
    if 0 <= end < buffer.len() && buffer[end] == 0 && (forall|i: int|
        0 <= i < end ==> buffer[i] != 0) {
        assert(is_first_nul(buffer, end));
        if vstd::utf8::valid_utf8(buffer.take(end)) {
            vstd::utf8::decode_utf8_encode_utf8(buffer.take(end));
        }
    }
}

/// What a text becomes for C: its UTF-8 with a zero byte behind it. There is no such form exactly if
/// the UTF-8 has a zero byte, and then the position of the first one is given.
pub proof fn law_c_strings(text: Seq<char>)
    ensures
        c_string(text) is Ok <==> forall|i: int|
            0 <= i < vstd::utf8::encode_utf8(text).len() ==> vstd::utf8::encode_utf8(text)[i] != 0,
        c_string(text) matches Ok(bytes) ==> bytes == vstd::utf8::encode_utf8(text).push(0u8),
        c_string(text) matches Err(at) ==> 0 <= at < vstd::utf8::encode_utf8(text).len()
            && vstd::utf8::encode_utf8(text)[at] == 0 && forall|i: int|
            0 <= i < at ==> vstd::utf8::encode_utf8(text)[i] != 0,
{
    let encoded = vstd::utf8::encode_utf8(text);
    if exists|i: int| 0 <= i < encoded.len() && encoded[i] == 0 {
        let i = choose|i: int| 0 <= i < encoded.len() && encoded[i] == 0;
        lemma_some_nul_is_first(encoded, i);
    }
}

/// The number that a row of decimal digits stands for.
pub open spec fn decimal_value(digits: Seq<char>) -> int
    decreases digits.len(),
{
    if digits.len() == 0 {
        0
    } else {
        10 * decimal_value(digits.drop_last()) + (digits.last() as int - '0' as int)
    }
}

/// A number in decimal is a row of digits that stands for the number. It has no leading zero, but
/// for zero itself.
pub proof fn law_decimal_stands_for_the_number(number: nat)
    ensures
        decimal_value(decimal(number)) == number,
        decimal(number).len() > 0,
        forall|i: int|
            0 <= i < decimal(number).len() ==> '0' as int <= #[trigger] decimal(number)[i] as int
                <= '9' as int,
        number > 0 ==> decimal(number)[0] != '0',
        number == 0 ==> decimal(number).len() == 1,
    decreases number,
{
    reveal_with_fuel(decimal_value, 2);
    reveal_strlit("0");
    reveal_strlit("1");
    reveal_strlit("2");
    reveal_strlit("3");
    reveal_strlit("4");
    reveal_strlit("5");
    reveal_strlit("6");
    reveal_strlit("7");
    reveal_strlit("8");
    reveal_strlit("9");
    let last = digit(number % 10);
    assert(last.len() == 1 && last[0] as int == '0' as int + number % 10);
    if number < 10 {
        assert(decimal(number) == digit(number));
        assert(decimal(number).drop_last() =~= Seq::empty());
    } else {
        law_decimal_stands_for_the_number(number / 10);
        assert(decimal(number).drop_last() =~= decimal(number / 10));
        assert(decimal(number).last() == last[0]);
    }
}

} // verus!
