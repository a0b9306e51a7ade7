//! Bytes written in hexadecimal.
use vstd::prelude::*;

verus! {

/// The value of a hexadecimal digit, of either case.
pub open spec fn digit_value(byte: u8) -> Option<u8> {
    if 0x30 <= byte <= 0x39 {
        Some((byte - 0x30) as u8)
    } else if 0x61 <= byte <= 0x66 {
        Some((byte - 0x61 + 10) as u8)
    } else if 0x41 <= byte <= 0x46 {
        Some((byte - 0x41 + 10) as u8)
    } else {
        None
    }
}

/// The text without the prefix `0x` or `0X`, if it has one.
pub open spec fn without_prefix(text: Seq<u8>) -> Seq<u8> {
    if text.len() >= 2 && text[0] == 0x30 && (text[1] == 0x78 || text[1] == 0x58) {
        text.skip(2)
    } else {
        text
    }
}

/// How many digits the text begins with.
pub open spec fn leading_digits(text: Seq<u8>) -> nat
    decreases text.len(),
{
    if text.len() == 0 || digit_value(text[0]) is None {
        0
    } else {
        1 + leading_digits(text.skip(1))
    }
}

/// The bytes that digits stand for, two digits each, the high one first.
pub open spec fn digits_bytes(digits: Seq<u8>) -> Seq<u8> {
    Seq::new(
        digits.len() / 2,
        |i: int|
            (digit_value(digits[2 * i])->0 * 16 + digit_value(digits[2 * i + 1])->0) as u8,
    )
}

/// Why a text does not stand for the wanted number of bytes.
#[derive(Clone, Copy, Debug, PartialEq, Eq, Structural)]
pub enum HexError {
    /// The first byte that is no digit, as the character of the same number, and where it stands
    /// behind the prefix.
    InvalidHexCharacter { c: char, index: usize },
    /// The text has an odd number of bytes.
    OddLength,
    /// The text has too many digits or too few.
    InvalidStringLength,
}

/// What a text, given in UTF-8, stands for as `n` bytes in hexadecimal.
pub open spec fn decoded(text: Seq<u8>, n: nat) -> Result<Seq<u8>, HexError> {
    let digits = without_prefix(text);
    let valid = leading_digits(digits);
    if text.len() % 2 != 0 {
        Err(HexError::OddLength)
    } else if digits.len() != 2 * n {
        Err(HexError::InvalidStringLength)
    } else if valid < digits.len() {
        Err(
            HexError::InvalidHexCharacter {
                c: digits[valid as int] as char,
                index: valid as usize,
            },
        )
    } else {
        Ok(digits_bytes(digits))
    }
}

/// A text of digits alone begins with all of them.
pub(crate) proof fn lemma_leading_digits_all(text: Seq<u8>)
    requires
        forall|i: int| 0 <= i < text.len() ==> digit_value(#[trigger] text[i]) is Some,
    ensures
        leading_digits(text) == text.len(),
    decreases text.len(),
{
    if text.len() > 0 {
        assert forall|i: int| 0 <= i < text.skip(1).len() implies digit_value(
            #[trigger] text.skip(1)[i],
        ) is Some by {
            assert(text.skip(1)[i] == text[i + 1]);
        }
        lemma_leading_digits_all(text.skip(1));
    }
}

/// `byte` is the character of the hexadecimal digit of the value `d`, in either case.
pub open spec fn is_digit(byte: u8, d: int) -> bool {
    &&& 0 <= d < 16
    &&& byte as int == "0123456789abcdef"@[d] as int || byte as int
        == "0123456789ABCDEF"@[d] as int
}

/// `digits` are the hexadecimal digits of `bytes`, two for each, the high one first.
pub open spec fn digits_of(digits: Seq<u8>, bytes: Seq<u8>) -> bool {
    &&& digits.len() == 2 * bytes.len()
    &&& forall|i: int|
        #![trigger bytes[i]]
        0 <= i < bytes.len() ==> is_digit(digits[2 * i], bytes[i] as int / 16) && is_digit(
            digits[2 * i + 1],
            bytes[i] as int % 16,
        )
}

/// `text` begins with `0x` or `0X`.
pub open spec fn has_prefix(text: Seq<u8>) -> bool {
    text.len() >= 2 && text[0] as int == '0' as int && (text[1] as int == 'x' as int || text[1]
        as int == 'X' as int)
}

/// The text is the digits of `bytes`, with or without the prefix.
pub open spec fn spelled(text: Seq<u8>, bytes: Seq<u8>) -> bool {
    digits_of(text, bytes) || (has_prefix(text) && digits_of(text.skip(2), bytes))
}

/// A byte is taken for the digit of a value exactly when it is the character of that digit.
pub proof fn law_digits_are_their_characters(byte: u8, d: u8)
    ensures
        digit_value(byte) == Some(d) <==> is_digit(byte, d as int),
        digit_value(byte) is None <==> forall|v: int| !is_digit(byte, v),
{
    reveal_strlit("0123456789abcdef");
    reveal_strlit("0123456789ABCDEF");
    if digit_value(byte) is Some {
        assert(is_digit(byte, digit_value(byte)->0 as int));
    }
}

/// A prefix is left out, and nothing else is.
pub proof fn law_only_the_prefix_is_left_out(text: Seq<u8>)
    ensures
        has_prefix(text) ==> without_prefix(text) == text.skip(2),
        !has_prefix(text) ==> without_prefix(text) == text,
{
}

/// The digits that a text begins with are the bytes before the first that is no digit.
pub proof fn law_leading_digits_end_at_the_first_other_byte(text: Seq<u8>)
    ensures
        leading_digits(text) <= text.len(),
        forall|i: int|
            0 <= i < leading_digits(text) ==> digit_value(#[trigger] text[i]) is Some,
        leading_digits(text) < text.len() ==> digit_value(text[leading_digits(text) as int]) is None,
    decreases text.len(),
{
    if text.len() > 0 && digit_value(text[0]) is Some {
        let rest = text.skip(1);
        law_leading_digits_end_at_the_first_other_byte(rest);
        assert forall|i: int| 0 <= i < leading_digits(text) implies digit_value(
            #[trigger] text[i],
        ) is Some by {
            if i > 0 {
                assert(text[i] == rest[i - 1]);
            }
        }
    }
}

/// A text stands for the bytes whose digits it is, with or without a prefix, and for no others.
pub proof fn law_bytes_are_spelled_by_their_text(text: Seq<u8>, n: nat, bytes: Seq<u8>)
    ensures
        decoded(text, n) is Ok && decoded(text, n)->Ok_0 == bytes <==> bytes.len() == n && spelled(
            text,
            bytes,
        ),
{
    let digits = without_prefix(text);
    law_leading_digits_end_at_the_first_other_byte(digits);
    if decoded(text, n) is Ok && decoded(text, n)->Ok_0 == bytes {
        assert forall|i: int| #![trigger bytes[i]] 0 <= i < bytes.len() implies is_digit(
            digits[2 * i],
            bytes[i] as int / 16,
        ) && is_digit(digits[2 * i + 1], bytes[i] as int % 16) by {
            let high = digit_value(digits[2 * i])->0;
            let low = digit_value(digits[2 * i + 1])->0;
            law_digits_are_their_characters(digits[2 * i], high);
            law_digits_are_their_characters(digits[2 * i + 1], low);
            assert(bytes[i] == high * 16 + low);
        }
        assert(digits_of(digits, bytes));
    }
    if bytes.len() == n && spelled(text, bytes) {
        if has_prefix(text) && digits_of(text, bytes) {
            law_digits_are_their_characters(text[1], 0);
            assert(is_digit(text[2 * 0int + 1], bytes[0] as int % 16));
            assert(false);
        }
        assert(digits_of(digits, bytes));
        assert forall|i: int| 0 <= i < digits.len() implies digit_value(
            #[trigger] digits[i],
        ) is Some by {
            assert(is_digit(digits[2 * (i / 2)], bytes[i / 2] as int / 16));
            law_digits_are_their_characters(digits[i], 0);
        }
        lemma_leading_digits_all(digits);
        assert forall|i: int| 0 <= i < bytes.len() implies digits_bytes(digits)[i] == bytes[i] by {
            let high = bytes[i] / 16;
            let low = bytes[i] % 16;
            assert(is_digit(digits[2 * i], high as int));
            law_digits_are_their_characters(digits[2 * i], high);
            law_digits_are_their_characters(digits[2 * i + 1], low);
        }
        assert(digits_bytes(digits) =~= bytes);
    }
}

/// A text of odd length stands for nothing, for that reason. One of even length that has another
/// number of digits than wanted stands for nothing, for that reason. Where the length is right, it
/// stands for nothing exactly if one of its bytes is no digit, and the error tells the first of
/// them and where it stands behind the prefix.
pub proof fn law_errors_tell_what_is_wrong_with_a_text(text: Seq<u8>, n: nat, digits: Seq<u8>)
    requires
        text.len() <= usize::MAX,
        digits == (if has_prefix(text) { text.skip(2) } else { text }),
    ensures
        decoded(text, n) is Err && decoded(text, n)->Err_0 is OddLength <==> text.len() % 2 == 1,
        decoded(text, n) is Err && decoded(text, n)->Err_0 is InvalidStringLength <==> text.len()
            % 2 == 0 && digits.len() != 2 * n,
        decoded(text, n) is Err && decoded(text, n)->Err_0 is InvalidHexCharacter <==> text.len()
            % 2 == 0 && digits.len() == 2 * n && exists|i: int|
            0 <= i < digits.len() && digit_value(#[trigger] digits[i]) is None,
        decoded(text, n) is Err ==> (decoded(text, n)->Err_0 matches HexError::InvalidHexCharacter {
            c,
            index,
        } ==> index < digits.len() && c as int == digits[index as int] as int && digit_value(
            digits[index as int],
        ) is None && forall|i: int|
            0 <= i < index ==> digit_value(#[trigger] digits[i]) is Some),
{
    law_leading_digits_end_at_the_first_other_byte(digits);
}

} // verus!
