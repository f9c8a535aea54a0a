//! Hexadecimal notation of bytes, written and read.

use vstd::prelude::*;
use vstd::string::*;
use vstd::utf8::is_ascii_chars;

verus! {

/// The character of one hexadecimal digit, in lower case.
pub open spec fn hex_digit(value: nat) -> char {
    if value == 0 {
        '0'
    } else if value == 1 {
        '1'
    } else if value == 2 {
        '2'
    } else if value == 3 {
        '3'
    } else if value == 4 {
        '4'
    } else if value == 5 {
        '5'
    } else if value == 6 {
        '6'
    } else if value == 7 {
        '7'
    } else if value == 8 {
        '8'
    } else if value == 9 {
        '9'
    } else if value == 10 {
        'a'
    } else if value == 11 {
        'b'
    } else if value == 12 {
        'c'
    } else if value == 13 {
        'd'
    } else if value == 14 {
        'e'
    } else {
        'f'
    }
}

/// Bytes in hexadecimal notation: two lower-case digits for each byte, the
/// high half first, and nothing between the bytes.
pub open spec fn hex_text(bytes: Seq<u8>) -> Seq<char> {
    Seq::new(
        2 * bytes.len(),
        |i: int|
            if i % 2 == 0 {
                hex_digit((bytes[i / 2] / 16) as nat)
            } else {
                hex_digit((bytes[i / 2] % 16) as nat)
            },
    )
}

fn hex_digit_text(value: u8) -> (text: &'static str)
    requires
        value < 16,
    ensures
        text@ == seq![hex_digit(value as nat)],
{
    proof {
        reveal_strlit("0");
        reveal_strlit("1");
        reveal_strlit("2");
        reveal_strlit("3");
        reveal_strlit("4");
        reveal_strlit("5");
        reveal_strlit("6");
        reveal_strlit("7");
        reveal_strlit("8");
        reveal_strlit("9");
        reveal_strlit("a");
        reveal_strlit("b");
        reveal_strlit("c");
        reveal_strlit("d");
        reveal_strlit("e");
        reveal_strlit("f");
    }
    let text = if value == 0 {
        "0"
    } else if value == 1 {
        "1"
    } else if value == 2 {
        "2"
    } else if value == 3 {
        "3"
    } else if value == 4 {
        "4"
    } else if value == 5 {
        "5"
    } else if value == 6 {
        "6"
    } else if value == 7 {
        "7"
    } else if value == 8 {
        "8"
    } else if value == 9 {
        "9"
    } else if value == 10 {
        "a"
    } else if value == 11 {
        "b"
    } else if value == 12 {
        "c"
    } else if value == 13 {
        "d"
    } else if value == 14 {
        "e"
    } else {
        "f"
    };
    assert(text@ =~= seq![hex_digit(value as nat)]);
    text
}

/// Writes bytes in hexadecimal notation.
pub fn to_hex(bytes: &[u8]) -> (text: String)
    ensures
        text@ == hex_text(bytes@),
{
    let mut text = String::new();
    let mut i: usize = 0;
    while i < bytes.len()
        invariant
            i <= bytes@.len(),
            text@ == hex_text(bytes@.take(i as int)),
        decreases bytes@.len() - i,
    {
        let byte = bytes[i];
        text.append(hex_digit_text(byte / 16));
        text.append(hex_digit_text(byte % 16));
        i += 1;
        assert(text@ =~= hex_text(bytes@.take(i as int)));
    }
    assert(bytes@.take(i as int) =~= bytes@);
    text
}

/// Whether `c` counts as white space: whether it has the Unicode property
/// White_Space, which is what `char::is_whitespace` tells. These are the
/// controls from the tabulator to the carriage return, the blank, the next
/// line control, the no-break space, the Ogham space mark, the spaces of
/// fixed width from the en quad to the hair space, the line and the
/// paragraph separator, the narrow no-break space, the medium mathematical
/// space and the ideographic space.
pub open spec fn is_white_space(c: char) -> bool {
    ||| '\u{9}' <= c <= '\u{d}'
    ||| c == ' '
    ||| c == '\u{85}'
    ||| c == '\u{a0}'
    ||| c == '\u{1680}'
    ||| '\u{2000}' <= c <= '\u{200a}'
    ||| c == '\u{2028}'
    ||| c == '\u{2029}'
    ||| c == '\u{202f}'
    ||| c == '\u{205f}'
    ||| c == '\u{3000}'
}

/// Where the text starts once the white space in front of it is left out.
pub open spec fn trim_start(text: Seq<char>) -> int
    decreases text.len(),
{
    if text.len() > 0 && is_white_space(text.first()) {
        1 + trim_start(text.drop_first())
    } else {
        0
    }
}

/// Where the text ends once the white space behind it is left out.
pub open spec fn trim_end(text: Seq<char>) -> int
    decreases text.len(),
{
    if text.len() > 0 && is_white_space(text.last()) {
        trim_end(text.drop_last())
    } else {
        text.len() as int
    }
}

/// The text without the white space in front of it and behind it.
pub open spec fn trimmed(text: Seq<char>) -> Seq<char> {
    if trim_start(text) <= trim_end(text) {
        text.subrange(trim_start(text), trim_end(text))
    } else {
        Seq::empty()
    }
}

/// `str::trim`: the slice without its leading and trailing white space,
/// where white space is what has the Unicode property White_Space.
#[verifier::external_body]
pub(crate) fn trim(text: &str) -> (rest: &str)
    ensures
        rest@ == trimmed(text@),
{
    text.trim()
}

/// `str::replace` of a character by the empty string: the text without
/// any occurrence of that character, the rest in its order.
#[verifier::external_body]
pub(crate) fn without(text: &str, unwanted: char) -> (rest: String)
    ensures
        rest@ == text@.filter(|c: char| c != unwanted),
{
    text.replace(unwanted, "")
}

/// The value of a hexadecimal digit, in either case.
pub open spec fn hex_value(c: char) -> Option<nat> {
    if '0' <= c <= '9' {
        Some((c as nat - '0' as nat) as nat)
    } else if 'a' <= c <= 'f' {
        Some((c as nat - 'a' as nat + 10) as nat)
    } else if 'A' <= c <= 'F' {
        Some((c as nat - 'A' as nat + 10) as nat)
    } else {
        None
    }
}

/// The byte that two characters denote: two hexadecimal digits, the high
/// half first, or a plus sign and one digit.
pub open spec fn hex_pair(high: char, low: char) -> Option<u8> {
    match (hex_value(high), hex_value(low)) {
        (Some(h), Some(l)) => Some((16 * h + l) as u8),
        (None, Some(l)) => if high == '+' {
            Some(l as u8)
        } else {
            None
        },
        _ => None,
    }
}

/// `u8::from_str_radix` with radix 16, on a text of two characters: an
/// optional plus sign followed by hexadecimal digits in either case, and
/// at least one digit; anything else is an error, which is `None` here.
#[verifier::external_body]
pub(crate) fn parse_pair(pair: &str) -> (byte: Option<u8>)
    requires
        pair@.len() == 2,
    ensures
        byte == hex_pair(pair@[0], pair@[1]),
{
    u8::from_str_radix(pair, 16).ok()
}

/// Whether every two characters of `digits` denote a byte.
pub open spec fn all_pairs(digits: Seq<char>) -> bool {
    forall|k: int| 0 <= k < digits.len() / 2 ==> (#[trigger] hex_pair(
        digits[2 * k],
        digits[2 * k + 1],
    )).is_some()
}

/// The bytes that a text of hexadecimal digits denotes, two characters for
/// each byte; `None` where the number of characters is odd, where a pair
/// denotes no byte, or where a character lies outside ASCII.
pub open spec fn decode_hex_spec(digits: Seq<char>) -> Option<Seq<u8>> {
    if is_ascii_chars(digits) && digits.len() % 2 == 0 && all_pairs(digits) {
        Some(Seq::new(digits.len() / 2, |k: int| hex_pair(digits[2 * k], digits[2 * k + 1]).unwrap()))
    } else {
        None
    }
}

/// Reads bytes from a text of hexadecimal digits.
pub fn decode_hex(digits: &str) -> (bytes: Option<Vec<u8>>)
    ensures
        match bytes {
            Some(read) => decode_hex_spec(digits@) == Some(read@),
            None => decode_hex_spec(digits@).is_none(),
        },
{
    if !digits.is_ascii() {
        return None;
    }
    let length = digits.unicode_len();
    if length % 2 != 0 {
        return None;
    }
    let mut bytes: Vec<u8> = Vec::new();
    let mut at: usize = 0;
    while at < length
        invariant
            is_ascii(digits),
            length == digits@.len(),
            length % 2 == 0,
            at % 2 == 0,
            at <= length,
            bytes@.len() == at / 2,
            forall|k: int|
                0 <= k < at / 2 ==> hex_pair(digits@[2 * k], digits@[2 * k + 1]) == Some(
                    #[trigger] bytes@[k],
                ),
        decreases length - at,
    {
        let pair = digits.substring_ascii(at, at + 2);
        match parse_pair(pair) {
            Some(byte) => {
                bytes.push(byte);
            },
            None => {
                assert(hex_pair(digits@[2 * (at / 2)], digits@[2 * (at / 2) + 1]).is_none());
                return None;
            },
        }
        at += 2;
    }
    assert(all_pairs(digits@)) by {
        assert forall|k: int| 0 <= k < digits@.len() / 2 implies (#[trigger] hex_pair(
            digits@[2 * k],
            digits@[2 * k + 1],
        )).is_some() by {
            assert(hex_pair(digits@[2 * k], digits@[2 * k + 1]) == Some(bytes@[k]));
        }
    }
    assert(bytes@ =~= Seq::new(
        digits@.len() / 2,
        |k: int| hex_pair(digits@[2 * k], digits@[2 * k + 1]).unwrap(),
    ));
    Some(bytes)
}

/// The digits of a text as a user types it: without the white space
/// around it, and without any blank or colon.
pub open spec fn hex_digits_of(input: Seq<char>) -> Seq<char> {
    trimmed(input).filter(|c: char| c != ' ').filter(|c: char| c != ':')
}

/// Reads bytes from hexadecimal digits as a user types them: white space
/// around the text, blanks and colons are passed over.
pub fn parse_hex(input: &str) -> (bytes: Option<Vec<u8>>)
    ensures
        match bytes {
            Some(read) => decode_hex_spec(hex_digits_of(input@)) == Some(read@),
            None => decode_hex_spec(hex_digits_of(input@)).is_none(),
        },
{
    let unspaced = without(trim(input), ' ');
    let digits = without(unspaced.as_str(), ':');
    decode_hex(digits.as_str())
}

/// What is written in hexadecimal notation is read back unchanged.
pub proof fn lemma_hex_round_trip(bytes: Seq<u8>)
    ensures
        hex_text(bytes).len() == 2 * bytes.len(),
        decode_hex_spec(hex_text(bytes)) == Some(bytes),
{
    let digits = hex_text(bytes);
    assert forall|k: int| 0 <= k < bytes.len() implies hex_pair(digits[2 * k], digits[2 * k + 1])
        == Some(bytes[k]) by {
        let byte = bytes[k];
        let high = (byte / 16) as nat;
        let low = (byte % 16) as nat;
        assert(digits[2 * k] == hex_digit(high));
        assert(digits[2 * k + 1] == hex_digit(low));
        assert(hex_value(hex_digit(high)) == Some(high));
        assert(hex_value(hex_digit(low)) == Some(low));
        assert(16 * high + low == byte);
    }
    assert(is_ascii_chars(digits)) by {
        assert forall|i: int| 0 <= i < digits.len() implies '\0' <= #[trigger] digits[i]
            <= '\u{7f}' by {
            let byte = bytes[i / 2];
            assert(digits[i] == hex_digit((byte / 16) as nat) || digits[i] == hex_digit(
                (byte % 16) as nat,
            ));
        }
    }
    assert(all_pairs(digits));
    assert(decode_hex_spec(digits).unwrap() =~= bytes);
}

/// A text loses nothing to a filter that all its characters pass.
proof fn lemma_filter_keeps_all(text: Seq<char>, pred: spec_fn(char) -> bool)
    requires
        forall|i: int| 0 <= i < text.len() ==> pred(#[trigger] text[i]),
    ensures
        text.filter(pred) == text,
    decreases text.len(),
{
    reveal(Seq::filter);
    if text.len() > 0 {
        let front = text.drop_last();
        assert forall|i: int| 0 <= i < front.len() implies pred(#[trigger] front[i]) by {
            assert(front[i] == text[i]);
        }
        lemma_filter_keeps_all(front, pred);
        assert(front.push(text.last()) =~= text);
    }
}

/// What is written in hexadecimal notation is read back unchanged also as
/// typed text: it holds no white space, no blank and no colon to pass over.
pub proof fn lemma_typed_hex_round_trip(bytes: Seq<u8>)
    ensures
        hex_digits_of(hex_text(bytes)) == hex_text(bytes),
        decode_hex_spec(hex_digits_of(hex_text(bytes))) == Some(bytes),
{
    let digits = hex_text(bytes);
    lemma_hex_round_trip(bytes);
    assert forall|i: int| 0 <= i < digits.len() implies !is_white_space(#[trigger] digits[i])
        && digits[i] != ' ' && digits[i] != ':' by {
        let byte = bytes[i / 2];
        assert(digits[i] == hex_digit((byte / 16) as nat) || digits[i] == hex_digit(
            (byte % 16) as nat,
        ));
    }
    if digits.len() > 0 {
        assert(!is_white_space(digits[0]));
        assert(!is_white_space(digits[digits.len() - 1]));
    }
    assert(trim_start(digits) == 0);
    assert(trim_end(digits) == digits.len());
    assert(trimmed(digits) =~= digits);
    lemma_filter_keeps_all(digits, |c: char| c != ' ');
    lemma_filter_keeps_all(digits, |c: char| c != ':');
}

} // verus!
