//! Percent-encoding of parameter values.
//!
//! The encoding itself is done by the `urlencoding` crate. This module states
//! what it produces, byte by byte, and proves what the rest of the library
//! relies on: the encoded text holds no character with a meaning in a query,
//! and the bytes that were encoded can be read back from it.

use vstd::prelude::*;
use vstd::utf8::*;

verus! {

/// The characters that stand for themselves in encoded text: ASCII letters
/// and digits, `-`, `.`, `_` and `~`.
pub open spec fn is_unreserved(c: char) -> bool {
    ||| '0' <= c <= '9'
    ||| 'A' <= c <= 'Z'
    ||| 'a' <= c <= 'z'
    ||| c == '-'
    ||| c == '.'
    ||| c == '_'
    ||| c == '~'
}

/// The upper-case hexadecimal digit for a value below 16.
pub open spec fn hex_digit(n: int) -> char
    recommends
        0 <= n < 16,
{
    if n < 10 {
        ('0' as u8 + n) as u8 as char
    } else {
        ('A' as u8 + n - 10) as u8 as char
    }
}

/// The encoded form of one byte: the byte itself where it is unreserved,
/// else `%` and its two hexadecimal digits.
pub open spec fn encode_byte(b: u8) -> Seq<char> {
    if is_unreserved(b as char) {
        seq![b as char]
    } else {
        seq!['%', hex_digit(b as int / 16), hex_digit(b as int % 16)]
    }
}

/// The encoded forms of the bytes, one after the other.
pub open spec fn percent_encode(bytes: Seq<u8>) -> Seq<char>
    decreases bytes.len(),
{
    if bytes.len() == 0 {
        Seq::empty()
    } else {
        encode_byte(bytes[0]) + percent_encode(bytes.drop_first())
    }
}

/// The percent-encoded form of a text: the encoding of its UTF-8 bytes.
pub open spec fn percent_encoded(raw: Seq<char>) -> Seq<char> {
    percent_encode(encode_utf8(raw))
}

/// Percent-encodes `raw` with `urlencoding::encode`.
///
/// Trusted: the crate walks the UTF-8 bytes of its argument, copies each
/// ASCII letter, digit, `-`, `.`, `_` and `~`, and writes every other byte as
/// `%` followed by its high and low four bits as upper-case hexadecimal
/// digits. The contract states exactly that; it is not proved here.
#[verifier::external_body]
pub(crate) fn encode_component(raw: &str) -> (encoded: String)
    ensures
        encoded@ == percent_encoded(raw@),
{
    urlencoding::encode(raw).into_owned()
}

/// The characters that encoded text is made of: the unreserved ones and `%`.
pub open spec fn is_encoded_char(c: char) -> bool {
    is_unreserved(c) || c == '%'
}

/// Whether `c` is one of the digits that an escape is written with.
pub open spec fn is_upper_hex_digit(c: char) -> bool {
    '0' <= c <= '9' || 'A' <= c <= 'F'
}

/// Whether `c` is a hexadecimal digit, in either case.
pub open spec fn is_hex_digit(c: char) -> bool {
    '0' <= c <= '9' || 'A' <= c <= 'F' || 'a' <= c <= 'f'
}

/// The value of a hexadecimal digit.
pub open spec fn hex_value(c: char) -> int
    recommends
        is_hex_digit(c),
{
    if '0' <= c <= '9' {
        c as int - '0' as int
    } else if 'A' <= c <= 'F' {
        c as int - 'A' as int + 10
    } else {
        c as int - 'a' as int + 10
    }
}

/// The bytes that an encoded text stands for: `%` followed by two hexadecimal
/// digits gives the byte with those digits, any other character stands for
/// itself. It is meant for encoded text, which is ASCII.
pub open spec fn percent_decode(text: Seq<char>) -> Seq<u8>
    decreases text.len(),
{
    if text.len() == 0 {
        Seq::empty()
    } else if text[0] == '%' && text.len() >= 3 && is_hex_digit(text[1]) && is_hex_digit(text[2]) {
        seq![(16 * hex_value(text[1]) + hex_value(text[2])) as u8] + percent_decode(text.skip(3))
    } else {
        seq![text[0] as u8] + percent_decode(text.skip(1))
    }
}

/// Every character of an encoded text is unreserved or `%`. So the text
/// holds no space, `&`, `=`, `?` or `#`, whatever the bytes were.
pub proof fn lemma_encoded_chars(bytes: Seq<u8>)
    ensures
        forall|i: int|
            0 <= i < percent_encode(bytes).len() ==> is_encoded_char(
                #[trigger] percent_encode(bytes)[i],
            ),
    decreases bytes.len(),
{
    if bytes.len() > 0 {
        let head = encode_byte(bytes[0]);
        let tail = percent_encode(bytes.drop_first());
        lemma_encoded_chars(bytes.drop_first());
        assert forall|i: int| 0 <= i < (head + tail).len() implies is_encoded_char(
            #[trigger] (head + tail)[i],
        ) by {
            if i >= head.len() {
                assert((head + tail)[i] == tail[i - head.len()]);
            }
        }
    }
}

/// Every `%` of an encoded text begins an escape: two upper-case hexadecimal
/// digits follow it.
pub proof fn lemma_escapes_are_whole(bytes: Seq<u8>)
    ensures
        forall|i: int|
            0 <= i < percent_encode(bytes).len() && #[trigger] percent_encode(bytes)[i] == '%'
                ==> i + 2 < percent_encode(bytes).len() && is_upper_hex_digit(
                percent_encode(bytes)[i + 1],
            ) && is_upper_hex_digit(percent_encode(bytes)[i + 2]),
    decreases bytes.len(),
{
    if bytes.len() > 0 {
        let head = encode_byte(bytes[0]);
        let tail = percent_encode(bytes.drop_first());
        let text = head + tail;
        lemma_escapes_are_whole(bytes.drop_first());
        assert forall|i: int| 0 <= i < text.len() && #[trigger] text[i] == '%' implies i + 2
            < text.len() && is_upper_hex_digit(text[i + 1]) && is_upper_hex_digit(text[i + 2]) by {
            if i >= head.len() {
                let j = i - head.len();
                assert(text[i] == tail[j]);
                assert(text[i + 1] == tail[j + 1]);
                assert(text[i + 2] == tail[j + 2]);
            }
        }
    }
}

/// Decoding gives back the bytes that were encoded.
pub proof fn lemma_decode_inverts_encode(bytes: Seq<u8>)
    ensures
        percent_decode(percent_encode(bytes)) == bytes,
    decreases bytes.len(),
{
    if bytes.len() > 0 {
        let first = bytes[0];
        let rest = bytes.drop_first();
        let text = percent_encode(bytes);
        lemma_decode_inverts_encode(rest);
        if is_unreserved(first as char) {
            assert(text.skip(1) =~= percent_encode(rest));
        } else {
            assert(text.skip(3) =~= percent_encode(rest));
        }
        assert(bytes =~= seq![first] + rest);
    }
}

/// Decoding the encoded form of a text, and reading the bytes as UTF-8, gives
/// back the text. Encoding is applied once and loses nothing.
pub proof fn lemma_percent_encoded_round_trip(raw: Seq<char>)
    ensures
        decode_utf8(percent_decode(percent_encoded(raw))) == raw,
{
    lemma_decode_inverts_encode(encode_utf8(raw));
    encode_utf8_decode_utf8(raw);
}

} // verus!
