//! Percent-encoding of text that goes into the query part of an address.
//!
//! A text is taken as its UTF-8 bytes. A byte that is an ASCII letter, a
//! digit or one of `-` `.` `_` `~` stands for itself; every other byte is
//! written as `%` and two upper-case hexadecimal digits.

use vstd::prelude::*;
use vstd::utf8::{decode_utf8, encode_utf8, encode_utf8_decode_utf8};

verus! {

/// Whether a byte stands for itself in encoded text: an ASCII letter, a
/// digit, or one of `-` `.` `_` `~`.
pub open spec fn unreserved(b: u8) -> bool {
    ||| 0x41 <= b <= 0x5a
    ||| 0x61 <= b <= 0x7a
    ||| 0x30 <= b <= 0x39
    ||| b == 0x2d
    ||| b == 0x2e
    ||| b == 0x5f
    ||| b == 0x7e
}

/// The upper-case hexadecimal digit of a value below 16.
pub open spec fn hex_digit(d: u8) -> char {
    if d < 10 {
        (0x30 + d) as char
    } else {
        (0x37 + d) as char
    }
}

/// Whether a character is an upper-case hexadecimal digit.
pub open spec fn is_hex_digit(c: char) -> bool {
    '0' <= c <= '9' || 'A' <= c <= 'F'
}

/// The value of an upper-case hexadecimal digit.
pub open spec fn hex_value(c: char) -> int {
    if c <= '9' {
        c as int - 0x30
    } else {
        c as int - 0x37
    }
}

/// The encoded form of one byte.
pub open spec fn encode_byte(b: u8) -> Seq<char> {
    if unreserved(b) {
        seq![b as char]
    } else {
        seq!['%', hex_digit(b / 16), hex_digit(b % 16)]
    }
}

/// The encoded form of a run of bytes: the encoded forms of its bytes, in
/// order.
pub open spec fn encode_bytes(bytes: Seq<u8>) -> Seq<char>
    decreases bytes.len(),
{
    if bytes.len() == 0 {
        Seq::empty()
    } else {
        encode_bytes(bytes.drop_last()) + encode_byte(bytes.last())
    }
}

/// The encoded form of a text: that of its UTF-8 bytes.
pub open spec fn percent_encode(text: Seq<char>) -> Seq<char> {
    encode_bytes(encode_utf8(text))
}

/// The bytes that an encoded text stands for: `%` and the two characters
/// behind it count as the byte with those hexadecimal digits, every other
/// character as its own code.
pub open spec fn percent_decode(text: Seq<char>) -> Seq<u8>
    decreases text.len(),
{
    if text.len() == 0 {
        Seq::empty()
    } else if text[0] == '%' && text.len() >= 3 {
        seq![(hex_value(text[1]) * 16 + hex_value(text[2])) as u8] + percent_decode(text.skip(3))
    } else {
        seq![text[0] as u8] + percent_decode(text.skip(1))
    }
}

/// Whether a character may stand in encoded text: an unreserved ASCII
/// character or `%`.
pub open spec fn encoded_char(c: char) -> bool {
    c == '%' || (c as u32 <= 0x7f && unreserved(c as u8))
}

/// Whether a byte stands for itself in encoded text.
pub fn is_unreserved(b: u8) -> (r: bool)
    ensures
        r == unreserved(b),
{
    (0x41 <= b && b <= 0x5a) || (0x61 <= b && b <= 0x7a) || (0x30 <= b && b <= 0x39) || b == 0x2d
        || b == 0x2e || b == 0x5f || b == 0x7e
}

/// The upper-case hexadecimal digit of the low four bits of `d`.
fn hex_char(d: u8) -> (c: char)
    requires
        d < 16,
    ensures
        c == hex_digit(d),
{
    if d < 10 {
        (0x30 + d) as char
    } else {
        (0x37 + d) as char
    }
}

/// Appends the encoded form of `text` to `out`.
pub fn push_encoded(out: &mut String, text: &str)
    ensures
        final(out)@ == old(out)@ + percent_encode(text@),
{
    let bytes = text.as_bytes();
    let ghost start = out@;
    let mut i: usize = 0;
    while i < bytes.len()
        invariant
            i <= bytes.len(),
            bytes@ == encode_utf8(text@),
            out@ == start + encode_bytes(bytes@.take(i as int)),
        decreases bytes.len() - i,
    {
        let b: u8 = bytes[i];
        if is_unreserved(b) {
            out.push(b as char);
        } else {
            out.push('%');
            out.push(hex_char(b / 16));
            out.push(hex_char(b % 16));
        }
        proof {
            assert(bytes@.take(i + 1).drop_last() =~= bytes@.take(i as int));
        }
        i = i + 1;
    }
    assert(bytes@.take(i as int) =~= bytes@);
}

/// The encoded form of `text`.
pub fn encode(text: &str) -> (encoded: String)
    ensures
        encoded@ == percent_encode(text@),
{
    let mut encoded = String::new();
    push_encoded(&mut encoded, text);
    encoded
}

/// The encoded form of a run of bytes starts with that of its first byte.
pub proof fn encode_bytes_first(bytes: Seq<u8>)
    requires
        bytes.len() > 0,
    ensures
        encode_bytes(bytes) == encode_byte(bytes[0]) + encode_bytes(bytes.skip(1)),
    decreases bytes.len(),
{
    if bytes.len() == 1 {
        assert(bytes.drop_last() =~= Seq::<u8>::empty());
        assert(bytes.skip(1) =~= Seq::<u8>::empty());
    } else {
        encode_bytes_first(bytes.drop_last());
        assert(bytes.drop_last().skip(1) =~= bytes.skip(1).drop_last());
    }
}

/// Encoded text holds nothing but unreserved characters and escapes: each
/// of its characters is unreserved or `%`, and each `%` is followed by two
/// hexadecimal digits. So it holds no `&`, `#`, `=`, `?`, `+`, `/` or space.
pub proof fn encoded_text_is_plain(bytes: Seq<u8>)
    ensures
        forall|i: int|
            0 <= i < encode_bytes(bytes).len() ==> encoded_char(#[trigger] encode_bytes(bytes)[i]),
        forall|i: int|
            0 <= i < encode_bytes(bytes).len() && #[trigger] encode_bytes(bytes)[i] == '%' ==> i
                + 2 < encode_bytes(bytes).len() && is_hex_digit(encode_bytes(bytes)[i + 1])
                && is_hex_digit(encode_bytes(bytes)[i + 2]),
        forall|i: int|
            0 <= i < encode_bytes(bytes).len() ==> {
                let c = #[trigger] encode_bytes(bytes)[i];
                c != '&' && c != '#' && c != '=' && c != '?' && c != '+' && c != '/' && c != ' '
            },
    decreases bytes.len(),
{
    if bytes.len() > 0 {
        encoded_text_is_plain(bytes.drop_last());
        let before = encode_bytes(bytes.drop_last());
        let text = encode_bytes(bytes);
        assert forall|i: int| 0 <= i < text.len() implies encoded_char(#[trigger] text[i]) && (text[i]
            == '%' ==> i + 2 < text.len() && is_hex_digit(text[i + 1]) && is_hex_digit(
            text[i + 2],
        )) by {
            if i < before.len() && before[i] == '%' {
                assert(is_hex_digit(before[i + 1]) && is_hex_digit(before[i + 2]));
            }
        }
    }
}

/// Decoding undoes encoding: the bytes that the encoded form of a run of
/// bytes stands for are those bytes.
pub proof fn decode_undoes_encode(bytes: Seq<u8>)
    ensures
        percent_decode(encode_bytes(bytes)) == bytes,
    decreases bytes.len(),
{
    if bytes.len() > 0 {
        encode_bytes_first(bytes);
        decode_undoes_encode(bytes.skip(1));
        let first = encode_byte(bytes[0]);
        let rest = encode_bytes(bytes.skip(1));
        let b = bytes[0];
        if unreserved(b) {
            assert((first + rest).skip(1) =~= rest);
        } else {
            assert((first + rest).skip(3) =~= rest);
        }
    }
}

/// The encoded form of a text stands for exactly that text: decoding it and
/// reading the bytes as UTF-8 gives the text back.
pub proof fn encoded_text_stands_for_text(text: Seq<char>)
    ensures
        decode_utf8(percent_decode(percent_encode(text))) == text,
{
    decode_undoes_encode(encode_utf8(text));
    encode_utf8_decode_utf8(text);
}

} // verus!
