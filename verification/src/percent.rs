//! Percent-encoding of text that goes into a URL.

use vstd::prelude::*;
use vstd::string::*;

verus! {

/// The bytes that stand for themselves in a URL: letters, digits, and `-`, `_`, `.`, `~`.
pub open spec fn unreserved(byte: u8) -> bool {
    ||| 0x41 <= byte <= 0x5a
    ||| 0x61 <= byte <= 0x7a
    ||| 0x30 <= byte <= 0x39
    ||| byte == 0x2d
    ||| byte == 0x5f
    ||| byte == 0x2e
    ||| byte == 0x7e
}

/// The upper-case hexadecimal digit of a number below sixteen.
pub open spec fn hex_digit(n: u8) -> char {
    if n < 10 {
        (0x30 + n) as u8 as char
    } else {
        (0x37 + n) as u8 as char
    }
}

/// One byte, encoded.
pub open spec fn encoded_byte(byte: u8) -> Seq<char> {
    if unreserved(byte) {
        seq![byte as char]
    } else {
        seq!['%', hex_digit(byte / 16), hex_digit(byte % 16)]
    }
}

/// Every byte, encoded in turn.
pub open spec fn percent_encoded(bytes: Seq<u8>) -> Seq<char>
    decreases bytes.len(),
{
    if bytes.len() == 0 {
        Seq::empty()
    } else {
        encoded_byte(bytes.first()) + percent_encoded(bytes.drop_first())
    }
}

/// The number that an upper-case hexadecimal digit denotes.
pub open spec fn hex_value(digit: char) -> int {
    if digit <= '9' {
        digit as u32 - 0x30
    } else {
        digit as u32 - 0x37
    }
}

/// The bytes that a percent-encoded text stands for.
pub open spec fn percent_decoded(text: Seq<char>) -> Seq<u8>
    decreases text.len(),
{
    if text.len() == 0 {
        Seq::empty()
    } else if text[0] == '%' && text.len() >= 3 {
        seq![(hex_value(text[1]) * 16 + hex_value(text[2])) as u8] + percent_decoded(text.skip(3))
    } else {
        seq![text[0] as u8] + percent_decoded(text.drop_first())
    }
}

fn hex_digit_of(n: u8) -> (r: char)
    requires
        n < 16,
    ensures
        r == hex_digit(n),
{
    if n < 10 {
        (0x30 + n) as char
    } else {
        (0x37 + n) as char
    }
}

fn is_unreserved(byte: u8) -> (r: bool)
    ensures
        r == unreserved(byte),
{
    (0x41 <= byte && byte <= 0x5a) || (0x61 <= byte && byte <= 0x7a) || (0x30 <= byte && byte
        <= 0x39) || byte == 0x2d || byte == 0x5f || byte == 0x2e || byte == 0x7e
}

/// Encodes a text for a path segment or a query value: of its UTF-8 bytes, all but the unreserved
/// ones become a percent sign and two hexadecimal digits.
pub fn percent_encode(value: &str) -> (r: String)
    ensures
        r@ == percent_encoded(value.spec_bytes()),
{
    let bytes = value.as_bytes();
    let mut out = String::new();
    let n: usize = bytes.len();
    let mut i: usize = 0;
    assert(bytes@.skip(0) =~= bytes@);
    while i < n
        invariant
            n == bytes@.len(),
            i <= n,
            percent_encoded(bytes@) == out@ + percent_encoded(bytes@.skip(i as int)),
        decreases n - i,
    {
        let byte: u8 = bytes[i];
        let ghost before = out@;
        if is_unreserved(byte) {
            out.push(byte as char);
        } else {
            out.push('%');
            out.push(hex_digit_of(byte / 16));
            out.push(hex_digit_of(byte % 16));
        }
        assert(out@ =~= before + encoded_byte(byte));
        assert(bytes@.skip(i as int).drop_first() =~= bytes@.skip(i + 1));
        assert(bytes@.skip(i as int).first() == byte);
        i += 1;
        assert(percent_encoded(bytes@) =~= out@ + percent_encoded(bytes@.skip(i as int)));
    }
    assert(out@ + percent_encoded(bytes@.skip(n as int)) =~= out@);
    out
}

/// A character that an encoded text can hold.
pub open spec fn inert(c: char) -> bool {
    c == '%' || (c as u32 <= 0x7f && unreserved(c as u8))
}

/// An encoded text holds nothing but unreserved characters and percent signs, so it cannot end the
/// path segment or the query value that it stands in.
pub proof fn law_encoded_text_is_inert(bytes: Seq<u8>)
    ensures
        forall|i: int|
            0 <= i < percent_encoded(bytes).len() ==> inert(#[trigger] percent_encoded(bytes)[i]),
    decreases bytes.len(),
{
    if bytes.len() > 0 {
        law_encoded_text_is_inert(bytes.drop_first());
        let head = encoded_byte(bytes.first());
        let tail = percent_encoded(bytes.drop_first());
        assert forall|i: int| 0 <= i < percent_encoded(bytes).len() implies inert(
            #[trigger] percent_encoded(bytes)[i],
        ) by {
            if i < head.len() {
                assert(percent_encoded(bytes)[i] == head[i]);
            } else {
                assert(percent_encoded(bytes)[i] == tail[i - head.len()]);
            }
        }
    }
}

/// Decoding an encoded text gives the bytes back.
pub proof fn law_encoding_reads_back(bytes: Seq<u8>)
    ensures
        percent_decoded(percent_encoded(bytes)) == bytes,
    decreases bytes.len(),
{
    if bytes.len() > 0 {
        let byte = bytes.first();
        let tail = percent_encoded(bytes.drop_first());
        let text = percent_encoded(bytes);
        law_encoding_reads_back(bytes.drop_first());
        if unreserved(byte) {
            assert(text.drop_first() =~= tail);
            assert(text[0] as u8 == byte);
        } else {
            assert(text.skip(3) =~= tail);
            assert(text[1] == hex_digit(byte / 16) && text[2] == hex_digit(byte % 16));
            assert(hex_value(hex_digit(byte / 16)) == byte / 16);
            assert(hex_value(hex_digit(byte % 16)) == byte % 16);
        }
        assert(percent_decoded(text) =~= bytes);
    }
}

/// A text of unreserved bytes alone is encoded as it stands.
pub proof fn law_unreserved_text_is_kept(bytes: Seq<u8>)
    requires
        forall|i: int| 0 <= i < bytes.len() ==> unreserved(#[trigger] bytes[i]),
    ensures
        percent_encoded(bytes) == bytes.map_values(|byte: u8| byte as char),
    decreases bytes.len(),
{
    if bytes.len() > 0 {
        let rest = bytes.drop_first();
        assert forall|i: int| 0 <= i < rest.len() implies unreserved(#[trigger] rest[i]) by {
            assert(rest[i] == bytes[i + 1]);
        }
        law_unreserved_text_is_kept(rest);
        assert(unreserved(bytes[0]));
        assert(percent_encoded(bytes) =~= bytes.map_values(|byte: u8| byte as char));
    } else {
        assert(percent_encoded(bytes) =~= bytes.map_values(|byte: u8| byte as char));
    }
}

/// Which bytes need no escape: ASCII letters and digits, hyphen, underscore, full stop and tilde.
pub proof fn law_letters_digits_and_four_marks_are_unreserved(byte: u8)
    ensures
        unreserved(byte) <==> {
            ||| 0x41 <= byte <= 0x5a
            ||| 0x61 <= byte <= 0x7a
            ||| 0x30 <= byte <= 0x39
            ||| byte == 0x2d
            ||| byte == 0x5f
            ||| byte == 0x2e
            ||| byte == 0x7e
        },
{
}

/// A single byte stands as itself, or as a percent sign and its two hexadecimal digits in upper
/// case.
pub proof fn law_a_byte_stands_as_itself_or_in_hex(byte: u8)
    ensures
        unreserved(byte) ==> percent_encoded(seq![byte]).len() == 1 && percent_encoded(
            seq![byte],
        )[0] as u32 == byte,
        !unreserved(byte) ==> {
            let text = percent_encoded(seq![byte]);
            let high = byte as int / 16;
            let low = byte as int % 16;
            &&& text.len() == 3
            &&& text[0] == '%'
            &&& text[1] as u32 == (if high < 10 {
                0x30 + high
            } else {
                0x41 + high - 10
            })
            &&& text[2] as u32 == (if low < 10 {
                0x30 + low
            } else {
                0x41 + low - 10
            })
        },
{
    assert(seq![byte].first() == byte);
    assert(seq![byte].drop_first() =~= Seq::empty());
    assert(percent_encoded(Seq::<u8>::empty()) =~= Seq::empty());
    assert(percent_encoded(seq![byte]) =~= encoded_byte(byte));
}

/// Bytes are encoded one by one, whatever stands beside them.
pub proof fn law_bytes_are_encoded_one_by_one(a: Seq<u8>, b: Seq<u8>)
    ensures
        percent_encoded(a + b) == percent_encoded(a) + percent_encoded(b),
    decreases a.len(),
{
    if a.len() == 0 {
        assert(a + b =~= b);
        assert(percent_encoded(a) + percent_encoded(b) =~= percent_encoded(b));
    } else {
        law_bytes_are_encoded_one_by_one(a.drop_first(), b);
        assert((a + b).first() == a.first());
        assert((a + b).drop_first() =~= a.drop_first() + b);
        assert(percent_encoded(a + b) =~= percent_encoded(a) + percent_encoded(b));
    }
}

} // verus!
