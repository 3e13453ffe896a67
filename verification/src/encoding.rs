//! Percent-encoding of identifiers that become part of a request's path.

use vstd::prelude::*;
use vstd::utf8::encode_utf8;

verus! {

/// Whether the byte stands for itself in an encoded text: the ASCII letters
/// and digits, `-`, `.`, `_` and `~`.
pub open spec fn is_unreserved(b: u8) -> bool {
    ||| 0x30 <= b <= 0x39
    ||| 0x41 <= b <= 0x5a
    ||| 0x61 <= b <= 0x7a
    ||| b == 0x2d
    ||| b == 0x2e
    ||| b == 0x5f
    ||| b == 0x7e
}

/// The hexadecimal digit for `d`, upper case.
pub open spec fn hex_digit(d: u8) -> char {
    if d < 10 {
        (0x30 + d) as char
    } else {
        (0x41 - 10 + d) as char
    }
}

/// One byte in an encoded text: itself, or `%` and its two hexadecimal
/// digits.
pub open spec fn percent_encoded_byte(b: u8) -> Seq<char> {
    if is_unreserved(b) {
        seq![b as char]
    } else {
        seq!['%', hex_digit(b / 16), hex_digit(b % 16)]
    }
}

/// The bytes, each percent-encoded, in their order.
pub open spec fn percent_encoded(bytes: Seq<u8>) -> Seq<char>
    decreases bytes.len(),
{
    if bytes.len() == 0 {
        Seq::empty()
    } else {
        percent_encoded_byte(bytes[0]) + percent_encoded(bytes.drop_first())
    }
}

/// A text as it stands in a request's path: the bytes of its UTF-8 form,
/// percent-encoded.
pub open spec fn url_encoded(text: Seq<char>) -> Seq<char> {
    percent_encoded(encode_utf8(text))
}

/// Whether the character stands for itself in an encoded text.
pub open spec fn is_unreserved_char(c: char) -> bool {
    c as u32 <= 0x7f && is_unreserved(c as u8)
}

/// An encoded text holds nothing but `%` and characters that stand for
/// themselves: no `/`, `?`, `&` or `#` of the text gets into a request's
/// path.
pub proof fn lemma_encoded_text_is_plain(text: Seq<char>)
    ensures
        forall|i: int|
            0 <= i < url_encoded(text).len() ==> {
                ||| (#[trigger] url_encoded(text)[i]) == '%'
                ||| is_unreserved_char(url_encoded(text)[i])
            },
{
    lemma_encoded_bytes_are_plain(encode_utf8(text));
}

/// Percent-encoded bytes are nothing but `%` and characters that stand for
/// themselves.
pub proof fn lemma_encoded_bytes_are_plain(bytes: Seq<u8>)
    ensures
        forall|i: int|
            0 <= i < percent_encoded(bytes).len() ==> {
                ||| (#[trigger] percent_encoded(bytes)[i]) == '%'
                ||| is_unreserved_char(percent_encoded(bytes)[i])
            },
    decreases bytes.len(),
{
    if bytes.len() > 0 {
        let first = percent_encoded_byte(bytes[0]);
        let rest = percent_encoded(bytes.drop_first());
        lemma_encoded_bytes_are_plain(bytes.drop_first());
        assert(is_unreserved_char(hex_digit(bytes[0] / 16)));
        assert(is_unreserved_char(hex_digit(bytes[0] % 16)));
        assert forall|i: int| 0 <= i < (first + rest).len() implies (#[trigger] (first + rest)[i])
            == '%' || is_unreserved_char((first + rest)[i]) by {
            if i >= first.len() {
                assert((first + rest)[i] == rest[i - first.len()]);
            }
        }
    }
}

/// Calls `urlencoding::encode`. Trusted: as the crate documents, every byte
/// of the text's UTF-8 form is percent-encoded but for ASCII letters and
/// digits and `-`, `_`, `.`, `~`; its source writes the hexadecimal digits in
/// upper case.
#[verifier::external_body]
pub(crate) fn encode(data: &str) -> (encoded: String)
    ensures
        encoded@ == url_encoded(data@),
{
    urlencoding::encode(data)
}

} // verus!
