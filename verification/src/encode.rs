use vstd::prelude::*;
use crate::json::hex_digit;

verus! {

/// A byte the encoder leaves as it stands: an ASCII letter or digit,
/// `-`, `.`, `_` or `~`.
pub open spec fn is_url_safe_byte(b: u8) -> bool {
    (0x30 <= b && b <= 0x39) || (0x41 <= b && b <= 0x5a) || (0x61 <= b && b <= 0x7a)
        || b == 0x2d || b == 0x2e || b == 0x5f || b == 0x7e
}

/// How one byte appears in percent-encoded text: a safe byte stands as
/// itself, every other byte as `%` and two upper-case hex digits.
pub open spec fn encoded_byte(b: u8) -> Seq<char> {
    if is_url_safe_byte(b) {
        seq![b as char]
    } else {
        seq!['%', hex_digit(b as int / 16), hex_digit(b as int % 16)]
    }
}

/// The percent-encoded text of a byte sequence, byte by byte.
pub open spec fn encoded_bytes(data: Seq<u8>) -> Seq<char>
    decreases data.len(),
{
    if data.len() == 0 {
        Seq::empty()
    } else {
        encoded_bytes(data.drop_last()) + encoded_byte(data.last())
    }
}

/// The percent-encoded form of a string: each byte of its UTF-8 form
/// encoded in turn.
pub open spec fn url_encoded(s: Seq<char>) -> Seq<char> {
    encoded_bytes(vstd::utf8::encode_utf8(s))
}

/// Relies on `urlencoding::encode`: percent-encodes every byte of the
/// string's UTF-8 form except ASCII alphanumerics and `-`, `.`, `_` and
/// `~`, writing `%` and two upper-case hex digits for each encoded byte.
#[verifier::external_body]
pub(crate) fn url_encode(s: &str) -> (r: String)
    ensures
        r@ == url_encoded(s@),
{
    urlencoding::encode(s).into_owned()
}

} // verus!
