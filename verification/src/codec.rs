//! Text encodings of bytes used across the library: base64 (image
//! payloads, sealed audit payloads), hexadecimal (keys and salts) and UTF-8.
use vstd::prelude::*;
use base64::{engine::general_purpose, Engine as _};

verus! {

/// Whether `c` belongs to the standard base64 alphabet, padding included.
pub open spec fn is_b64_char(c: char) -> bool {
    ('a' <= c && c <= 'z') || ('A' <= c && c <= 'Z') || ('0' <= c && c <= '9') || c == '+' || c
        == '/' || c == '='
}

/// What `base64::engine::general_purpose::STANDARD.decode` returns for the
/// text `text`: the decoded bytes, or `None` where the text is not
/// canonical padded base64 of the standard alphabet.
pub uninterp spec fn base64_decoded(text: Seq<char>) -> Option<Seq<u8>>;

/// What `base64::engine::general_purpose::STANDARD.encode` returns for
/// `data`: its padded base64 text in the standard alphabet.
pub uninterp spec fn base64_encoded(data: Seq<u8>) -> Seq<char>;

/// `general_purpose::STANDARD.decode(text)`, its error turned into `None`.
/// The contract names the result.
#[verifier::external_body]
pub(crate) fn b64_decode(text: &str) -> (r: Option<Vec<u8>>)
    ensures
        r is None <==> base64_decoded(text@) is None,
        r matches Some(v) ==> base64_decoded(text@) == Some(v@),
{
    general_purpose::STANDARD.decode(text).ok()
}

/// `general_purpose::STANDARD.encode(data)`. The contract names the result
/// and claims what the crate documents of it: the text uses only the
/// standard alphabet and `=`, and decoding it gives `data` back.
#[verifier::external_body]
pub(crate) fn b64_encode(data: &[u8]) -> (r: String)
    ensures
        r@ == base64_encoded(data@),
        base64_decoded(r@) == Some(data@),
        forall|i: int| 0 <= i < r@.len() ==> is_b64_char(#[trigger] r@[i]),
{
    general_purpose::STANDARD.encode(data)
}

/// The value of the hexadecimal digit `c`, either case.
pub open spec fn hex_value(c: char) -> Option<int> {
    if '0' <= c && c <= '9' {
        Some(c as int - '0' as int)
    } else if 'a' <= c && c <= 'f' {
        Some(c as int - 'a' as int + 10)
    } else if 'A' <= c && c <= 'F' {
        Some(c as int - 'A' as int + 10)
    } else {
        None
    }
}

/// What `hex::decode` returns for `s`: the bytes of its digit pairs, high
/// digit first, or `None` when `s` has an odd length or a character that is
/// not a hexadecimal digit.
pub open spec fn hex_decoded(s: Seq<char>) -> Option<Seq<u8>> {
    if s.len() % 2 == 0 && forall|i: int| 0 <= i < s.len() ==> (#[trigger] hex_value(s[i])) is Some {
        Some(
            Seq::new(
                (s.len() / 2) as nat,
                |i: int| (16 * hex_value(s[2 * i]).unwrap() + hex_value(s[2 * i + 1]).unwrap()) as u8,
            ),
        )
    } else {
        None
    }
}

/// `hex::decode(s)`, its error turned into `None`.
#[verifier::external_body]
pub(crate) fn hex_decode(s: &str) -> (r: Option<Vec<u8>>)
    ensures
        r is None <==> hex_decoded(s@) is None,
        r matches Some(v) ==> hex_decoded(s@) == Some(v@),
{
    hex::decode(s).ok()
}

/// `String::from_utf8(bytes)`, its error turned into `None`: the text the
/// bytes encode when they are valid UTF-8.
#[verifier::external_body]
pub(crate) fn utf8_string(bytes: Vec<u8>) -> (r: Option<String>)
    ensures
        r is Some <==> vstd::utf8::valid_utf8(bytes@),
        r matches Some(s) ==> s@ == vstd::utf8::decode_utf8(bytes@),
{
    String::from_utf8(bytes).ok()
}

} // verus!
