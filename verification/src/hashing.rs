//! Hex decoding and SHA-256, as the read side needs them for proposal code.

use vstd::prelude::*;

verus! {

/// The value of a lower-case hexadecimal digit, where `c` is one.
pub open spec fn lower_hex_value(c: char) -> Option<int> {
    if '0' <= c <= '9' {
        Some(c as int - '0' as int)
    } else if 'a' <= c <= 'f' {
        Some(c as int - 'a' as int + 10)
    } else {
        None
    }
}

/// `text` is lower-case hexadecimal: an even number of digits `0-9a-f`.
pub open spec fn is_lower_hex(text: Seq<char>) -> bool {
    &&& text.len() % 2 == 0
    &&& forall|i: int| 0 <= i < text.len() ==> lower_hex_value(#[trigger] text[i]) is Some
}

/// The bytes that lower-case hexadecimal text stands for: one byte for each
/// pair of digits, the first digit of the pair being the high half.
pub open spec fn lower_hex_bytes(text: Seq<char>) -> Seq<u8> {
    Seq::new(
        text.len() / 2,
        |i: int|
            (16 * lower_hex_value(text[2 * i]).unwrap() + lower_hex_value(
                text[2 * i + 1],
            ).unwrap()) as u8,
    )
}

/// The SHA-256 digest of `data`, as 64 lower-case hexadecimal digits.
pub uninterp spec fn sha256_hex(data: Seq<u8>) -> Seq<char>;

/// Calls `subtle_encoding::hex::decode` on the bytes of `text`. That decoder
/// accepts exactly the texts made of an even number of the digits `0-9a-f`
/// and returns the byte of each pair; every other text is an error, which
/// this wrapper hands on as `None` without its kind.
#[verifier::external_body]
pub(crate) fn hex_decode(text: &str) -> (decoded: Option<Vec<u8>>)
    ensures
        decoded is Some <==> is_lower_hex(text@),
        decoded matches Some(bytes) ==> bytes@ == lower_hex_bytes(text@),
{
    subtle_encoding::hex::decode(text).ok()
}

/// Calls `sha256::digest` on a byte vector. Its answer is the SHA-256 digest
/// of the bytes in lower-case hexadecimal, a function of the bytes alone.
#[verifier::external_body]
pub(crate) fn sha256_digest(data: Vec<u8>) -> (digest: String)
    ensures
        digest@ == sha256_hex(data@),
{
    sha256::digest(data)
}

} // verus!
