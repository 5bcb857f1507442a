//! Text encodings that requests arrive in: standard base64, base58, UTF-8
//! and decimal integers.
use vstd::prelude::*;
use vstd::utf8::{valid_utf8, decode_utf8, encode_utf8};
use vstd::string::StringSliceAdditionalSpecFns;
use base64::engine::general_purpose::STANDARD as BASE64_STANDARD;
use base64::Engine;

verus! {

/// What `base64`'s standard engine (RFC 4648 alphabet, with padding) decodes
/// the given bytes to, or `None` where it reports an error.
pub uninterp spec fn base64_decoded(input: Seq<u8>) -> Option<Seq<u8>>;

/// What `base64`'s standard engine encodes the given bytes to.
pub uninterp spec fn base64_encoded(input: Seq<u8>) -> Seq<char>;

/// What `bs58::decode(..).into_vec()` (Bitcoin alphabet) decodes the given
/// bytes to, or `None` where it reports an error.
pub uninterp spec fn bs58_decoded(input: Seq<u8>) -> Option<Seq<u8>>;

/// Decodes standard base64 text.
///
/// Trusted: calls `base64::Engine::decode` on the `STANDARD` engine and
/// claims only that the result is the named decoding of the text's bytes.
#[verifier::external_body]
pub fn base64_decode(input: &str) -> (res: Option<Vec<u8>>)
    ensures
        res matches Some(v) ==> base64_decoded(input.spec_bytes()) == Some(v@),
        res is None ==> base64_decoded(input.spec_bytes()) is None,
{
    BASE64_STANDARD.decode(input).ok()
}

/// Encodes bytes as standard base64 text.
///
/// Trusted: calls `base64::Engine::encode` on the `STANDARD` engine and
/// claims that the result is the named encoding of the bytes, and that the
/// same engine decodes it back to them, as the crate documents.
#[verifier::external_body]
pub fn base64_encode(input: &[u8]) -> (res: String)
    ensures
        res@ == base64_encoded(input@),
        base64_decoded(encode_utf8(res@)) == Some(input@),
{
    BASE64_STANDARD.encode(input)
}

/// Decodes base58 text (Bitcoin alphabet).
///
/// Trusted: calls `bs58::decode(..).into_vec()` and claims only that the
/// result is the named decoding of the text's bytes.
#[verifier::external_body]
pub fn bs58_decode(input: &str) -> (res: Option<Vec<u8>>)
    ensures
        res matches Some(v) ==> bs58_decoded(input.spec_bytes()) == Some(v@),
        res is None ==> bs58_decoded(input.spec_bytes()) is None,
{
    bs58::decode(input).into_vec().ok()
}

/// Turns bytes into text when they are valid UTF-8.
///
/// Trusted: calls `String::from_utf8`, which std documents to succeed
/// exactly on valid UTF-8 and to keep the bytes as they are.
#[verifier::external_body]
pub fn utf8_string(bytes: Vec<u8>) -> (res: Option<String>)
    ensures
        res is Some <==> valid_utf8(bytes@),
        res matches Some(s) ==> s@ == decode_utf8(bytes@),
{
    String::from_utf8(bytes).ok()
}

/// Whether a character is one of the ASCII digits `0`..`9`.
pub open spec fn is_decimal_digit(c: char) -> bool {
    48 <= (c as u32) <= 57
}

/// The number that a sequence of ASCII digits denotes in base ten.
pub open spec fn decimal_value(digits: Seq<char>) -> nat
    decreases digits.len(),
{
    if digits.len() == 0 {
        0
    } else {
        (decimal_value(digits.drop_last()) * 10 + ((digits.last() as u32) - 48)) as nat
    }
}

/// The `u64` that decimal text denotes: an optional `+` followed by at least
/// one ASCII digit and nothing else, with a value that fits in 64 bits.
pub open spec fn u64_from_decimal(text: Seq<char>) -> Option<u64> {
    let digits = if text.len() > 0 && text[0] == '+' { text.drop_first() } else { text };
    if digits.len() > 0
        && (forall|i: int| 0 <= i < digits.len() ==> is_decimal_digit(#[trigger] digits[i]))
        && decimal_value(digits) <= u64::MAX {
        Some(decimal_value(digits) as u64)
    } else {
        None
    }
}

/// Parses decimal text as a `u64`.
///
/// Trusted: calls `str::parse::<u64>`, which std documents to accept an
/// optional `+` followed by digits only, and to fail on an empty string, on
/// any other character and on a value above `u64::MAX`.
#[verifier::external_body]
pub fn parse_u64(text: &str) -> (res: Option<u64>)
    ensures
        res == u64_from_decimal(text@),
{
    text.parse::<u64>().ok()
}

} // verus!
