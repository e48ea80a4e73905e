//! Percent-decoding of attribute values, done by the `urlencoding` crate.

use vstd::prelude::*;
use vstd::string::StringSliceAdditionalSpecFns;
use vstd::utf8::decode_utf8;
use vstd::utf8::valid_utf8;

verus! {

/// The error of std for bytes that are not UTF-8.
#[verifier::external_type_specification]
#[verifier::external_body]
pub struct ExFromUtf8Error(std::string::FromUtf8Error);

/// The value of one hexadecimal digit, in either case.
pub open spec fn hex_value(b: u8) -> Option<int> {
    if 0x30 <= b <= 0x39 {
        Some(b - 0x30)
    } else if 0x41 <= b <= 0x46 {
        Some(b - 0x41 + 10)
    } else if 0x61 <= b <= 0x66 {
        Some(b - 0x61 + 10)
    } else {
        None
    }
}

/// Whether `%` and two hexadecimal digits stand at the front of `bytes`.
pub open spec fn escape_at_front(bytes: Seq<u8>) -> bool {
    &&& bytes.len() >= 3
    &&& bytes[0] == 0x25
    &&& hex_value(bytes[1]) is Some
    &&& hex_value(bytes[2]) is Some
}

/// `bytes` with every `%` that two hexadecimal digits follow replaced,
/// together with the digits, by the byte that the digits spell.  Escapes are
/// found from left to right; every other byte stays, a `%` that no two digits
/// follow and a `+` too.
pub open spec fn percent_decoded(bytes: Seq<u8>) -> Seq<u8>
    decreases bytes.len(),
{
    if bytes.len() == 0 {
        bytes
    } else if escape_at_front(bytes) {
        seq![(16 * hex_value(bytes[1])->0 + hex_value(bytes[2])->0) as u8] + percent_decoded(
            bytes.skip(3),
        )
    } else {
        seq![bytes[0]] + percent_decoded(bytes.skip(1))
    }
}

/// Bytes without a `%` decode to themselves.
pub proof fn lemma_plain_bytes_stay(bytes: Seq<u8>)
    requires
        !bytes.contains(0x25),
    ensures
        percent_decoded(bytes) == bytes,
    decreases bytes.len(),
{
    if bytes.len() > 0 {
        let rest = bytes.skip(1);
        assert forall|i: int| 0 <= i < rest.len() implies rest[i] != 0x25 by {
            assert(rest[i] == bytes[i + 1]);
        }
        lemma_plain_bytes_stay(rest);
    }
}

/// `urlencoding::decode`.  It replaces the escapes in the UTF-8 bytes of
/// `text` as `percent_decoded` says and reads the outcome as UTF-8 again: the
/// result is that text, or the error of std where the bytes are no UTF-8.
#[verifier::external_body]
pub(crate) fn decode(text: &str) -> (r: Result<String, std::string::FromUtf8Error>)
    ensures
        match r {
            Ok(s) => valid_utf8(percent_decoded(text.spec_bytes())) && s@ == decode_utf8(
                percent_decoded(text.spec_bytes()),
            ),
            Err(_) => !valid_utf8(percent_decoded(text.spec_bytes())),
        },
{
    match urlencoding::decode(text) {
        Ok(decoded) => Ok(decoded.into_owned()),
        Err(e) => Err(e),
    }
}

/// The text with which std describes bytes that are not UTF-8.  Nothing is
/// claimed of it.
#[verifier::external_body]
pub(crate) fn error_text(error: &std::string::FromUtf8Error) -> (r: String) {
    format!("{}", error)
}

} // verus!
