//! Turning the standard output of `git describe` into a describe result.

use vstd::prelude::*;
use vstd::string::StringSliceAdditionalSpecFns;
use vstd::utf8::{decode_utf8, valid_utf8};

verus! {

broadcast use vstd::utf8::encode_utf8_decode_utf8;

/// What `str::trim` returns for a text: the text without its leading and
/// trailing white space.
pub uninterp spec fn trimmed(s: Seq<char>) -> Seq<char>;

/// Relies on `std::str::from_utf8`: it succeeds exactly when the bytes are
/// valid UTF-8, and then returns a string slice made of those bytes.
#[verifier::external_body]
fn utf8_str(bytes: &[u8]) -> (r: Option<&str>)
    ensures
        r is Some <==> valid_utf8(bytes@),
        r matches Some(s) ==> s.spec_bytes() == bytes@,
{
    std::str::from_utf8(bytes).ok()
}

/// Relies on `str::trim`: leading and trailing white space removed, which
/// depends on the characters alone. What is left is a part of the text, and
/// it has no white space left at either end to remove.
#[verifier::external_body]
fn trim_whitespace(s: &str) -> (r: &str)
    ensures
        r@ == trimmed(s@),
        trimmed(r@) == r@,
{
    s.trim()
}

/// The describe result of a describe query that ran: absent when the query
/// did not succeed or its standard output is not valid UTF-8, else the
/// decoded output without its surrounding white space.
pub fn describe_result(success: bool, stdout: &[u8]) -> (r: Option<String>)
    ensures
        r is Some <==> (success && valid_utf8(stdout@)),
        r matches Some(s) ==> s@ == trimmed(decode_utf8(stdout@)),
        r matches Some(s) ==> trimmed(s@) == s@,
{
    if !success {
        return None;
    }
    match utf8_str(stdout) {
        Some(text) => {
            let t = trim_whitespace(text);
            Some(t.to_owned())
        },
        None => None,
    }
}

} // verus!
