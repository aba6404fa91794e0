//! Trusted wrappers around base64url (URL-safe alphabet, no padding), the
//! transport encoding of every byte buffer that crosses the library's
//! boundary.

use vstd::prelude::*;

verus! {

/// A character of the URL-safe base64 alphabet: `A`-`Z`, `a`-`z`, `0`-`9`,
/// `-` or `_`.
pub open spec fn b64url_alphabet_char(c: char) -> bool {
    let n = c as int;
    (65 <= n && n <= 90) || (97 <= n && n <= 122) || (48 <= n && n <= 57) || n == 45 || n == 95
}

/// The base64url (no padding) text of a byte string.
pub uninterp spec fn b64url_chars(data: Seq<u8>) -> Seq<char>;

/// What decoding a base64url text yields: the encoded bytes, or nothing
/// when the text is not well-formed base64url.
pub uninterp spec fn b64url_parse(s: Seq<char>) -> Option<Seq<u8>>;

/// Relies on base64_url::encode (base64's URL_SAFE_NO_PAD engine): the text
/// is a function of the input bytes alone, it is drawn from the URL-safe
/// alphabet, and base64_url::decode gives the input back.
#[verifier::external_body]
pub(crate) fn b64url_encode(data: &[u8]) -> (r: String)
    ensures
        r@ == b64url_chars(data@),
        b64url_parse(r@) == Some(data@),
        forall|i: int| 0 <= i < r@.len() ==> b64url_alphabet_char(#[trigger] r@[i]),
{
    base64_url::encode(data)
}

/// Relies on base64_url::decode (base64's URL_SAFE_NO_PAD engine): decoding
/// is a function of the text alone; it yields bytes exactly when the text is
/// well-formed.
#[verifier::external_body]
pub(crate) fn b64url_decode(s: &str) -> (r: Option<Vec<u8>>)
    ensures
        match r {
            Some(v) => b64url_parse(s@) == Some(v@),
            None => b64url_parse(s@) is None,
        },
{
    base64_url::decode(s).ok()
}

} // verus!
