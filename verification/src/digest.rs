//! The MD5 digest of a text, as lowercase hexadecimal.

use vstd::prelude::*;

verus! {

/// The lowercase hexadecimal MD5 digest of the UTF-8 encoding of `text`.
pub uninterp spec fn md5_hex(text: Seq<char>) -> Seq<char>;

/// Whether `c` is a digit or one of the letters `a` to `f`.
pub open spec fn is_lower_hex(c: char) -> bool {
    ('0' <= c && c <= '9') || ('a' <= c && c <= 'f')
}

/// Whether `s` has the shape of a rendered digest: 32 lowercase hexadecimal
/// characters.
pub open spec fn is_hex_digest(s: Seq<char>) -> bool {
    s.len() == 32 && forall|i: int| 0 <= i < 32 ==> is_lower_hex(#[trigger] s[i])
}

/// Calls `md5::compute` on the bytes of `s` and formats the digest with
/// `{:x}`. Trusted: the result is the digest named by `md5_hex`, and, as the
/// crate writes each of the 16 digest bytes as two lowercase hexadecimal
/// characters, it has the shape of `is_hex_digest`.
#[verifier::external_body]
fn md5_hex_digest(s: &str) -> (r: String)
    ensures
        r@ == md5_hex(s@),
        is_hex_digest(r@),
{
    format!("{:x}", md5::compute(s))
}

/// The MD5 digest of `s`, as 32 lowercase hexadecimal characters.
pub fn md5_hash(s: &str) -> (r: String)
    ensures
        r@ == md5_hex(s@),
        is_hex_digest(r@),
{
    md5_hex_digest(s)
}

} // verus!
