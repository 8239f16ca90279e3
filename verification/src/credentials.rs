//! The form in which a password is kept.
use vstd::prelude::*;

verus! {

/// The MD5 digest of a text's bytes, written as lower-case hexadecimal.
pub uninterp spec fn md5_hex(text: Seq<char>) -> Seq<char>;

/// Calls `md5::compute` on the text and writes the digest as lower-case
/// hexadecimal. Claimed: the result is a function of the text alone, named
/// `md5_hex`.
#[verifier::external_body]
fn digest_hex(text: &str) -> (digest: String)
    ensures
        digest@ == md5_hex(text@),
{
    format!("{:x}", md5::compute(text))
}

/// The form in which a password is stored: its MD5 digest in hexadecimal.
pub fn stored_password(password: &str) -> (stored: String)
    ensures
        stored@ == md5_hex(password@),
{
    digest_hex(password)
}

} // verus!
