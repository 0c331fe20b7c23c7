//! Naming of per-job storage by a digest of the source URL.

use vstd::prelude::*;

use vstd::string::StringSliceAdditionalSpecFns;

use crate::text::{digit_char, push_digit};

verus! {

/// Upper-case hexadecimal text of a SHA-256 digest of a URL.
pub struct UrlHash(pub String);

/// What SHA-256 gives for `data`.
pub uninterp spec fn sha256_of(data: Seq<u8>) -> Seq<u8>;

/// Two upper-case hexadecimal digits per byte, most significant first.
pub open spec fn hex_upper(bytes: Seq<u8>) -> Seq<char>
    decreases bytes.len(),
{
    if bytes.len() == 0 {
        seq![]
    } else {
        let b = bytes.last();
        hex_upper(bytes.drop_last()) + seq![digit_char((b / 16) as int), digit_char((b % 16) as int)]
    }
}

/// Relies on ring's `digest::Context` with `SHA256`: the digest is a function of
/// the bytes fed to `update`, and `Digest::as_ref` yields its 32 bytes. `finish`
/// panics once the input reaches 2^61 bytes, which `requires` rules out.
#[verifier::external_body]
fn sha256_digest(data: &[u8]) -> (r: Vec<u8>)
    requires
        data@.len() < 0x2000_0000_0000_0000,
    ensures
        r@ == sha256_of(data@),
        r@.len() == 32,
{
    let mut context = ring::digest::Context::new(&ring::digest::SHA256);
    context.update(data);
    context.finish().as_ref().to_vec()
}

/// Upper-case hexadecimal text of `bytes`.
pub fn encode_hex(bytes: &[u8]) -> (r: String)
    ensures
        r@ == hex_upper(bytes@),
{
    let mut out = String::new();
    let mut i: usize = 0;
    while i < bytes.len()
        invariant
            i <= bytes@.len(),
            out@ == hex_upper(bytes@.take(i as int)),
        decreases bytes@.len() - i,
    {
        let b = bytes[i];
        push_digit(&mut out, b / 16);
        push_digit(&mut out, b % 16);
        proof {
            let next = bytes@.take(i + 1);
            assert(next.drop_last() =~= bytes@.take(i as int));
            assert(next.last() == b);
        }
        i = i + 1;
    }
    assert(bytes@.take(bytes@.len() as int) =~= bytes@);
    out
}

/// The storage name of a URL: the hexadecimal SHA-256 digest of its UTF-8 text.
pub fn hash_url(url: &str) -> (r: UrlHash)
    requires
        url.spec_bytes().len() < 0x2000_0000_0000_0000,
    ensures
        r.0@ == hex_upper(sha256_of(url.spec_bytes())),
{
    let digest = sha256_digest(url.as_bytes());
    UrlHash(encode_hex(digest.as_slice()))
}

} // verus!
