//! Randomness, hashing and encoding for tokens, codes and PKCE.

use base64::Engine;
use sha2::Digest;
use vstd::prelude::*;

verus! {

/// The character of a six-bit value in the URL-safe base64 alphabet
/// (`A`-`Z`, `a`-`z`, `0`-`9`, `-`, `_`).
pub open spec fn b64_char(v: int) -> char {
    if 0 <= v < 26 {
        (65 + v) as char
    } else if 26 <= v < 52 {
        (97 + v - 26) as char
    } else if 52 <= v < 62 {
        (48 + v - 52) as char
    } else if v == 62 {
        '-'
    } else {
        '_'
    }
}

/// URL-safe base64 without padding (RFC 4648, section 5): every three
/// bytes give four characters; a last pair of bytes gives three, a last
/// single byte two.
pub open spec fn base64url_spec(b: Seq<u8>) -> Seq<char>
    decreases b.len(),
{
    if b.len() == 0 {
        Seq::empty()
    } else if b.len() == 1 {
        seq![b64_char((b[0] / 4) as int), b64_char((b[0] % 4) * 16)]
    } else if b.len() == 2 {
        seq![
            b64_char((b[0] / 4) as int),
            b64_char((b[0] % 4) * 16 + b[1] / 16),
            b64_char((b[1] % 16) * 4),
        ]
    } else {
        seq![
            b64_char((b[0] / 4) as int),
            b64_char((b[0] % 4) * 16 + b[1] / 16),
            b64_char((b[1] % 16) * 4 + b[2] / 64),
            b64_char((b[2] % 64) as int),
        ] + base64url_spec(b.subrange(3, b.len() as int))
    }
}

/// The length of an encoding: four characters per whole group of three
/// bytes, and one more than the bytes left over.
pub proof fn lemma_base64url_len(b: Seq<u8>)
    ensures
        base64url_spec(b).len() == 4 * (b.len() / 3) + (if b.len() % 3 == 0 {
            0
        } else {
            b.len() % 3 + 1
        }),
    decreases b.len(),
{
    if b.len() >= 3 {
        lemma_base64url_len(b.subrange(3, b.len() as int));
    }
}

/// Encodes bytes in URL-safe base64 without padding, with the base64
/// crate's `URL_SAFE_NO_PAD` engine. The contract states the encoding of
/// RFC 4648; the crate panics only when the encoded length overflows,
/// which the bound on the input rules out.
#[verifier::external_body]
pub(crate) fn base64url_encode(input: &[u8]) -> (r: String)
    requires
        input@.len() < usize::MAX / 2,
    ensures
        r@ == base64url_spec(input@),
{
    base64::engine::general_purpose::URL_SAFE_NO_PAD.encode(input)
}

/// The SHA-256 digest of a byte string.
pub uninterp spec fn sha256_digest(data: Seq<u8>) -> Seq<u8>;

/// Hashes bytes with `sha2::Sha256::digest`. The contract claims that the
/// result is the digest of the input, named `sha256_digest`, and that a
/// digest has 32 bytes.
#[verifier::external_body]
pub(crate) fn sha256(data: &[u8]) -> (r: Vec<u8>)
    ensures
        r@ == sha256_digest(data@),
        r@.len() == 32,
{
    sha2::Sha256::digest(data).to_vec()
}

/// Draws 32 bytes from the thread-local generator with `rand::random`.
/// Nothing is claimed of the bytes.
#[verifier::external_body]
fn random_bytes() -> (r: [u8; 32]) {
    rand::random::<[u8; 32]>()
}

/// 32 random bytes.
pub fn random_token_bytes() -> (r: Vec<u8>)
    ensures
        r@.len() == 32,
{
    let a = random_bytes();
    let mut v: Vec<u8> = Vec::new();
    let mut i: usize = 0;
    while i < 32
        invariant
            i <= 32,
            v@.len() == i,
        decreases 32 - i,
    {
        v.push(a[i]);
        i = i + 1;
    }
    v
}

} // verus!
