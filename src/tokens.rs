//! Unguessable tokens: random bytes from the operating system, written in
//! unpadded URL-safe base64.

use vstd::prelude::*;

use crate::text::{header_char, header_safe};

verus! {

/// The unpadded URL-safe base64 text of `bytes`, as the `base64` crate's
/// `URL_SAFE_NO_PAD` engine writes it.
pub uninterp spec fn b64url_of(bytes: Seq<u8>) -> Seq<char>;

/// A character of the URL-safe base64 alphabet.
pub open spec fn url_safe_char(c: char) -> bool {
    ('A' <= c && c <= 'Z') || ('a' <= c && c <= 'z') || ('0' <= c && c <= '9') || c == '-' || c
        == '_'
}

/// Length of the unpadded base64 text of `n` bytes.
pub open spec fn b64_len(n: nat) -> nat {
    (4 * n + 2) / 3
}

/// What a token drawn from `n` random bytes looks like.
pub open spec fn token_shape(t: Seq<char>, n: nat) -> bool {
    &&& t.len() == b64_len(n)
    &&& forall|i: int| 0 <= i < t.len() ==> #[trigger] url_safe_char(t[i])
    &&& exists|b: Seq<u8>| b.len() == n && t == b64url_of(b)
}

/// A token can be sent in a header.
pub proof fn lemma_token_header_safe(t: Seq<char>, n: nat)
    requires
        token_shape(t, n),
    ensures
        header_safe(t),
{
    assert forall|i: int| 0 <= i < t.len() implies #[trigger] header_char(t[i]) by {
        assert(url_safe_char(t[i]));
    }
}

/// Relies on `rand::rngs::OsRng` (`RngCore::fill_bytes`): `n` bytes from the
/// operating system's random source.
#[verifier::external_body]
fn random_bytes(n: usize) -> (r: Vec<u8>)
    ensures
        r@.len() == n,
{
    let mut b = vec![0u8; n];
    rand::RngCore::fill_bytes(&mut rand::rngs::OsRng, &mut b);
    b
}

/// Relies on `base64::engine::general_purpose::URL_SAFE_NO_PAD.encode`: four
/// characters of the URL-safe alphabet for each three bytes, two or three for
/// a last partial group, no padding.
#[verifier::external_body]
fn b64url(bytes: &[u8]) -> (r: String)
    ensures
        r@ == b64url_of(bytes@),
        r@.len() == b64_len(bytes@.len()),
        forall|i: int| 0 <= i < r@.len() ==> #[trigger] url_safe_char(r@[i]),
{
    base64::Engine::encode(&base64::engine::general_purpose::URL_SAFE_NO_PAD, bytes)
}

/// A fresh token of `n_bytes` random bytes in unpadded URL-safe base64.
pub fn random_token(n_bytes: usize) -> (r: String)
    ensures
        token_shape(r@, n_bytes as nat),
{
    let b = random_bytes(n_bytes);
    let t = b64url(b.as_slice());
    assert(b@.len() == n_bytes as nat && t@ == b64url_of(b@));
    t
}

} // verus!
