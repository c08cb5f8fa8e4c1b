//! Symmetric token keys derived from the operator's secret.
use vstd::prelude::*;
use vstd::utf8::encode_utf8;

verus! {

/// Label that binds a derived key to the token format, so that the same secret
/// yields unrelated keys for unrelated uses.
pub const TOKEN_KEY_INFO: &'static str = "paseto-v4-local-key";

/// The 32 bytes that HKDF-SHA256, without salt, expands from `ikm` under `info`.
pub uninterp spec fn hkdf_sha256_32(ikm: Seq<u8>, info: Seq<u8>) -> Seq<u8>;

/// The token key that a secret stands for.
pub open spec fn token_key_of(secret: Seq<char>) -> Seq<u8> {
    hkdf_sha256_32(encode_utf8(secret), encode_utf8(TOKEN_KEY_INFO@))
}

/// Relies on hkdf's `Hkdf::<Sha256>::new(None, ikm)` and `expand`: extract without
/// salt, then expand to 32 bytes (`expand` fails only past 255 blocks of output).
#[verifier::external_body]
fn hkdf_sha256_expand(ikm: &[u8], info: &[u8]) -> (r: [u8; 32])
    ensures
        r@ == hkdf_sha256_32(ikm@, info@),
{
    let mut okm = [0u8; 32];
    let _ = hkdf::Hkdf::<sha2::Sha256>::new(None, ikm).expand(info, &mut okm);
    okm
}

/// Derives a 32-byte key from a secret of any length (empty included) under a
/// domain-separation label. The same secret and label always give the same key.
pub fn derive_key(secret: &[u8], info: &[u8]) -> (r: [u8; 32])
    ensures
        r@ == hkdf_sha256_32(secret@, info@),
{
    hkdf_sha256_expand(secret, info)
}

/// The key under which tokens are issued and verified for a configured secret.
pub fn token_key(secret: &str) -> (r: [u8; 32])
    ensures
        r@ == token_key_of(secret@),
{
    derive_key(secret.as_bytes(), TOKEN_KEY_INFO.as_bytes())
}

} // verus!
