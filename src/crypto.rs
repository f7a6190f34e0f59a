//! Identity hashing and Ed25519 signing over raw key and signature bytes.

use ed25519_dalek::Signer;
use ed25519_dalek::Verifier;
use vstd::prelude::*;

verus! {

/// Secret half of an authority key pair.
pub type SecretKeyBytes = [u8; 32];

/// Public (verification) half of an authority key pair.
pub type PublicKeyBytes = [u8; 32];

/// A detached Ed25519 signature.
pub type SignatureBytes = [u8; 64];

/// The fast hash: a wrapping base-31 polynomial over the bytes, in 64 bits.
pub open spec fn fast_hash_of(bytes: Seq<u8>) -> i64
    decreases bytes.len(),
{
    if bytes.len() == 0 {
        0
    } else {
        fast_hash_of(bytes.drop_last()).wrapping_mul(31).wrapping_add(bytes.last() as i64)
    }
}

/// A 32-bit identifier: the fast hash truncated to its low 32 bits.
pub open spec fn identifier_of(bytes: Seq<u8>) -> i32 {
    #[verifier::truncate]
    (fast_hash_of(bytes) as i32)
}

/// The public key that belongs to a secret key.
pub uninterp spec fn public_key_of(secret: Seq<u8>) -> Seq<u8>;

/// The Ed25519 signature of a message under a secret key.
pub uninterp spec fn signature_of(secret: Seq<u8>, message: Seq<u8>) -> Seq<u8>;

/// Whether a signature over a message validates under a public key.
pub uninterp spec fn signature_accepted(public: Seq<u8>, message: Seq<u8>, signature: Seq<u8>) -> bool;

/// The fast hash of a byte string, 64 bits wide.
pub fn fast_hash(bytes: &[u8]) -> (r: i64)
    ensures
        r == fast_hash_of(bytes@),
{
    let mut hash: i64 = 0;
    let mut i: usize = 0;
    while i < bytes.len()
        invariant
            i <= bytes@.len(),
            hash == fast_hash_of(bytes@.take(i as int)),
        decreases bytes@.len() - i,
    {
        assert(bytes@.take(i + 1).drop_last() =~= bytes@.take(i as int));
        hash = hash.wrapping_mul(31).wrapping_add(bytes[i] as i64);
        i = i + 1;
    }
    assert(bytes@.take(i as int) =~= bytes@);
    hash
}

/// The identifier of a byte string (a signature, in practice).
pub fn fast_identifier(bytes: &[u8]) -> (r: i32)
    ensures
        r == identifier_of(bytes@),
{
    let h = fast_hash(bytes);
    #[verifier::truncate]
    (h as i32)
}

/// Relies on ed25519_dalek::SigningKey::from_bytes and verifying_key: the public
/// key that belongs to a secret key, a function of the secret key alone.
#[verifier::external_body]
pub(crate) fn public_key(secret: &SecretKeyBytes) -> (r: PublicKeyBytes)
    ensures
        r@ == public_key_of(secret@),
{
    ed25519_dalek::SigningKey::from_bytes(secret).verifying_key().to_bytes()
}

/// Relies on ed25519_dalek's `Signer` impl for SigningKey: the signature is a
/// function of key and message, and it verifies under the matching public key.
#[verifier::external_body]
pub(crate) fn sign_bytes(secret: &SecretKeyBytes, message: &[u8]) -> (r: SignatureBytes)
    ensures
        r@ == signature_of(secret@, message@),
        signature_accepted(public_key_of(secret@), message@, r@),
{
    ed25519_dalek::SigningKey::from_bytes(secret).sign(message).to_bytes()
}

/// Relies on ed25519_dalek::VerifyingKey::from_bytes and its `Verifier` impl:
/// whether the signature validates; a key that is no curve point validates nothing.
#[verifier::external_body]
pub(crate) fn verify_bytes(public: &PublicKeyBytes, message: &[u8], signature: &SignatureBytes) -> (r: bool)
    ensures
        r == signature_accepted(public@, message@, signature@),
{
    match ed25519_dalek::VerifyingKey::from_bytes(public) {
        Ok(key) => key.verify(message, &ed25519_dalek::Signature::from_bytes(signature)).is_ok(),
        Err(_) => false,
    }
}

} // verus!
