//! A payload bound to a detached signature over its canonical encoding.

use crate::crypto::{
    public_key_of, sign_bytes, signature_accepted, signature_of, verify_bytes, PublicKeyBytes,
    SecretKeyBytes, SignatureBytes,
};
use crate::encoding::Canonical;
use crate::error::StateError;
use vstd::prelude::*;

verus! {

/// Whether `signature` validates under `public` over the canonical encoding of
/// `payload`.
pub open spec fn authentic<T: Canonical>(payload: T, public: Seq<u8>, signature: Seq<u8>) -> bool {
    signature_accepted(public, payload.canonical(), signature)
}

#[derive(Clone, Debug, PartialEq)]
pub struct Signed<T> {
    pub message: T,
    pub signature: SignatureBytes,
}

impl<T: Canonical> Signed<T> {
    /// Signs the canonical encoding of `message`. Signing always succeeds, and
    /// the result verifies under the public key of `signing_key`.
    pub fn new(message: T, signing_key: &SecretKeyBytes) -> (r: Result<Self, StateError>)
        ensures
            match r {
                Ok(s) => {
                    &&& s.message == message
                    &&& s.signature@ == signature_of(signing_key@, message.canonical())
                    &&& authentic(s.message, public_key_of(signing_key@), s.signature@)
                },
                Err(_) => false,
            },
    {
        let bytes = message.encode();
        let signature = sign_bytes(signing_key, bytes.as_slice());
        Ok(Signed { message, signature })
    }

    /// Checks the signature against `verifying_key`.
    pub fn verify(&self, verifying_key: &PublicKeyBytes) -> (r: Result<(), StateError>)
        ensures
            r is Ok <==> authentic(self.message, verifying_key@, self.signature@),
            r is Err ==> r == Err::<(), StateError>(StateError::Authenticity),
    {
        let bytes = self.message.encode();
        if verify_bytes(verifying_key, bytes.as_slice(), &self.signature) {
            Ok(())
        } else {
            Err(StateError::Authenticity)
        }
    }
}

} // verus!
