//! Identifiers of room members.

use crate::crypto::{fast_identifier, identifier_of, PublicKeyBytes};
use vstd::prelude::*;

verus! {

/// A member, named by the fast-hash identifier of its verification key.
#[derive(Clone, Copy, Debug, PartialEq, Eq, Hash, Structural)]
pub struct MemberId(pub i32);

impl MemberId {
    /// The identifier of the member whose verification key is `verifying_key`.
    pub fn new(verifying_key: &PublicKeyBytes) -> (r: MemberId)
        ensures
            r == MemberId(identifier_of(verifying_key@)),
    {
        MemberId(fast_identifier(verifying_key))
    }
}

} // verus!
