//! Why a record or delta was refused.

use vstd::prelude::*;

verus! {

#[derive(Clone, Copy, Debug, PartialEq, Eq, Structural)]
pub enum StateError {
    /// The signature does not validate over the canonical encoding under the
    /// governing key.
    Authenticity,
}

} // verus!
