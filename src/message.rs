//! Messages: immutable, signed once by their author, named by their signature.

use crate::crypto::{
    fast_identifier, identifier_of, public_key_of, sign_bytes, signature_accepted, signature_of,
    verify_bytes, PublicKeyBytes, SecretKeyBytes, SignatureBytes,
};
use crate::encoding::{
    cbor_integer, cbor_map_header, cbor_text, field, integer_cbor, map_header, push_field, text_cbor,
    Canonical,
};
use crate::error::StateError;
use crate::member::MemberId;
use vstd::bytes::{spec_u32_from_le_bytes, spec_u32_to_le_bytes, u32_to_le_bytes};
use vstd::prelude::*;

verus! {

/// A point in time as seconds and nanoseconds since the Unix epoch.
#[derive(Clone, Copy, Debug, PartialEq, Eq, Hash, Structural)]
pub struct Timestamp {
    pub secs_since_epoch: u64,
    pub nanos_since_epoch: u32,
}

/// What an author wrote, and when.
#[derive(Clone, Debug, PartialEq)]
pub struct Message {
    pub time: Timestamp,
    pub content: String,
}

/// The identifier of an authorized message.
#[derive(Clone, Copy, Debug, PartialEq, Eq, Hash, PartialOrd, Ord, Structural)]
pub struct MessageId(pub i32);

impl Canonical for Timestamp {
    /// A map of the seconds and the nanoseconds since the epoch.
    open spec fn canonical(&self) -> Seq<u8> {
        map_header(2) + field("secs_since_epoch"@, integer_cbor(self.secs_since_epoch as i128))
            + field("nanos_since_epoch"@, integer_cbor(self.nanos_since_epoch as i128))
    }

    fn encode(&self) -> (r: Vec<u8>) {
        let mut out = cbor_map_header(2);
        push_field(&mut out, "secs_since_epoch", cbor_integer(self.secs_since_epoch as i128));
        push_field(&mut out, "nanos_since_epoch", cbor_integer(self.nanos_since_epoch as i128));
        out
    }
}

impl Canonical for Message {
    /// A map of the time, then the content.
    open spec fn canonical(&self) -> Seq<u8> {
        map_header(2) + field("time"@, self.time.canonical()) + field("content"@, text_cbor(self.content@))
    }

    fn encode(&self) -> (r: Vec<u8>) {
        let mut out = cbor_map_header(2);
        push_field(&mut out, "time", self.time.encode());
        push_field(&mut out, "content", cbor_text(self.content.as_str()));
        out
    }
}

/// The four little-endian bytes of a signed 32-bit integer.
pub open spec fn le_bytes(x: i32) -> Seq<u8> {
    spec_u32_to_le_bytes(
        #[verifier::truncate]
        (x as u32),
    )
}

/// The byte string an author signs: room fingerprint, encoded message, author,
/// concatenated in that order.
pub open spec fn signing_payload(room: i32, encoded: Seq<u8>, author: i32) -> Seq<u8> {
    le_bytes(room) + encoded + le_bytes(author)
}

/// The signed byte string of a message.
pub open spec fn payload_of(room: i32, message: Message, author: MemberId) -> Seq<u8> {
    signing_payload(room, message.canonical(), author.0)
}

fn i32_le_bytes(x: i32) -> (r: Vec<u8>)
    ensures
        r@ == le_bytes(x),
{
    u32_to_le_bytes(
        #[verifier::truncate]
        (x as u32),
    )
}

fn payload(room: i32, message: &Message, author: MemberId) -> (r: Vec<u8>)
    ensures
        r@ == payload_of(room, *message, author),
{
    let mut encoded = message.encode();
    let mut data = i32_le_bytes(room);
    let mut tail = i32_le_bytes(author.0);
    data.append(&mut encoded);
    data.append(&mut tail);
    data
}

/// A message in a room, with its author and the author's signature.
#[derive(Clone, Debug, PartialEq)]
pub struct AuthorizedMessage {
    /// Fast hash of the room owner's verification key.
    pub room_fhash: i32,
    pub message: Message,
    pub author: MemberId,
    pub signature: SignatureBytes,
}

impl AuthorizedMessage {
    /// Whether the signature validates under `public` over the signed byte string.
    pub open spec fn signed_by(&self, public: Seq<u8>) -> bool {
        signature_accepted(public, payload_of(self.room_fhash, self.message, self.author), self.signature@)
    }

    pub open spec fn spec_id(&self) -> MessageId {
        MessageId(identifier_of(self.signature@))
    }

    /// Signs the message for `room_fhash` as `author`. The result validates under
    /// the author's public key.
    pub fn new(room_fhash: i32, message: Message, author: MemberId, signing_key: &SecretKeyBytes) -> (r:
        Self)
        ensures
            r.room_fhash == room_fhash,
            r.message == message,
            r.author == author,
            r.signature@ == signature_of(signing_key@, payload_of(room_fhash, message, author)),
            r.signed_by(public_key_of(signing_key@)),
    {
        let data = payload(room_fhash, &message, author);
        let signature = sign_bytes(signing_key, data.as_slice());
        AuthorizedMessage { room_fhash, message, author, signature }
    }

    /// Checks the author's signature against `verifying_key`.
    pub fn validate(&self, verifying_key: &PublicKeyBytes) -> (r: Result<(), StateError>)
        ensures
            r is Ok <==> self.signed_by(verifying_key@),
            r is Err ==> r == Err::<(), StateError>(StateError::Authenticity),
    {
        let data = payload(self.room_fhash, &self.message, self.author);
        if verify_bytes(verifying_key, data.as_slice(), &self.signature) {
            Ok(())
        } else {
            Err(StateError::Authenticity)
        }
    }

    /// A field-by-field copy.
    pub fn copied(&self) -> (r: Self)
        ensures
            r == *self,
    {
        AuthorizedMessage {
            room_fhash: self.room_fhash,
            message: Message { time: self.message.time, content: self.message.content.clone() },
            author: self.author,
            signature: self.signature,
        }
    }

    /// The message's identifier: the fast hash of its signature.
    pub fn id(&self) -> (r: MessageId)
        ensures
            r == self.spec_id(),
    {
        MessageId(fast_identifier(&self.signature))
    }
}

/// A message's identifier depends on its signature alone: the same signature
/// gives the same identifier, every time and on every peer.
pub proof fn lemma_identifier_determined(m: AuthorizedMessage, n: AuthorizedMessage)
    requires
        m.signature == n.signature,
    ensures
        m.spec_id() == n.spec_id(),
{
}

/// The room fingerprint is bound into the signed bytes: the same message and
/// author under two different rooms give two different byte strings.
pub proof fn lemma_room_bound_into_payload(room1: i32, room2: i32, encoded: Seq<u8>, author: i32)
    requires
        room1 != room2,
    ensures
        signing_payload(room1, encoded, author) != signing_payload(room2, encoded, author),
{
    let u1 = #[verifier::truncate] (room1 as u32);
    let u2 = #[verifier::truncate] (room2 as u32);
    assert(u1 != u2) by (bit_vector)
        requires
            room1 != room2,
            u1 == #[verifier::truncate] (room1 as u32),
            u2 == #[verifier::truncate] (room2 as u32),
    ;
    vstd::bytes::lemma_auto_spec_u32_to_from_le_bytes();
    let p1 = signing_payload(room1, encoded, author);
    let p2 = signing_payload(room2, encoded, author);
    assert(p1.subrange(0, 4) == le_bytes(room1));
    assert(p2.subrange(0, 4) == le_bytes(room2));
    assert(spec_u32_from_le_bytes(le_bytes(room1)) == u1);
    assert(spec_u32_from_le_bytes(le_bytes(room2)) == u2);
}

} // verus!
