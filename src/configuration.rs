//! The room configuration: a single-writer record where the higher version wins.

use crate::crypto::{
    fast_identifier, identifier_of, public_key_of, sign_bytes, signature_accepted, signature_of,
    verify_bytes, PublicKeyBytes, SecretKeyBytes, SignatureBytes,
};
use crate::encoding::{
    cbor_integer, cbor_map_header, cbor_text, field, integer_cbor, map_header, push_field, text_cbor,
    Canonical,
};
use crate::composable::ComposableState;
use crate::error::StateError;
use crate::member::MemberId;
use crate::room_state::{ChatRoomParametersV1, ChatRoomStateV1};
use vstd::prelude::*;

verus! {

/// Room-wide settings, owned by one member and versioned by its owner.
#[derive(Clone, Debug, PartialEq)]
pub struct Configuration {
    pub owner_member_id: MemberId,
    pub configuration_version: u32,
    pub name: String,
    pub max_recent_messages: usize,
    pub max_user_bans: usize,
    pub max_message_size: usize,
    pub max_nickname_size: usize,
    pub max_members: usize,
}

impl Canonical for Configuration {
    /// A map of the eight fields, in declaration order.
    open spec fn canonical(&self) -> Seq<u8> {
        map_header(8) + field("owner_member_id"@, integer_cbor(self.owner_member_id.0 as i128))
            + field("configuration_version"@, integer_cbor(self.configuration_version as i128))
            + field("name"@, text_cbor(self.name@))
            + field("max_recent_messages"@, integer_cbor(self.max_recent_messages as i128))
            + field("max_user_bans"@, integer_cbor(self.max_user_bans as i128))
            + field("max_message_size"@, integer_cbor(self.max_message_size as i128))
            + field("max_nickname_size"@, integer_cbor(self.max_nickname_size as i128))
            + field("max_members"@, integer_cbor(self.max_members as i128))
    }

    fn encode(&self) -> (r: Vec<u8>) {
        let mut out = cbor_map_header(8);
        push_field(&mut out, "owner_member_id", cbor_integer(self.owner_member_id.0 as i128));
        push_field(&mut out, "configuration_version", cbor_integer(self.configuration_version as i128));
        push_field(&mut out, "name", cbor_text(self.name.as_str()));
        push_field(&mut out, "max_recent_messages", cbor_integer(self.max_recent_messages as i128));
        push_field(&mut out, "max_user_bans", cbor_integer(self.max_user_bans as i128));
        push_field(&mut out, "max_message_size", cbor_integer(self.max_message_size as i128));
        push_field(&mut out, "max_nickname_size", cbor_integer(self.max_nickname_size as i128));
        push_field(&mut out, "max_members", cbor_integer(self.max_members as i128));
        out
    }
}

impl Configuration {
    /// A field-by-field copy.
    pub fn copied(&self) -> (r: Self)
        ensures
            r == *self,
    {
        Configuration {
            owner_member_id: self.owner_member_id,
            configuration_version: self.configuration_version,
            name: self.name.clone(),
            max_recent_messages: self.max_recent_messages,
            max_user_bans: self.max_user_bans,
            max_message_size: self.max_message_size,
            max_nickname_size: self.max_nickname_size,
            max_members: self.max_members,
        }
    }
}

impl Default for Configuration {
    /// The genesis configuration: version 1, named "Default Room".
    fn default() -> (r: Self)
        ensures
            r.owner_member_id == MemberId(0),
            r.configuration_version == 1,
            r.name@ == "Default Room"@,
            r.max_recent_messages == 100,
            r.max_user_bans == 10,
            r.max_message_size == 1000,
            r.max_nickname_size == 50,
            r.max_members == 200,
    {
        Configuration {
            owner_member_id: MemberId(0),
            configuration_version: 1,
            name: "Default Room".to_owned(),
            max_recent_messages: 100,
            max_user_bans: 10,
            max_message_size: 1000,
            max_nickname_size: 50,
            max_members: 200,
        }
    }
}

/// A configuration with the owner's signature over its canonical encoding.
#[derive(Clone, Debug, PartialEq)]
pub struct AuthorizedConfigurationV1 {
    pub configuration: Configuration,
    pub signature: SignatureBytes,
}

impl AuthorizedConfigurationV1 {
    /// The version of the signed configuration.
    pub open spec fn version(&self) -> u32 {
        self.configuration.configuration_version
    }

    /// Whether the signature validates under `owner` over the encoded configuration.
    pub open spec fn signed_by(&self, owner: Seq<u8>) -> bool {
        signature_accepted(owner, self.configuration.canonical(), self.signature@)
    }

    /// The state after applying `delta`: the incoming record replaces this one
    /// exactly when its version is strictly greater.
    pub open spec fn applied(self, delta: Option<Self>) -> Self {
        match delta {
            Some(d) if d.version() > self.version() => d,
            _ => self,
        }
    }

    /// What a peer whose summary is `old_version` is sent.
    pub open spec fn delta_for(self, old_version: u32) -> Option<Self> {
        if self.version() > old_version {
            Some(self)
        } else {
            None
        }
    }

    /// Signs `configuration` with the owner's key. The result verifies under the
    /// owner's public key.
    pub fn new(configuration: Configuration, owner_signing_key: &SecretKeyBytes) -> (r: Self)
        ensures
            r.configuration == configuration,
            r.signature@ == signature_of(owner_signing_key@, configuration.canonical()),
            r.signed_by(public_key_of(owner_signing_key@)),
    {
        let bytes = configuration.encode();
        let signature = sign_bytes(owner_signing_key, bytes.as_slice());
        AuthorizedConfigurationV1 { configuration, signature }
    }

    /// Checks the signature against the owner's verification key.
    pub fn verify_signature(&self, owner_verifying_key: &PublicKeyBytes) -> (r: Result<
        (),
        StateError,
    >)
        ensures
            r is Ok <==> self.signed_by(owner_verifying_key@),
            r is Err ==> r == Err::<(), StateError>(StateError::Authenticity),
    {
        let bytes = self.configuration.encode();
        if verify_bytes(owner_verifying_key, bytes.as_slice(), &self.signature) {
            Ok(())
        } else {
            Err(StateError::Authenticity)
        }
    }

    /// The record's identifier: the fast hash of its signature.
    pub fn id(&self) -> (r: i32)
        ensures
            r == identifier_of(self.signature@),
    {
        fast_identifier(&self.signature)
    }

    /// A field-by-field copy.
    pub fn copied(&self) -> (r: Self)
        ensures
            r == *self,
    {
        AuthorizedConfigurationV1 {
            configuration: self.configuration.copied(),
            signature: self.signature,
        }
    }
}

impl ComposableState for AuthorizedConfigurationV1 {
    type ParentState = ChatRoomStateV1;
    type Summary = u32;
    type Delta = AuthorizedConfigurationV1;
    type Parameters = ChatRoomParametersV1;

    open spec fn accepted(&self, parent_state: ChatRoomStateV1, parameters: ChatRoomParametersV1) -> bool {
        self.signed_by(parameters.owner@)
    }

    open spec fn summarized_by(&self, summary: u32) -> bool {
        summary == self.version()
    }

    open spec fn sends(&self, old_summary: u32, delta: Option<Self>) -> bool {
        delta == self.delta_for(old_summary)
    }

    open spec fn merges_into(old: Self, delta: Option<Self>, new: Self) -> bool {
        new == old.applied(delta)
    }

    /// Authenticity under the room's governing key; the configuration is checked
    /// on its own, whatever the rest of the room holds.
    fn verify(&self, _parent_state: &ChatRoomStateV1, parameters: &ChatRoomParametersV1) -> (r:
        Result<(), StateError>)
        ensures
            r is Ok <==> self.signed_by(parameters.owner@),
            r is Err ==> r == Err::<(), StateError>(StateError::Authenticity),
    {
        self.verify_signature(&parameters.owner)
    }

    /// The summary a peer sends: its configuration version.
    fn summarize(&self, _parent_state: &ChatRoomStateV1, _parameters: &ChatRoomParametersV1) -> (r:
        u32)
        ensures
            r == self.version(),
    {
        self.configuration.configuration_version
    }

    /// The whole record when it is newer than what `old_version` summarizes,
    /// nothing otherwise.
    fn delta(
        &self,
        _parent_state: &ChatRoomStateV1,
        _parameters: &ChatRoomParametersV1,
        old_version: &u32,
    ) -> (r: Option<Self>)
        ensures
            r == self.delta_for(*old_version),
    {
        if self.configuration.configuration_version > *old_version {
            Some(self.copied())
        } else {
            None
        }
    }

    /// Takes the incoming record when its version is strictly greater; an absent,
    /// equal or older one is a no-op. Never fails.
    fn apply_delta(
        &mut self,
        _parent_state: &ChatRoomStateV1,
        _parameters: &ChatRoomParametersV1,
        delta: &Option<Self>,
    ) -> (r: Result<(), StateError>)
        ensures
            r is Ok,
            *final(self) == old(self).applied(*delta),
    {
        match delta {
            Some(cfg) => {
                if cfg.configuration.configuration_version > self.configuration.configuration_version {
                    *self = cfg.copied();
                }
                Ok(())
            },
            None => Ok(()),
        }
    }
}

impl Default for AuthorizedConfigurationV1 {
    /// The default configuration, signed with the all-zero secret key.
    fn default() -> (r: Self)
        ensures
            r.configuration.owner_member_id == MemberId(0),
            r.configuration.configuration_version == 1,
            r.configuration.name@ == "Default Room"@,
            r.configuration.max_recent_messages == 100,
            r.configuration.max_user_bans == 10,
            r.configuration.max_message_size == 1000,
            r.configuration.max_nickname_size == 50,
            r.configuration.max_members == 200,
            r.signature@ == signature_of(Seq::new(32, |i: int| 0u8), r.configuration.canonical()),
    {
        let default_key: SecretKeyBytes = [0u8; 32];
        let r = AuthorizedConfigurationV1::new(Configuration::default(), &default_key);
        assert(default_key@ =~= Seq::new(32, |i: int| 0u8));
        r
    }
}

/// A newer record replaces an older one exactly, and an older record leaves a
/// newer one as it is.
pub proof fn lemma_version_monotonic(c1: AuthorizedConfigurationV1, c2: AuthorizedConfigurationV1)
    requires
        c2.version() > c1.version(),
    ensures
        c1.applied(Some(c2)) == c2,
        c2.applied(Some(c1)) == c2,
{
}

/// Applying a delta twice in a row gives the state that applying it once gives.
pub proof fn lemma_apply_delta_idempotent(
    state: AuthorizedConfigurationV1,
    delta: Option<AuthorizedConfigurationV1>,
)
    ensures
        state.applied(delta).applied(delta) == state.applied(delta),
{
}

/// The delta sent to a peer that is behind brings it to this record exactly;
/// a peer that is current or ahead is sent nothing.
pub proof fn lemma_delta_brings_peer_up_to_date(
    local: AuthorizedConfigurationV1,
    peer: AuthorizedConfigurationV1,
)
    ensures
        peer.version() < local.version() ==> peer.applied(local.delta_for(peer.version())) == local,
        peer.version() >= local.version() ==> local.delta_for(peer.version()) is None,
{
}

} // verus!
