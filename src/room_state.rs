//! The room: its governing parameters and the composite of its components.
//! Every operation goes field by field, configuration first, then messages.

use crate::configuration::{lemma_apply_delta_idempotent, AuthorizedConfigurationV1};
use crate::crypto::{
    fast_identifier, identifier_of, public_key, public_key_of, PublicKeyBytes, SecretKeyBytes,
};
use crate::composable::ComposableState;
use crate::error::StateError;
use crate::message::{AuthorizedMessage, MessageId};
use crate::messages::{carried, lemma_merge_idempotent, merged, MessagesV1};
use vstd::prelude::*;

verus! {

/// Fixed per room and never synchronized: the owner's verification key, which
/// governs every authenticated record of the room.
#[derive(Clone, Copy, Debug, PartialEq, Eq)]
pub struct ChatRoomParametersV1 {
    pub owner: PublicKeyBytes,
}

/// One replica of a room's state.
#[derive(Clone, Debug, PartialEq)]
pub struct ChatRoomStateV1 {
    pub configuration: AuthorizedConfigurationV1,
    pub recent_messages: MessagesV1,
}

/// A room's summary, one entry per field.
#[derive(Clone, Debug, PartialEq)]
pub struct ChatRoomSummaryV1 {
    pub configuration: u32,
    pub recent_messages: Vec<MessageId>,
}

/// A room's delta, one entry per field; either may be absent.
#[derive(Clone, Debug, PartialEq)]
pub struct ChatRoomDeltaV1 {
    pub configuration: Option<AuthorizedConfigurationV1>,
    pub recent_messages: Option<Vec<AuthorizedMessage>>,
}

impl ChatRoomParametersV1 {
    /// The parameters of the room owned by the holder of `owner_signing_key`.
    pub fn from_owner_key(owner_signing_key: &SecretKeyBytes) -> (r: Self)
        ensures
            r.owner@ == public_key_of(owner_signing_key@),
    {
        ChatRoomParametersV1 { owner: public_key(owner_signing_key) }
    }

    /// The room's fingerprint, which every message of the room signs over: the
    /// fast-hash identifier of the owner's key.
    pub fn room_fingerprint(&self) -> (r: i32)
        ensures
            r == identifier_of(self.owner@),
    {
        fast_identifier(&self.owner)
    }
}

impl ChatRoomStateV1 {
    /// The message component holds no identifier twice.
    pub open spec fn well_formed(&self) -> bool {
        self.recent_messages.well_formed()
    }

    /// A room that holds `configuration` and no messages yet.
    pub fn new(configuration: AuthorizedConfigurationV1) -> (r: Self)
        ensures
            r.configuration == configuration,
            r.recent_messages.messages@.len() == 0,
            r.well_formed(),
    {
        ChatRoomStateV1 { configuration, recent_messages: MessagesV1::new() }
    }
}

impl ComposableState for ChatRoomStateV1 {
    type ParentState = ChatRoomStateV1;
    type Summary = ChatRoomSummaryV1;
    type Delta = ChatRoomDeltaV1;
    type Parameters = ChatRoomParametersV1;

    open spec fn accepted(&self, parent_state: ChatRoomStateV1, parameters: ChatRoomParametersV1) -> bool {
        &&& self.configuration.accepted(parent_state, parameters)
        &&& self.recent_messages.accepted(parent_state, parameters)
    }

    open spec fn summarized_by(&self, summary: ChatRoomSummaryV1) -> bool {
        &&& self.configuration.summarized_by(summary.configuration)
        &&& self.recent_messages.summarized_by(summary.recent_messages)
    }

    open spec fn sends(&self, old_summary: ChatRoomSummaryV1, delta: Option<ChatRoomDeltaV1>) -> bool {
        match delta {
            Some(d) => {
                &&& self.configuration.sends(old_summary.configuration, d.configuration)
                &&& self.recent_messages.sends(old_summary.recent_messages, d.recent_messages)
                &&& (d.configuration is Some || d.recent_messages is Some)
            },
            None => {
                &&& self.configuration.sends(old_summary.configuration, None)
                &&& self.recent_messages.sends(old_summary.recent_messages, None)
            },
        }
    }

    open spec fn merges_into(old: Self, delta: Option<ChatRoomDeltaV1>, new: Self) -> bool {
        match delta {
            Some(d) => {
                &&& AuthorizedConfigurationV1::merges_into(old.configuration, d.configuration, new.configuration)
                &&& MessagesV1::merges_into(old.recent_messages, d.recent_messages, new.recent_messages)
            },
            None => new == old,
        }
    }

    /// The conjunction of the fields' checks, configuration first; the first
    /// failure is reported.
    fn verify(&self, parent_state: &ChatRoomStateV1, parameters: &ChatRoomParametersV1) -> (r: Result<
        (),
        StateError,
    >)
        ensures
            r is Err ==> r == Err::<(), StateError>(StateError::Authenticity),
    {
        match self.configuration.verify(parent_state, parameters) {
            Err(e) => Err(e),
            Ok(()) => self.recent_messages.verify(parent_state, parameters),
        }
    }

    /// Each field's summary.
    fn summarize(&self, parent_state: &ChatRoomStateV1, parameters: &ChatRoomParametersV1) -> (r:
        ChatRoomSummaryV1) {
        ChatRoomSummaryV1 {
            configuration: self.configuration.summarize(parent_state, parameters),
            recent_messages: self.recent_messages.summarize(parent_state, parameters),
        }
    }

    /// Each field's delta against the peer's summary; nothing when every field
    /// has nothing to send.
    fn delta(
        &self,
        parent_state: &ChatRoomStateV1,
        parameters: &ChatRoomParametersV1,
        old_state_summary: &ChatRoomSummaryV1,
    ) -> (r: Option<ChatRoomDeltaV1>) {
        let configuration = self.configuration.delta(
            parent_state,
            parameters,
            &old_state_summary.configuration,
        );
        let recent_messages = self.recent_messages.delta(
            parent_state,
            parameters,
            &old_state_summary.recent_messages,
        );
        if configuration.is_none() && recent_messages.is_none() {
            None
        } else {
            Some(ChatRoomDeltaV1 { configuration, recent_messages })
        }
    }

    /// Applies each field's part of the delta independently; a field whose part
    /// is absent keeps its value. Never fails.
    fn apply_delta(
        &mut self,
        parent_state: &ChatRoomStateV1,
        parameters: &ChatRoomParametersV1,
        delta: &Option<ChatRoomDeltaV1>,
    ) -> (r: Result<(), StateError>)
        ensures
            r is Ok,
    {
        match delta {
            None => Ok(()),
            Some(d) => {
                let _ = self.configuration.apply_delta(parent_state, parameters, &d.configuration);
                let _ = self.recent_messages.apply_delta(
                    parent_state,
                    parameters,
                    &d.recent_messages,
                );
                Ok(())
            },
        }
    }
}

impl Default for ChatRoomStateV1 {
    /// The default configuration and no messages.
    fn default() -> (r: Self)
        ensures
            r.configuration.configuration.configuration_version == 1,
            r.configuration.configuration.name@ == "Default Room"@,
            r.recent_messages.messages@.len() == 0,
            r.well_formed(),
    {
        ChatRoomStateV1::new(AuthorizedConfigurationV1::default())
    }
}

/// Applying the same room delta twice in a row gives, field by field, what
/// applying it once gives.
pub proof fn lemma_room_apply_idempotent(
    configuration: AuthorizedConfigurationV1,
    messages: Seq<AuthorizedMessage>,
    delta: ChatRoomDeltaV1,
)
    ensures
        configuration.applied(delta.configuration).applied(delta.configuration)
            == configuration.applied(delta.configuration),
        match carried(delta.recent_messages) {
            Some(d) => merged(merged(messages, d), d) == merged(messages, d),
            None => true,
        },
{
    lemma_apply_delta_idempotent(configuration, delta.configuration);
    if let Some(d) = carried(delta.recent_messages) {
        lemma_merge_idempotent(messages, d);
    }
}

} // verus!
