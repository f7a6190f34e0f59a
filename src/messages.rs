//! The message component: an append-only set of authorized messages, keyed by
//! identifier, where only presence matters.

use crate::composable::ComposableState;
use crate::crypto::identifier_of;
use crate::error::StateError;
use crate::message::{AuthorizedMessage, MessageId};
use crate::room_state::{ChatRoomParametersV1, ChatRoomStateV1};
use vstd::prelude::*;

verus! {

/// The identifiers of a sequence of messages, in order.
pub open spec fn ids_of(messages: Seq<AuthorizedMessage>) -> Seq<MessageId> {
    messages.map_values(|m: AuthorizedMessage| m.spec_id())
}

/// Whether no two messages share an identifier.
pub open spec fn distinct_ids(messages: Seq<AuthorizedMessage>) -> bool {
    forall|i: int, j: int|
        0 <= i < j < messages.len() ==> messages[i].spec_id() != messages[j].spec_id()
}

/// The messages whose identifiers are not in `known`, in order.
pub open spec fn missing_from(messages: Seq<AuthorizedMessage>, known: Seq<MessageId>) -> Seq<
    AuthorizedMessage,
>
    decreases messages.len(),
{
    if messages.len() == 0 {
        Seq::empty()
    } else {
        let rest = missing_from(messages.drop_last(), known);
        if known.contains(messages.last().spec_id()) {
            rest
        } else {
            rest.push(messages.last())
        }
    }
}

/// `existing` with each incoming message appended, in order, unless a message
/// with its identifier is already there.
pub open spec fn merged(existing: Seq<AuthorizedMessage>, incoming: Seq<AuthorizedMessage>) -> Seq<
    AuthorizedMessage,
>
    decreases incoming.len(),
{
    if incoming.len() == 0 {
        existing
    } else {
        let before = merged(existing, incoming.drop_last());
        if ids_of(before).contains(incoming.last().spec_id()) {
            before
        } else {
            before.push(incoming.last())
        }
    }
}

/// The messages carried by a delta, if any.
pub open spec fn carried(delta: Option<Vec<AuthorizedMessage>>) -> Option<Seq<AuthorizedMessage>> {
    match delta {
        Some(v) => Some(v@),
        None => None,
    }
}

fn ids_contain(ids: &Vec<MessageId>, id: MessageId) -> (r: bool)
    ensures
        r == ids@.contains(id),
{
    let mut i: usize = 0;
    while i < ids.len()
        invariant
            i <= ids@.len(),
            forall|k: int| 0 <= k < i ==> ids@[k] != id,
        decreases ids@.len() - i,
    {
        if ids[i] == id {
            assert(ids@[i as int] == id);
            return true;
        }
        i = i + 1;
    }
    false
}

/// Merging keeps every message already present, in place.
proof fn lemma_merged_extends(existing: Seq<AuthorizedMessage>, incoming: Seq<AuthorizedMessage>)
    ensures
        merged(existing, incoming).len() >= existing.len(),
        merged(existing, incoming).take(existing.len() as int) == existing,
    decreases incoming.len(),
{
    if incoming.len() > 0 {
        lemma_merged_extends(existing, incoming.drop_last());
        let before = merged(existing, incoming.drop_last());
        assert(before.push(incoming.last()).take(existing.len() as int) =~= before.take(
            existing.len() as int,
        ));
    }
}

/// After merging, every incoming identifier is present.
proof fn lemma_merged_holds_incoming(existing: Seq<AuthorizedMessage>, incoming: Seq<AuthorizedMessage>)
    ensures
        forall|k: int|
            0 <= k < incoming.len() ==> ids_of(merged(existing, incoming)).contains(
                #[trigger] incoming[k].spec_id(),
            ),
    decreases incoming.len(),
{
    if incoming.len() > 0 {
        let front = incoming.drop_last();
        lemma_merged_holds_incoming(existing, front);
        let before = merged(existing, front);
        let after = merged(existing, incoming);
        lemma_merged_extends(before, seq![incoming.last()]);
        assert forall|k: int| 0 <= k < incoming.len() implies ids_of(after).contains(
            #[trigger] incoming[k].spec_id(),
        ) by {
            if k < front.len() {
                assert(front[k] == incoming[k]);
                let j = choose|j: int| 0 <= j < ids_of(before).len() && ids_of(before)[j] == incoming[k].spec_id();
                if !ids_of(before).contains(incoming.last().spec_id()) {
                    assert(after == before.push(incoming.last()));
                    assert(after[j] == before[j]);
                    assert(ids_of(after)[j] == incoming[k].spec_id());
                }
            } else {
                if !ids_of(before).contains(incoming.last().spec_id()) {
                    assert(after == before.push(incoming.last()));
                    assert(ids_of(after)[before.len() as int] == incoming.last().spec_id());
                }
            }
        }
    }
}

/// Merging messages whose identifiers are all present already changes nothing.
proof fn lemma_merged_known(existing: Seq<AuthorizedMessage>, incoming: Seq<AuthorizedMessage>)
    requires
        forall|k: int|
            0 <= k < incoming.len() ==> ids_of(existing).contains(#[trigger] incoming[k].spec_id()),
    ensures
        merged(existing, incoming) == existing,
    decreases incoming.len(),
{
    if incoming.len() > 0 {
        let front = incoming.drop_last();
        assert forall|k: int| 0 <= k < front.len() implies ids_of(existing).contains(
            #[trigger] front[k].spec_id(),
        ) by {
            assert(front[k] == incoming[k]);
        }
        lemma_merged_known(existing, front);
        assert(ids_of(existing).contains(incoming[incoming.len() - 1].spec_id()));
    }
}

/// Merging never makes two messages share an identifier.
proof fn lemma_merged_distinct(existing: Seq<AuthorizedMessage>, incoming: Seq<AuthorizedMessage>)
    requires
        distinct_ids(existing),
    ensures
        distinct_ids(merged(existing, incoming)),
    decreases incoming.len(),
{
    if incoming.len() > 0 {
        lemma_merged_distinct(existing, incoming.drop_last());
        let before = merged(existing, incoming.drop_last());
        if !ids_of(before).contains(incoming.last().spec_id()) {
            let after = before.push(incoming.last());
            assert forall|i: int, j: int| 0 <= i < j < after.len() implies after[i].spec_id()
                != after[j].spec_id() by {
                if j == before.len() {
                    assert(ids_of(before)[i] == before[i].spec_id());
                }
            }
        }
    }
}

/// Applying the same message delta twice in a row gives what applying it once
/// gives.
pub proof fn lemma_merge_idempotent(existing: Seq<AuthorizedMessage>, incoming: Seq<AuthorizedMessage>)
    ensures
        merged(merged(existing, incoming), incoming) == merged(existing, incoming),
{
    lemma_merged_holds_incoming(existing, incoming);
    lemma_merged_known(merged(existing, incoming), incoming);
}

/// Every message whose identifier is not known is among the missing ones.
proof fn lemma_missing_covers(messages: Seq<AuthorizedMessage>, known: Seq<MessageId>)
    ensures
        forall|k: int|
            0 <= k < messages.len() && !known.contains(#[trigger] messages[k].spec_id())
                ==> missing_from(messages, known).contains(messages[k]),
    decreases messages.len(),
{
    if messages.len() > 0 {
        let front = messages.drop_last();
        lemma_missing_covers(front, known);
        let rest = missing_from(front, known);
        assert forall|k: int|
            0 <= k < messages.len() && !known.contains(#[trigger] messages[k].spec_id())
                implies missing_from(messages, known).contains(messages[k]) by {
            if k < front.len() {
                assert(front[k] == messages[k]);
                let i = choose|i: int| 0 <= i < rest.len() && rest[i] == messages[k];
                if !known.contains(messages.last().spec_id()) {
                    assert(rest.push(messages.last())[i] == messages[k]);
                }
            } else {
                assert(rest.push(messages.last())[rest.len() as int] == messages[k]);
            }
        }
    }
}

/// What a sender's delta brings: after a peer applies the delta computed
/// against its own summary, it holds every identifier the sender holds, and
/// every message it held before, in place.
pub proof fn lemma_delta_completes_peer(local: MessagesV1, peer: MessagesV1)
    ensures
        peer.applied(local.delta_for(ids_of(peer.messages@))).take(peer.messages@.len() as int)
            == peer.messages@,
        forall|k: int|
            0 <= k < local.messages@.len() ==> ids_of(
                peer.applied(local.delta_for(ids_of(peer.messages@))),
            ).contains(#[trigger] local.messages@[k].spec_id()),
{
    let known = ids_of(peer.messages@);
    let d = missing_from(local.messages@, known);
    let after = merged(peer.messages@, d);
    lemma_missing_covers(local.messages@, known);
    lemma_merged_holds_incoming(peer.messages@, d);
    lemma_merged_extends(peer.messages@, d);
    assert(peer.applied(local.delta_for(known)) == after) by {
        if d.len() == 0 {
            assert(d =~= Seq::<AuthorizedMessage>::empty());
        }
    }
    assert forall|k: int| 0 <= k < local.messages@.len() implies ids_of(after).contains(
        #[trigger] local.messages@[k].spec_id(),
    ) by {
        let m = local.messages@[k];
        if known.contains(m.spec_id()) {
            let j = choose|j: int| 0 <= j < known.len() && known[j] == m.spec_id();
            assert(after.take(peer.messages@.len() as int)[j] == peer.messages@[j]);
            assert(ids_of(after)[j] == m.spec_id());
        } else {
            let i = choose|i: int| 0 <= i < d.len() && d[i] == m;
            assert(ids_of(after).contains(d[i].spec_id()));
        }
    }
}

/// The messages of a room, each present at most once by identifier.
#[derive(Clone, Debug, PartialEq)]
pub struct MessagesV1 {
    pub messages: Vec<AuthorizedMessage>,
}

impl MessagesV1 {
    /// No identifier occurs twice.
    pub open spec fn well_formed(&self) -> bool {
        distinct_ids(self.messages@)
    }

    /// The component after applying `delta`.
    pub open spec fn applied(self, delta: Option<Seq<AuthorizedMessage>>) -> Seq<AuthorizedMessage> {
        match delta {
            Some(d) => merged(self.messages@, d),
            None => self.messages@,
        }
    }

    /// What a peer whose summary is `known` is sent.
    pub open spec fn delta_for(self, known: Seq<MessageId>) -> Option<Seq<AuthorizedMessage>> {
        if missing_from(self.messages@, known).len() == 0 {
            None
        } else {
            Some(missing_from(self.messages@, known))
        }
    }

    /// No messages.
    pub fn new() -> (r: Self)
        ensures
            r.messages@.len() == 0,
            r.well_formed(),
    {
        MessagesV1 { messages: Vec::new() }
    }

    /// Whether a message with identifier `id` is present.
    pub fn contains_id(&self, id: MessageId) -> (r: bool)
        ensures
            r == ids_of(self.messages@).contains(id),
    {
        let mut i: usize = 0;
        while i < self.messages.len()
            invariant
                i <= self.messages@.len(),
                forall|k: int| 0 <= k < i ==> self.messages@[k].spec_id() != id,
            decreases self.messages@.len() - i,
        {
            if self.messages[i].id() == id {
                assert(ids_of(self.messages@)[i as int] == id);
                return true;
            }
            i = i + 1;
        }
        assert(!ids_of(self.messages@).contains(id)) by {
            if ids_of(self.messages@).contains(id) {
                let k = choose|k: int| 0 <= k < ids_of(self.messages@).len() && ids_of(self.messages@)[k] == id;
                assert(self.messages@[k].spec_id() == id);
            }
        }
        false
    }
}

impl ComposableState for MessagesV1 {
    type ParentState = ChatRoomStateV1;
    type Summary = Vec<MessageId>;
    type Delta = Vec<AuthorizedMessage>;
    type Parameters = ChatRoomParametersV1;

    /// Every message was signed for this room: its fingerprint is the one of the
    /// room owner's key.
    open spec fn accepted(&self, parent_state: ChatRoomStateV1, parameters: ChatRoomParametersV1) -> bool {
        forall|k: int|
            0 <= k < self.messages@.len() ==> #[trigger] self.messages@[k].room_fhash
                == identifier_of(parameters.owner@)
    }

    open spec fn summarized_by(&self, summary: Vec<MessageId>) -> bool {
        summary@ == ids_of(self.messages@)
    }

    open spec fn sends(&self, old_summary: Vec<MessageId>, delta: Option<Vec<AuthorizedMessage>>) -> bool {
        carried(delta) == self.delta_for(old_summary@)
    }

    open spec fn merges_into(old: Self, delta: Option<Vec<AuthorizedMessage>>, new: Self) -> bool {
        &&& new.messages@ == old.applied(carried(delta))
        &&& old.well_formed() ==> new.well_formed()
    }

    /// Checks that every message is bound to this room. Signatures are checked
    /// against their authors' keys, which the parameters do not carry.
    fn verify(&self, _parent_state: &ChatRoomStateV1, parameters: &ChatRoomParametersV1) -> (r: Result<
        (),
        StateError,
    >)
        ensures
            r is Err ==> r == Err::<(), StateError>(StateError::Authenticity),
    {
        let room = parameters.room_fingerprint();
        let mut i: usize = 0;
        while i < self.messages.len()
            invariant
                i <= self.messages@.len(),
                room == identifier_of(parameters.owner@),
                forall|k: int| 0 <= k < i ==> #[trigger] self.messages@[k].room_fhash == room,
            decreases self.messages@.len() - i,
        {
            if self.messages[i].room_fhash != room {
                return Err(StateError::Authenticity);
            }
            i = i + 1;
        }
        Ok(())
    }

    /// The messages that a peer summarized by `old_summary` lacks, or nothing
    /// when it lacks none.
    fn delta(
        &self,
        _parent_state: &ChatRoomStateV1,
        _parameters: &ChatRoomParametersV1,
        old_summary: &Vec<MessageId>,
    ) -> (r: Option<Vec<AuthorizedMessage>>)
        ensures
            carried(r) == self.delta_for(old_summary@),
    {
        let mut out: Vec<AuthorizedMessage> = Vec::new();
        let mut i: usize = 0;
        while i < self.messages.len()
            invariant
                i <= self.messages@.len(),
                out@ == missing_from(self.messages@.take(i as int), old_summary@),
            decreases self.messages@.len() - i,
        {
            let m = &self.messages[i];
            assert(self.messages@.take(i + 1).drop_last() =~= self.messages@.take(i as int));
            if !ids_contain(old_summary, m.id()) {
                out.push(m.copied());
            }
            i = i + 1;
        }
        assert(self.messages@.take(i as int) =~= self.messages@);
        if out.len() == 0 {
            None
        } else {
            Some(out)
        }
    }

    /// Appends each incoming message whose identifier is not yet present; the
    /// rest are duplicates and are dropped. Never fails.
    fn apply_delta(
        &mut self,
        _parent_state: &ChatRoomStateV1,
        _parameters: &ChatRoomParametersV1,
        delta: &Option<Vec<AuthorizedMessage>>,
    ) -> (r: Result<(), StateError>)
        ensures
            r is Ok,
            final(self).messages@ == old(self).applied(carried(*delta)),
            old(self).well_formed() ==> final(self).well_formed(),
    {
        match delta {
            None => Ok(()),
            Some(incoming) => {
                let ghost start = self.messages@;
                let mut j: usize = 0;
                while j < incoming.len()
                    invariant
                        j <= incoming@.len(),
                        self.messages@ == merged(start, incoming@.take(j as int)),
                    decreases incoming@.len() - j,
                {
                    let m = &incoming[j];
                    assert(incoming@.take(j + 1).drop_last() =~= incoming@.take(j as int));
                    if !self.contains_id(m.id()) {
                        self.messages.push(m.copied());
                    }
                    j = j + 1;
                }
                assert(incoming@.take(j as int) =~= incoming@);
                proof {
                    if distinct_ids(start) {
                        lemma_merged_distinct(start, incoming@);
                    }
                }
                Ok(())
            },
        }
    }

    /// The summary a peer sends: the identifiers it holds, in order.
    fn summarize(&self, _parent_state: &ChatRoomStateV1, _parameters: &ChatRoomParametersV1) -> (r: Vec<
        MessageId,
    >)
        ensures
            r@ == ids_of(self.messages@),
    {
        let mut out: Vec<MessageId> = Vec::new();
        let mut i: usize = 0;
        while i < self.messages.len()
            invariant
                i <= self.messages@.len(),
                out@ == ids_of(self.messages@.take(i as int)),
            decreases self.messages@.len() - i,
        {
            out.push(self.messages[i].id());
            i = i + 1;
            assert(out@ =~= ids_of(self.messages@.take(i as int)));
        }
        assert(self.messages@.take(i as int) =~= self.messages@);
        out
    }
}

} // verus!
