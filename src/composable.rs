//! The contract every mergeable component of a room meets: verify, summarize,
//! delta and apply_delta, over the enclosing state and the room's parameters.

use crate::error::StateError;
use vstd::prelude::*;

verus! {

pub trait ComposableState: Sized {
    /// The composite this component belongs to.
    type ParentState;
    /// A small stand-in for the component's state, enough to tell whether a peer
    /// is behind.
    type Summary;
    /// What brings a peer up to date.
    type Delta;
    /// The room's fixed governing parameters.
    type Parameters;

    /// Whether `verify` accepts this state.
    spec fn accepted(&self, parent_state: Self::ParentState, parameters: Self::Parameters) -> bool;

    /// Whether `summary` is this state's summary.
    spec fn summarized_by(&self, summary: Self::Summary) -> bool;

    /// Whether `delta` is what a peer whose summary is `old_summary` is sent.
    spec fn sends(&self, old_summary: Self::Summary, delta: Option<Self::Delta>) -> bool;

    /// Whether `new` is the state after `delta` is applied to `old`.
    spec fn merges_into(old: Self, delta: Option<Self::Delta>, new: Self) -> bool;

    /// Checks the state's authenticity and consistency; changes nothing.
    fn verify(&self, parent_state: &Self::ParentState, parameters: &Self::Parameters) -> (r: Result<
        (),
        StateError,
    >)
        ensures
            r is Ok <==> self.accepted(*parent_state, *parameters),
    ;

    /// The state's summary.
    fn summarize(&self, parent_state: &Self::ParentState, parameters: &Self::Parameters) -> (r:
        Self::Summary)
        ensures
            self.summarized_by(r),
    ;

    /// What a peer whose summary is `old_state_summary` lacks, or nothing.
    fn delta(
        &self,
        parent_state: &Self::ParentState,
        parameters: &Self::Parameters,
        old_state_summary: &Self::Summary,
    ) -> (r: Option<Self::Delta>)
        ensures
            self.sends(*old_state_summary, r),
    ;

    /// Merges `delta` into the state in place. On failure the state is left as
    /// it was.
    fn apply_delta(
        &mut self,
        parent_state: &Self::ParentState,
        parameters: &Self::Parameters,
        delta: &Option<Self::Delta>,
    ) -> (r: Result<(), StateError>)
        ensures
            r is Ok ==> Self::merges_into(*old(self), *delta, *final(self)),
            r is Err ==> *final(self) == *old(self),
    ;
}

} // verus!
