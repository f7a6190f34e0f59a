//! The replica's synchronization status, as an explicit value that the owner of
//! the connection advances on each event it sees.

use vstd::prelude::*;

verus! {

/// Where synchronization with the network stands.
#[derive(Clone, Debug, PartialEq)]
pub enum SyncStatus {
    /// Attempting to establish a connection.
    Connecting,
    /// Connected, nothing in flight.
    Connected,
    /// A request is in flight.
    Syncing,
    /// Something failed; the text says what.
    Error(String),
}

/// What the connection reports.
#[derive(Clone, Debug, PartialEq)]
pub enum SyncEvent {
    /// A connection attempt begins.
    Started,
    /// The connection is open.
    Opened,
    /// A request was handed to the connection.
    RequestSent,
    /// The host acknowledged a request.
    Acknowledged,
    /// Any other response, which leaves the status as it is.
    OtherResponse,
    /// Connecting, sending, receiving or merging failed.
    Failed(String),
}

impl SyncStatus {
    /// The status after `event`.
    pub open spec fn spec_after(self, event: SyncEvent) -> SyncStatus {
        match event {
            SyncEvent::Started => SyncStatus::Connecting,
            SyncEvent::Opened => SyncStatus::Connected,
            SyncEvent::RequestSent => SyncStatus::Syncing,
            SyncEvent::Acknowledged => SyncStatus::Connected,
            SyncEvent::OtherResponse => self,
            SyncEvent::Failed(reason) => SyncStatus::Error(reason),
        }
    }

    /// Advances the status on `event`.
    pub fn after(self, event: SyncEvent) -> (r: SyncStatus)
        ensures
            r == self.spec_after(event),
    {
        match event {
            SyncEvent::Started => SyncStatus::Connecting,
            SyncEvent::Opened => SyncStatus::Connected,
            SyncEvent::RequestSent => SyncStatus::Syncing,
            SyncEvent::Acknowledged => SyncStatus::Connected,
            SyncEvent::OtherResponse => self,
            SyncEvent::Failed(reason) => SyncStatus::Error(reason),
        }
    }
}

} // verus!
