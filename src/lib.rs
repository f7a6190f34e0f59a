//! Authenticated, mergeable room state: a versioned configuration record and
//! append-only messages, each signed by the key that governs it, reconciled
//! between replicas through summaries and deltas.

pub mod composable;
pub mod crypto;
pub mod encoding;
pub mod error;
pub mod signed;
pub mod member;
pub mod configuration;
pub mod room_state;
pub mod message;
pub mod messages;
pub mod sync;
