//! The monitor's notification model: the discriminated events one update
//! batch can carry, as plain values the routing logic can be verified over.
//! The connection that produces them lives outside the library.

use vstd::prelude::*;

use crate::request::NameRequest;

verus! {

/// One chat line seen on the server.
pub struct ChatEvent {
    /// Tag of the chat kind, as the monitor names it.
    pub kind: String,
    /// The speaking player.
    pub from: String,
    /// The recipient, when the message was a whisper.
    pub to: Option<String>,
    /// The chat text.
    pub message: String,
}

/// A server-wide announcement.
pub struct BroadcastEvent {
    /// Tag of the broadcast scope, as the monitor names it.
    pub scope: String,
    /// The announcing player or system.
    pub from: String,
    /// The announcement text.
    pub message: String,
}

/// An in-game email.
pub struct EmailEvent {
    /// The sending player.
    pub from: String,
    /// The receiving player.
    pub to: String,
    /// The subject line, when one was given.
    pub subject: Option<String>,
    /// The body, one entry per line.
    pub body: Vec<String>,
}

/// A player's request to change their display name.
pub struct NameRequestEvent {
    /// Unique integer identifier of the requesting player.
    pub player_uid: u64,
    /// The requested display name.
    pub requested_name: String,
}

/// One discrete event inside an update batch.
pub enum Event {
    Chat(ChatEvent),
    Email(EmailEvent),
    Broadcast(BroadcastEvent),
    NameRequest(NameRequestEvent),
    /// Any event kind the router ignores.
    Other,
}

/// One snapshot from the monitor: the current player count plus the events
/// seen since the last batch, in arrival order.
pub struct MonitorUpdate {
    pub player_count: usize,
    pub events: Vec<Event>,
}

/// A discrete signal from the monitored server connection.
pub enum MonitorNotification {
    Connected,
    Disconnected,
    Updated(MonitorUpdate),
}

impl From<NameRequestEvent> for NameRequest {
    /// The request a live monitor event announces.
    fn from(value: NameRequestEvent) -> (r: Self) {
        NameRequest { player_uid: value.player_uid, requested_name: value.requested_name }
    }
}

impl vstd::std_specs::convert::FromSpecImpl<NameRequestEvent> for NameRequest {
    open spec fn obeys_from_spec() -> bool {
        true
    }

    open spec fn from_spec(value: NameRequestEvent) -> Self {
        NameRequest { player_uid: value.player_uid, requested_name: value.requested_name }
    }
}

} // verus!
