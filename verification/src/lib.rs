//! Event routing and an approval workflow for player name-change requests.
//!
//! The library holds the verified core of a relay bot: it tracks server
//! presence, turns each monitor notification into the outputs it owes,
//! renders name-change requests as actionable messages, recovers request
//! identity from rendered text alone, authorizes control presses, and
//! interprets the approval API's responses. All I/O — the chat platform,
//! the monitor connection, the HTTP transport — stays with the caller,
//! which carries out the actions these functions decide on.

pub mod config;
pub mod decimal;
pub mod endpoint;
pub mod interaction;
pub mod monitor;
pub mod presence;
pub mod request;
pub mod router;
