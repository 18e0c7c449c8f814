//! Decision logic for minting an instant video-meeting link through a
//! calendar provider.
//!
//! A run reads a request identifier from a ledger, obtains an access token,
//! creates a calendar event that asks for a conference, hands the meeting
//! link to the user, advances the ledger and deletes the event again. This
//! crate holds the decisions of such a run and the values that its calls are
//! made with; reading files, talking to the network and starting other
//! programs is left to the caller.

pub mod auth;
pub mod config;
pub mod error;
pub mod event;
pub mod ledger;
pub mod orchestrator;
pub mod report;
pub mod run;
pub mod session;
pub mod text;
