//! Reputation registry: agents register a profile, declare skills and earn
//! reputation through endorsements from their peers.

pub mod addressing;
pub mod endorsement;
pub mod error;
pub mod events;
pub mod history;
pub mod key;
pub mod ledger;
pub mod profile;
pub mod registration;
pub mod reputation;
pub mod state;
pub mod store;
