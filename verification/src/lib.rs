//! A small transactional poll/voting state machine.
//!
//! A creator opens a poll with a fixed, ordered option set and a voting
//! window; each identity may cast at most one vote per poll; the creator may
//! close the poll once the window has ended. All records live in a [`ledger::Ledger`],
//! an explicit key-to-record store standing in for the host's durable storage;
//! the current time and the acting identity are passed into every transition.

pub mod error;
pub mod laws;
pub mod ledger;
pub mod state;
pub mod validate;
