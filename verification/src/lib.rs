//! Domain and session logic of a personal time tracker.
//!
//! A user logs in with a shared secret, starts and stops timed entries
//! against named projects, and lists what was recorded. Durable state lives
//! in a remote store that this crate never talks to directly: every command
//! is a small protocol of requests and responses, decided here and carried
//! out by the caller.

pub mod error;
pub mod flow;
pub mod ident;
pub mod laws;
pub mod model;
pub mod protocol;
pub mod record;
pub mod report;
pub mod resolver;
pub mod seqs;
pub mod session;
pub mod store;
pub mod time;
pub mod tracker;
