//! Core of a small voting service: a closed vote type, an in-memory tally of
//! dog and cat votes, the handler that maps one accepted vote to a counter
//! mutation plus a persistence action, a sequence model of the backing vote
//! store, and the data that the page template is rendered from.
//!
//! Everything that talks to the outside world (the HTTP server, the real
//! database, the template engine) lives outside this crate and hands plain
//! values in and out.

pub mod counter;
pub mod handler;
pub mod page;
pub mod store;
pub mod vote;
