//! Session controller for an interactive catalog search client.
//!
//! The crate holds the decisions of one search session: how a key press
//! changes the session, when a settled query is due for a remote lookup, how
//! a lookup's outcome is folded back into the session, how a response body is
//! decoded into catalog entries, and what a frame shows. Terminal and network
//! I/O stay with the caller, which hands in key presses, timestamps and
//! responses and carries out what the session asks for.
//!
//! - [`catalog`]: catalog entries and lookup failures.
//! - [`session`]: the session aggregate, the key dispatcher and the debounce
//!   trigger.
//! - [`render`]: the description of a frame.
//! - [`driver`]: the session loop as a state machine.
//! - [`remote`]: the search request's address and the decoding of responses.
//! - [`percent`]: percent-encoding of what goes into an address.
//! - [`json`], [`text`]: what is assumed of `serde_json` and of `String`.
//! - [`laws`]: what holds of every session, proved.

pub mod catalog;
pub mod driver;
pub mod json;
pub mod laws;
pub mod percent;
pub mod remote;
pub mod render;
pub mod session;
pub mod text;
