//! Conformance harness logic for an interactive database client's bulk-copy
//! command: literal pattern search over live output, the interactive session
//! state machine, byte-exact output verification and the scenario tables.
//!
//! Nothing in this crate touches a process, a file or a terminal. Whoever
//! embeds it performs the reads and writes and hands the results in as plain
//! values.

pub mod bytes;
pub mod conversation;
pub mod conversation_laws;
pub mod diff;
pub mod fixture;
pub mod plan;
pub mod runner;
pub mod scenario;
pub mod script;
pub mod search;
pub mod session;
pub mod session_laws;
pub mod text;
pub mod verify;
