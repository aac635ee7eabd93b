//! Command-and-acknowledgement client core for a MAVLink telemetry link.
//!
//! The crate verifies the logic that surrounds a single shared connection:
//! the command table that resolves numeric command codes, the connection
//! manager that owns the one active link, the receiver pump's message
//! classification, and the dispatcher state machine that sends one command
//! and waits for its acknowledgement under a deadline. Transport I/O itself
//! (opening sockets, reading and writing frames) lives outside this crate;
//! callers hand the outcomes of those operations in as plain events.

pub mod command_table;
pub mod connection;
pub mod dispatcher;
pub mod messages;
pub mod pump;

pub use command_table::get_command_from_id;
