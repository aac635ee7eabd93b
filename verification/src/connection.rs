//! The connection manager: owner of the single active connection. At most
//! one connection is live at a time; opening a new one atomically replaces
//! the old, and a failed open leaves the previous connection untouched.
//!
//! The transport handle itself lives outside this crate. The manager tracks
//! the state the core logic decides on — whether a connection is open, its
//! target, and a generation counter that rises on every replacement so a
//! pump bound to a superseded connection can tell it must stop.

use vstd::prelude::*;

verus! {

/// State of the one shared connection slot.
#[derive(Debug, PartialEq, Eq)]
pub struct ConnectionManager {
    /// The transport target of the active connection, `None` when closed.
    pub target: Option<String>,
    /// Rises by one each time the active connection is replaced. A pump
    /// bound to an earlier generation is reading a superseded connection.
    pub generation: u64,
}

impl ConnectionManager {
    /// A manager with no connection open.
    pub fn new() -> (m: ConnectionManager)
        ensures
            m.target is None,
            m.generation == 0,
    {
        ConnectionManager { target: None, generation: 0 }
    }

    /// Record the outcome of a transport-level open attempt on `target`.
    /// On success the new connection atomically replaces any previous one:
    /// the generation rises, so every reader holding the old one learns it
    /// is superseded. On failure the previous connection, if any, is left
    /// exactly as it was, and the transport diagnostic is returned verbatim.
    pub fn record_open(&mut self, target: String, outcome: Result<(), String>) -> (r: Result<u64, String>)
        requires
            old(self).generation < u64::MAX,
        ensures
            outcome is Ok ==> {
                &&& final(self).target == Some(target)
                &&& final(self).generation == old(self).generation + 1
                &&& r == Ok::<u64, String>(final(self).generation)
            },
            outcome matches Err(detail) ==> {
                &&& *final(self) == *old(self)
                &&& r == Err::<u64, String>(detail)
            },
    {
        match outcome {
            Ok(()) => {
                self.target = Some(target);
                self.generation = self.generation + 1;
                Ok(self.generation)
            }
            Err(detail) => Err(detail),
        }
    }

    /// Whether a connection is currently open. Operations that need the
    /// link test this first and fail fast instead of blocking.
    pub fn is_connected(&self) -> (b: bool)
        ensures
            b == (self.target is Some),
    {
        matches!(self.target, Some(_))
    }

    /// Whether a pump bound to `bound_generation` should keep running: true
    /// exactly while the connection it was bound to is still the active one.
    pub fn pump_should_run(&self, bound_generation: u64) -> (b: bool)
        ensures
            b == (self.target is Some && self.generation == bound_generation),
    {
        let open = matches!(self.target, Some(_));
        open && self.generation == bound_generation
    }
}

} // verus!
