//! A terminal console that sends G-code scripts to a printer-control server
//! over JSON-RPC and shows the replies.
//!
//! The library holds the decisions of the console: the line editor and its
//! wrap geometry, the reaction to terminal events, the scrollback of replies,
//! the framing of request envelopes and the fate of the session. Terminal
//! drawing, event polling, HTTP and the channels between the two loops live
//! in the program around it.
use vstd::prelude::*;

pub mod input;
pub mod rpc;
pub mod std_text;
pub mod ui;

verus! {

/// Capacity of each of the two queues between the terminal loop and the
/// network loop.
pub const QUEUE_CAPACITY: usize = 2;

/// Longest wait for a terminal event before the terminal loop looks for a
/// reply, in milliseconds.
pub const POLL_INTERVAL_MS: u64 = 100;

/// Server address used when none is given.
pub const DEFAULT_BASE_URL: &'static str = "http://localhost:7125";

/// What ends a session, as far as the library decides it.
#[derive(Debug)]
pub enum ConsoleError {
    /// JSON could not be written.
    Serde(serde_json::Error),
    /// The queue of commands was closed while the network loop waited on it.
    DisconnectedIOChannel,
    /// The queue of replies was closed while the terminal loop was running.
    DisconnectedNetworkChannel,
    /// A freshly drawn request identifier equals the one of the previous request.
    RepeatedRequestId,
}

/// Process status for the outcome of a session: zero on success only.
pub open spec fn exit_code_of<E>(outcome: Result<(), E>) -> i32 {
    if outcome is Ok {
        0
    } else {
        1
    }
}

/// The process status for the outcome of a session.
pub fn exit_status<E>(outcome: &Result<(), E>) -> (r: i32)
    ensures
        r == exit_code_of(*outcome),
{
    match outcome {
        Ok(()) => 0,
        Err(_) => 1,
    }
}

} // verus!
