//! The take-down flow: connect to the daemon's endpoint, ask it to stop,
//! then wait for the endpoint to disappear as confirmation.
//!
//! The socket operations run outside this library; `down` takes the observed
//! outcome of each stage and decides what the invocation reports.

use crate::net::ClientError;
use crate::net::WaitError;
use vstd::prelude::*;

verus! {

/// Arguments of the take-down operation.
pub struct Args {
    pub project: String,
    pub service: String,
}

/// How a take-down invocation ended: either every stage succeeded, or the
/// first failing stage names the failure the operator is told about.
#[derive(Clone, Copy, PartialEq, Eq, Structural, Debug)]
pub enum DownOutcome {
    /// Stop was delivered and the endpoint disappeared.
    Completed,
    /// No connection could be made to the endpoint.
    ConnectFailed,
    /// The connection stood but sending the stop request failed.
    SendFailed,
    /// The stop request was sent but the endpoint never disappeared.
    WaitFailed,
}

/// What the take-down flow decides, given the outcome of each stage in
/// order: connecting, sending `Stop`, and waiting for the disconnect.
pub open spec fn spec_down(
    connect: Result<usize, ClientError>,
    send_ok: bool,
    wait: Result<(), WaitError>,
) -> DownOutcome {
    if connect is Err {
        DownOutcome::ConnectFailed
    } else if !send_ok {
        DownOutcome::SendFailed
    } else if wait is Err {
        DownOutcome::WaitFailed
    } else {
        DownOutcome::Completed
    }
}

/// Decide how the take-down invocation ends. The first failing stage wins:
/// a connect failure before a send failure before a wait failure; only when
/// all three stages succeeded is the take-down complete.
pub fn down(
    connect: Result<usize, ClientError>,
    send_ok: bool,
    wait: Result<(), WaitError>,
) -> (r: DownOutcome)
    ensures
        r == spec_down(connect, send_ok, wait),
{
    if connect.is_err() {
        DownOutcome::ConnectFailed
    } else if !send_ok {
        DownOutcome::SendFailed
    } else if wait.is_err() {
        DownOutcome::WaitFailed
    } else {
        DownOutcome::Completed
    }
}

impl DownOutcome {
    /// The process exit code this outcome maps to: zero exactly on success.
    pub fn exit_code(&self) -> (r: i32)
        ensures
            (r == 0) == (*self == DownOutcome::Completed),
            r == 0 || r == 1,
    {
        match self {
            DownOutcome::Completed => 0,
            _ => 1,
        }
    }
}

} // verus!
