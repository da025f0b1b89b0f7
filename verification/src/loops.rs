//! The decisions of the two long-running loops: the market stream loop, which
//! reconnects forever, and the keep-alive loop of the user data stream, which
//! renews the listen key until a renewal fails.

use vstd::prelude::*;

verus! {

/// Seconds between two renewals of the user data stream's listen key.
pub const KEEP_ALIVE_PERIOD_SECS: u64 = 1800;

/// How one run of the websocket event loop ended.
#[derive(Clone, Copy, Debug, PartialEq, Eq, Structural)]
pub enum EventLoopEnd {
    /// The event loop returned normally.
    Returned,
    /// The event loop failed with an error.
    Failed,
}

/// What the market stream loop does after its event loop ends.
#[derive(Clone, Copy, Debug, PartialEq, Eq, Structural)]
pub enum StreamStep {
    /// Open a new connection to the same streams.
    Reconnect,
    /// Report the error, close the connection, then open a new one.
    ReportCloseAndReconnect,
}

/// The market stream loop never stops: after an event loop that returned it
/// reconnects at once; after one that failed it reports the error and closes the
/// connection first.
pub fn after_event_loop(end: EventLoopEnd) -> (step: StreamStep)
    ensures
        end == EventLoopEnd::Returned ==> step == StreamStep::Reconnect,
        end == EventLoopEnd::Failed ==> step == StreamStep::ReportCloseAndReconnect,
{
    match end {
        EventLoopEnd::Returned => StreamStep::Reconnect,
        EventLoopEnd::Failed => StreamStep::ReportCloseAndReconnect,
    }
}

/// What the keep-alive loop does next.
#[derive(Clone, Copy, Debug, PartialEq, Eq, Structural)]
pub enum KeepAliveStep {
    /// Sleep this many seconds, then renew the listen key.
    WaitThenRenew(u64),
    /// Leave the loop.
    Stop,
}

/// The keep-alive loop starts by waiting one period.
pub fn keep_alive_start() -> (step: KeepAliveStep)
    ensures
        step == KeepAliveStep::WaitThenRenew(KEEP_ALIVE_PERIOD_SECS),
{
    KeepAliveStep::WaitThenRenew(KEEP_ALIVE_PERIOD_SECS)
}

/// After a renewal: wait one more period if it succeeded, stop if it failed.
pub fn after_renewal(renewed: bool) -> (step: KeepAliveStep)
    ensures
        renewed ==> step == KeepAliveStep::WaitThenRenew(KEEP_ALIVE_PERIOD_SECS),
        !renewed ==> step == KeepAliveStep::Stop,
{
    if renewed {
        KeepAliveStep::WaitThenRenew(KEEP_ALIVE_PERIOD_SECS)
    } else {
        KeepAliveStep::Stop
    }
}

} // verus!
