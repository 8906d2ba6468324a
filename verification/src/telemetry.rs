//! When a batch of telemetry events leaves the buffer.

use vstd::prelude::*;

verus! {

/// Number of buffered events at which a batch is sent at once.
pub const BATCH_SIZE: usize = 10;

/// Seconds after which a batch that is not full is sent.
pub const FLUSH_INTERVAL_SEC: u64 = 30;

/// What woke the worker.
#[derive(Debug, Clone, Copy, PartialEq, Eq, Structural)]
pub enum Wakeup {
    /// An event was added to the buffer.
    Event,
    /// The flush interval ran out.
    Timeout,
}

/// What is done with the buffer.
#[derive(Debug, Clone, Copy, PartialEq, Eq, Structural)]
pub enum BatchAction {
    /// Keep collecting.
    Keep,
    /// Send the buffered events and empty the buffer.
    Send,
    /// Telemetry is switched off: empty the buffer without sending.
    Discard,
}

/// What is done with a buffer of `buffered` events: it is flushed when it has
/// reached the batch size, or, on a timeout, when it holds anything; a flush
/// sends the events if telemetry is enabled and drops them otherwise.
pub open spec fn batch_action_of(wakeup: Wakeup, buffered: usize, enabled: bool) -> BatchAction {
    let flush = match wakeup {
        Wakeup::Event => buffered >= BATCH_SIZE,
        Wakeup::Timeout => buffered > 0,
    };
    if !flush {
        BatchAction::Keep
    } else if enabled {
        BatchAction::Send
    } else {
        BatchAction::Discard
    }
}

/// Decides what is done with the buffer after a wake-up.
pub fn batch_action(wakeup: Wakeup, buffered: usize, enabled: bool) -> (r: BatchAction)
    ensures
        r == batch_action_of(wakeup, buffered, enabled),
{
    let flush: bool = match wakeup {
        Wakeup::Event => buffered >= BATCH_SIZE,
        Wakeup::Timeout => buffered > 0,
    };
    if !flush {
        BatchAction::Keep
    } else if enabled {
        BatchAction::Send
    } else {
        BatchAction::Discard
    }
}

} // verus!
