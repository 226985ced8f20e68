//! The decisions of the exposure writer, which batches events from a channel
//! and flushes them to storage: when to flush, and how long and for how many
//! events to wait otherwise. The task that runs the loop performs the waits
//! and writes.
use vstd::prelude::*;

verus! {

/// Batching limits: flush when `batch_capacity` events are buffered, or when
/// events have waited `flush_interval_ms` milliseconds since the last flush.
#[derive(Clone, Copy, Debug)]
pub struct WriterConfig {
    pub batch_capacity: usize,
    pub flush_interval_ms: u64,
}

/// What the writer does next.
#[derive(Clone, Copy, Debug, PartialEq, Eq, Structural)]
pub enum WriterAction {
    /// Write the buffered events and restart the flush timer.
    Flush,
    /// Wait at most `timeout_ms` for up to `want` more events.
    Receive { timeout_ms: u64, want: usize },
}

/// How a wait for events ended.
#[derive(Clone, Copy, Debug, PartialEq, Eq, Structural)]
pub enum ReceiveResult {
    /// Every sender is gone.
    Closed,
    /// This many events were appended to the buffer.
    Received(usize),
    /// The timeout passed first.
    TimedOut,
}

/// What the writer does after a wait.
#[derive(Clone, Copy, Debug, PartialEq, Eq, Structural)]
pub enum WriterStep {
    /// Go on with the next decision.
    Continue,
    /// Write what is left, then stop.
    FlushAndExit,
    /// Stop.
    Exit,
}

pub open spec fn spec_should_flush(buffered: nat, elapsed_ms: nat, config: WriterConfig) -> bool {
    buffered >= config.batch_capacity || (buffered > 0 && elapsed_ms >= config.flush_interval_ms)
}

pub open spec fn saturating_sub(a: int, b: int) -> int {
    if a >= b {
        a - b
    } else {
        0
    }
}

pub open spec fn spec_next_writer_action(buffered: nat, elapsed_ms: nat, config: WriterConfig) -> WriterAction {
    if spec_should_flush(buffered, elapsed_ms, config) {
        WriterAction::Flush
    } else {
        let missing = saturating_sub(config.batch_capacity as int, buffered as int);
        WriterAction::Receive {
            timeout_ms: saturating_sub(config.flush_interval_ms as int, elapsed_ms as int) as u64,
            want: if missing >= 1 {
                missing as usize
            } else {
                1
            },
        }
    }
}

/// Flush when the batch is full, or when it holds events and the flush
/// interval has passed; otherwise wait for the rest of the interval for as
/// many events as fill the batch (at least one).
pub fn next_writer_action(buffered: usize, elapsed_ms: u64, config: &WriterConfig) -> (r: WriterAction)
    ensures
        r == spec_next_writer_action(buffered as nat, elapsed_ms as nat, *config),
{
    if buffered >= config.batch_capacity || (buffered > 0 && elapsed_ms >= config.flush_interval_ms) {
        return WriterAction::Flush;
    }
    let timeout_ms = if config.flush_interval_ms >= elapsed_ms {
        config.flush_interval_ms - elapsed_ms
    } else {
        0
    };
    let missing = if config.batch_capacity >= buffered {
        config.batch_capacity - buffered
    } else {
        0
    };
    let want = if missing >= 1 {
        missing
    } else {
        1
    };
    WriterAction::Receive { timeout_ms, want }
}

pub open spec fn spec_after_receive(result: ReceiveResult, buffered: nat) -> WriterStep {
    match result {
        ReceiveResult::Closed => if buffered > 0 {
            WriterStep::FlushAndExit
        } else {
            WriterStep::Exit
        },
        _ => WriterStep::Continue,
    }
}

/// After a wait: when the channel has closed, flush what is buffered (if
/// anything) and stop; otherwise continue.
pub fn after_receive(result: ReceiveResult, buffered: usize) -> (r: WriterStep)
    ensures
        r == spec_after_receive(result, buffered as nat),
{
    match result {
        ReceiveResult::Closed => if buffered > 0 {
            WriterStep::FlushAndExit
        } else {
            WriterStep::Exit
        },
        _ => WriterStep::Continue,
    }
}

/// A wait never asks for more events than fit in the batch, and always for
/// at least one: a writer that only receives what it asks for never holds
/// more than `batch_capacity` events.
pub proof fn law_receive_never_overfills(buffered: nat, elapsed_ms: nat, config: WriterConfig)
    ensures
        spec_next_writer_action(buffered, elapsed_ms, config) matches WriterAction::Receive {
            want,
            ..
        } ==> 1 <= want && buffered + want <= config.batch_capacity,
{
}

/// With a positive capacity the writer never writes an empty batch.
pub proof fn law_no_empty_flush(elapsed_ms: nat, config: WriterConfig)
    requires
        config.batch_capacity > 0,
    ensures
        spec_next_writer_action(0, elapsed_ms, config) != WriterAction::Flush,
{
}

/// A full batch is always written before anything else is received.
pub proof fn law_full_batch_is_flushed(buffered: nat, elapsed_ms: nat, config: WriterConfig)
    requires
        buffered >= config.batch_capacity,
    ensures
        spec_next_writer_action(buffered, elapsed_ms, config) == WriterAction::Flush,
{
}

/// When the channel closes, buffered events are written before the writer
/// stops; nothing is left behind.
pub proof fn law_close_flushes_remaining(buffered: nat)
    requires
        buffered > 0,
    ensures
        spec_after_receive(ReceiveResult::Closed, buffered) == WriterStep::FlushAndExit,
{
}

} // verus!
