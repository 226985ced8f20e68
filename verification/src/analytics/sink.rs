use vstd::prelude::*;
use super::event::ExposureEvent;

verus! {

/// Where exposure events go. Handlers only depend on this trait; the
/// in-process channel sink is one implementation, a message queue could be
/// another.
pub trait EventSink: Send + Sync + 'static {
    /// Hands over one event without blocking; a sink that cannot take it
    /// drops it and counts the drop.
    fn record_exposure(&self, event: ExposureEvent);

    /// Number of events dropped so far.
    fn dropped(&self) -> u64;
}

/// A sink that discards every event and never counts a drop.
pub struct NoopEventSink;

impl EventSink for NoopEventSink {
    fn record_exposure(&self, _event: ExposureEvent) {
    }

    fn dropped(&self) -> (r: u64)
        ensures
            r == 0,
    {
        0
    }
}

} // verus!
