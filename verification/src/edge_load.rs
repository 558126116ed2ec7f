//! Count of edge inference calls in flight.
use vstd::prelude::*;

use std::sync::atomic::{AtomicUsize, Ordering};
use std::sync::Arc;

verus! {

/// Tracks in-flight edge upstream inference calls (local GPU / Ollama typically serial).
#[derive(Debug, Default)]
pub struct EdgeInferenceTracker {
    in_flight: AtomicUsize,
}

impl EdgeInferenceTracker {
    pub fn new() -> Arc<Self> {
        Arc::new(Self { in_flight: AtomicUsize::new(0) })
    }

    /// Calls in flight at the moment of reading; other threads may change it at once.
    pub fn in_flight(&self) -> usize {
        self.in_flight.load(Ordering::Acquire)
    }

    /// Whether a call was in flight at the moment of reading.
    pub fn is_busy(&self) -> bool {
        self.in_flight() > 0
    }

    /// Counts one more call in flight until the returned guard is dropped; the
    /// guard holds this tracker, so its drop releases this tracker's count.
    pub fn begin(self: &Arc<Self>) -> (r: EdgeInferenceGuard)
        ensures
            r.tracker() == **self,
    {
        self.in_flight.fetch_add(1, Ordering::AcqRel);
        EdgeInferenceGuard { tracker: Arc::clone(self) }
    }
}

/// Holds one in-flight count; dropping it releases the count.
pub struct EdgeInferenceGuard {
    tracker: Arc<EdgeInferenceTracker>,
}

impl EdgeInferenceGuard {
    /// The tracker whose count this guard holds.
    pub closed spec fn tracker(self) -> EdgeInferenceTracker {
        *self.tracker
    }
}

impl Drop for EdgeInferenceGuard {
    /// Calls `AtomicUsize::fetch_sub`, which does not panic.
    #[verifier::external_body]
    fn drop(&mut self)
        opens_invariants none
        no_unwind
    {
        self.tracker.in_flight.fetch_sub(1, Ordering::AcqRel);
    }
}

} // verus!
