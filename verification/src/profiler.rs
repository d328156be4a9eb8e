//! Profiler that records nothing.
use vstd::prelude::*;

verus! {

/// Profiler that is never enabled and keeps no metrics.
#[derive(Debug, Default, Clone, Copy)]
pub struct NoopProfiler;

impl NoopProfiler {
    /// Never enabled.
    pub fn is_enabled(&self) -> (r: bool)
        ensures
            !r,
    {
        false
    }
}

} // verus!
