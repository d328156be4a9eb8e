//! Handles for tracking work queued on the engine's worker threads.
use vstd::prelude::*;

use std::sync::atomic::AtomicBool;
use std::sync::Arc;
use std::time::Duration;

use crate::types::{Result, ScalixError};

verus! {

#[verifier::external_type_specification]
#[verifier::external_body]
#[verifier::reject_recursive_types(T)]
pub struct ExReceiver<T>(crossbeam_channel::Receiver<T>);

/// What a wait on a task's result channel produced.
#[derive(Debug)]
pub enum RecvOutcome<T> {
    /// The task's result arrived.
    Received(T),
    /// The wait's time limit passed first.
    TimedOut,
    /// The sending side went away without sending.
    Disconnected,
}

/// Waits on `rx` for at most `timeout`.
///
/// Calls `crossbeam_channel::Receiver::recv_timeout` and tells its two error variants apart.
/// What arrives, and whether it arrives in time, depends on other threads: nothing is claimed.
#[verifier::external_body]
fn receive_within<T>(rx: &crossbeam_channel::Receiver<T>, timeout: Duration) -> RecvOutcome<T> {
    match rx.recv_timeout(timeout) {
        Ok(v) => RecvOutcome::Received(v),
        Err(crossbeam_channel::RecvTimeoutError::Timeout) => RecvOutcome::TimedOut,
        Err(crossbeam_channel::RecvTimeoutError::Disconnected) => RecvOutcome::Disconnected,
    }
}

/// Waits on `rx` without a time limit.
///
/// Calls `crossbeam_channel::Receiver::recv`, which blocks until a message arrives or every
/// sender is gone; so it never reports a timeout.
#[verifier::external_body]
fn receive<T>(rx: &crossbeam_channel::Receiver<T>) -> (r: RecvOutcome<T>)
    ensures
        !(r is TimedOut),
{
    match rx.recv() {
        Ok(v) => RecvOutcome::Received(v),
        Err(_) => RecvOutcome::Disconnected,
    }
}

/// Result of a task as a wait observed it: the task's own result, or the reason none arrived.
pub open spec fn wait_result_spec<T>(outcome: RecvOutcome<Result<T>>) -> Result<T> {
    match outcome {
        RecvOutcome::Received(r) => r,
        RecvOutcome::TimedOut => Err(ScalixError::Timeout),
        RecvOutcome::Disconnected => Err(ScalixError::ChannelClosed),
    }
}

/// Turns what a wait observed into the task's result.
pub fn resolve_wait<T>(outcome: RecvOutcome<Result<T>>) -> (r: Result<T>)
    ensures
        r == wait_result_spec(outcome),
{
    match outcome {
        RecvOutcome::Received(r) => r,
        RecvOutcome::TimedOut => Err(ScalixError::Timeout),
        RecvOutcome::Disconnected => Err(ScalixError::ChannelClosed),
    }
}

/// Handle on a task queued on a worker thread.
#[verifier::reject_recursive_types(T)]
pub struct TaskHandle<T> {
    rx: crossbeam_channel::Receiver<Result<T>>,
    done: Arc<AtomicBool>,
}

impl<T> TaskHandle<T> {
    /// The channel the task's result arrives on.
    pub closed spec fn result_channel(&self) -> crossbeam_channel::Receiver<Result<T>> {
        self.rx
    }

    /// The flag the task sets once it has finished.
    pub closed spec fn done_flag(&self) -> Arc<AtomicBool> {
        self.done
    }

    /// Handle over the channel the task sends its result on and the flag it sets when done.
    pub fn new(rx: crossbeam_channel::Receiver<Result<T>>, done: Arc<AtomicBool>) -> (r: Self)
        ensures
            r.result_channel() == rx,
            r.done_flag() == done,
    {
        TaskHandle { rx, done }
    }

    /// Whether the task has finished, without blocking.
    pub fn is_ready(&self) -> (r: bool) {
        self.done.load(std::sync::atomic::Ordering::Acquire)
    }

    /// Waits for the task's result, for at most `timeout` when one is given.
    ///
    /// Returns the task's result, `Timeout` when the limit passed first (only possible with a
    /// limit), or `ChannelClosed` when the task went away without a result. Which of these comes
    /// depends on the worker thread, so nothing is claimed of it here; `resolve_wait` states what
    /// each observed outcome gives.
    pub fn wait(&self, timeout: Option<Duration>) -> Result<T> {
        let outcome = match timeout {
            Some(t) => receive_within(&self.rx, t),
            None => receive(&self.rx),
        };
        resolve_wait(outcome)
    }
}

} // verus!
