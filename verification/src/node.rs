//! Task lifecycle vocabulary of the node fabric.
//!
//! The fabric itself (spawning, channels, cancellation) is asynchronous and
//! lives outside this crate; what is verified here is the vocabulary the
//! callbacks speak and the sleep computation of the periodic loop.

use vstd::prelude::*;

verus! {

/// What a callback asks the fabric to do next. Periods are in milliseconds.
#[derive(Debug, Clone, PartialEq, Eq, Structural)]
pub enum ThreadNext {
    /// Run again with the unchanged period.
    Next,
    /// Adopt a new period, in milliseconds.
    Interval(u64),
    /// End the loop.
    Terminate,
}

/// A failed callback: the task terminates, carrying this message.
#[derive(Debug, Clone)]
pub struct ThreadError {
    pub msg: String,
}

/// What remains of `period_ms` after a callback ran for `elapsed_ms`:
/// the periodic loop sleeps this long, so a task never waits longer than
/// one full period beyond its prior completion.
pub fn remaining_sleep(period_ms: u64, elapsed_ms: u64) -> (sleep_ms: u64)
    ensures
        sleep_ms <= period_ms,
        elapsed_ms < period_ms ==> sleep_ms == period_ms - elapsed_ms,
        elapsed_ms >= period_ms ==> sleep_ms == 0,
{
    if elapsed_ms < period_ms {
        period_ms - elapsed_ms
    } else {
        0
    }
}

} // verus!
