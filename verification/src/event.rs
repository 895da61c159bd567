//! The events that drive the dashboard, and the step of the progress ticker.

use vstd::prelude::*;
use crate::key::KeyEvent;

verus! {

/// A full gauge, in hundredths.
pub const FULL_PROGRESS: u8 = 100;

/// What the ticker adds to the gauge at each tick, in hundredths.
pub const PROGRESS_STEP: u8 = 1;

/// The time between two ticks, in milliseconds.
pub const TICK_MILLIS: u64 = 100;

/// One entry of the queue that the controller consumes.
#[derive(Clone, Copy, Debug, PartialEq, Eq, Structural)]
pub enum Event {
    /// The keyboard reported a key.
    Input(KeyEvent),
    /// The ticker reports the background progress, in hundredths.
    Progress(u8),
}

/// A ratio in hundredths, cut off at a full gauge.
pub open spec fn clamped(progress: int) -> int {
    if progress > FULL_PROGRESS as int {
        FULL_PROGRESS as int
    } else {
        progress
    }
}

/// Cuts a ratio off at a full gauge.
pub fn clamp_progress(progress: u8) -> (p: u8)
    ensures
        p == clamped(progress as int),
{
    if progress > FULL_PROGRESS {
        FULL_PROGRESS
    } else {
        progress
    }
}

/// The value that the ticker reports one tick after it reported `progress`:
/// one step more, and never more than a full gauge.
pub fn advance_progress(progress: u8) -> (p: u8)
    ensures
        p == clamped(progress + PROGRESS_STEP),
{
    if progress >= FULL_PROGRESS - PROGRESS_STEP {
        FULL_PROGRESS
    } else {
        progress + PROGRESS_STEP
    }
}

/// The value that the ticker reports at its `n`-th tick, counted from an
/// empty gauge.
pub open spec fn progress_at_tick(n: nat) -> int
    decreases n,
{
    if n == 0 {
        0
    } else {
        clamped(progress_at_tick((n - 1) as nat) + PROGRESS_STEP)
    }
}

/// The ticker counts its ticks up to a full gauge and stays there.
pub proof fn lemma_progress_at_tick(n: nat)
    ensures
        progress_at_tick(n) == if n <= 100 { n as int } else { 100 },
    decreases n,
{
    if n > 0 {
        lemma_progress_at_tick((n - 1) as nat);
    }
}

/// What the ticker reports never falls from one tick to the next and
/// never leaves the range of a gauge.
pub proof fn lemma_ticker_is_monotonic(n: nat)
    ensures
        0 <= progress_at_tick(n) <= progress_at_tick(n + 1) <= FULL_PROGRESS,
{
    lemma_progress_at_tick(n);
    lemma_progress_at_tick(n + 1);
}

} // verus!
