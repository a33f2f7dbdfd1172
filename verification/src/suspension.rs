//! How the driver stays out of the way between ticks.
use crate::time::{duration_nanos, longer, option_nanos};
use bevy_utils::Duration;
use vstd::prelude::*;

verus! {

/// The shortest suspension that [`SuspensionStrategy::CooperativeReschedule`]
/// asks for, in milliseconds.
pub const MINIMUM_TICK_MILLIS: u64 = 1;

/// [`MINIMUM_TICK_MILLIS`] in nanoseconds.
pub open spec fn minimum_tick_nanos() -> nat {
    (MINIMUM_TICK_MILLIS * 1_000_000) as nat
}

/// The way the host suspends the loop. It is chosen once, when the driver is
/// made, and not per iteration.
#[derive(Clone, Copy, Debug, PartialEq, Eq, Structural)]
pub enum SuspensionStrategy {
    /// The host blocks the calling thread for the time that is left, and
    /// goes on at once where nothing is left.
    BlockingSleep,
    /// The host never blocks. After every iteration it registers a one-shot
    /// timer with its event loop and returns to it, so the delay is never
    /// shorter than [`MINIMUM_TICK_MILLIS`].
    CooperativeReschedule,
}

impl SuspensionStrategy {
    /// The suspension in nanoseconds that the strategy asks for when
    /// `remaining` is left of the minimum interval; `None` where the loop
    /// goes on without suspending.
    pub open spec fn spec_pause(self, remaining: Option<nat>) -> Option<nat> {
        match self {
            SuspensionStrategy::BlockingSleep => match remaining {
                Some(left) if left > 0 => Some(left),
                _ => None,
            },
            SuspensionStrategy::CooperativeReschedule => match remaining {
                Some(left) if left >= minimum_tick_nanos() => Some(left),
                _ => Some(minimum_tick_nanos()),
            },
        }
    }

    /// The suspension that the strategy asks for when `remaining` is left of
    /// the minimum interval; `None` where the loop goes on without
    /// suspending.
    pub fn pause(&self, remaining: Option<Duration>) -> (delay: Option<Duration>)
        ensures
            option_nanos(delay) == self.spec_pause(option_nanos(remaining)),
    {
        match self {
            SuspensionStrategy::BlockingSleep => match remaining {
                Some(left) => {
                    if left.as_nanos() > 0 {
                        Some(left)
                    } else {
                        None
                    }
                },
                None => None,
            },
            SuspensionStrategy::CooperativeReschedule => {
                let least = Duration::from_millis(MINIMUM_TICK_MILLIS);
                match remaining {
                    Some(left) => Some(longer(left, least)),
                    None => Some(least),
                }
            },
        }
    }
}

/// A suspension is never shorter than what is left of the interval, the
/// blocking strategy suspends exactly when something is left, and the
/// cooperative strategy always suspends, for at least its minimum tick.
pub proof fn law_pause_covers_remaining(strategy: SuspensionStrategy, remaining: Option<nat>)
    ensures
        remaining matches Some(left) ==> (strategy.spec_pause(remaining) matches Some(delay)
            ==> delay >= left),
        strategy == SuspensionStrategy::BlockingSleep ==> (strategy.spec_pause(remaining) is Some
            <==> (remaining matches Some(left) && left > 0)),
        strategy == SuspensionStrategy::CooperativeReschedule ==> (strategy.spec_pause(remaining)
            matches Some(delay) && delay >= minimum_tick_nanos()),
{
}

} // verus!
