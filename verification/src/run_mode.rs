//! The cadence of the loop: one tick, or ticks repeated with an optional
//! minimum interval between their starts.
use crate::time::{duration_nanos, option_nanos};
use bevy_utils::Duration;
use vstd::prelude::*;

verus! {

/// How often the tick operation is to run.
#[derive(Copy, Clone, Debug)]
pub enum RunMode {
    /// Run the tick operation repeatedly.
    Loop {
        /// The least time from the start of one tick to the start of the
        /// next. `None` does not wait, and neither does a zero span.
        wait: Option<Duration>,
    },
    /// Run the tick operation a single time.
    Once,
}

/// A [`RunMode`] with its interval in nanoseconds.
pub enum Cadence {
    Loop { minimum_interval: Option<nat> },
    Once,
}

impl Cadence {
    /// The enforced interval in nanoseconds: zero where none is set, and
    /// zero under `Once`.
    pub open spec fn interval(self) -> nat {
        match self {
            Cadence::Loop { minimum_interval: Some(w) } => w,
            _ => 0,
        }
    }

    /// What is left of the interval once `elapsed` nanoseconds of it have
    /// passed: the rest where the interval is the longer, nothing otherwise.
    pub open spec fn remaining(self, elapsed: nat) -> Option<nat> {
        if elapsed < self.interval() {
            Some((self.interval() - elapsed) as nat)
        } else {
            None
        }
    }
}

impl View for RunMode {
    type V = Cadence;

    open spec fn view(&self) -> Cadence {
        match *self {
            RunMode::Loop { wait } => Cadence::Loop { minimum_interval: option_nanos(wait) },
            RunMode::Once => Cadence::Once,
        }
    }
}

impl Default for RunMode {
    /// Repeats without waiting.
    fn default() -> (mode: Self)
        ensures
            mode == (RunMode::Loop { wait: None }),
    {
        RunMode::Loop { wait: None }
    }
}

impl RunMode {
    /// The time still to wait after an iteration that took `elapsed`: the
    /// rest of the minimum interval where the iteration was shorter than it,
    /// `None` otherwise.
    pub fn remaining_wait(&self, elapsed: Duration) -> (left: Option<Duration>)
        ensures
            option_nanos(left) == self@.remaining(duration_nanos(elapsed)),
    {
        match *self {
            RunMode::Loop { wait: Some(wait) } => {
                let left = wait.saturating_sub(elapsed);
                if left.as_nanos() > 0 {
                    Some(left)
                } else {
                    None
                }
            },
            _ => None,
        }
    }
}

/// The configuration of the loop driver.
#[derive(Copy, Clone)]
pub struct ScheduleRunnerSettings {
    /// Whether the tick operation runs once or repeatedly.
    pub run_mode: RunMode,
}

impl Default for ScheduleRunnerSettings {
    /// The default [`RunMode`].
    fn default() -> (settings: Self)
        ensures
            settings.run_mode == (RunMode::Loop { wait: None }),
    {
        ScheduleRunnerSettings { run_mode: RunMode::default() }
    }
}

impl ScheduleRunnerSettings {
    /// See [`RunMode::Once`].
    pub fn run_once() -> (settings: Self)
        ensures
            settings.run_mode == RunMode::Once,
    {
        ScheduleRunnerSettings { run_mode: RunMode::Once }
    }

    /// See [`RunMode::Loop`].
    pub fn run_loop(wait_duration: Duration) -> (settings: Self)
        ensures
            settings.run_mode == (RunMode::Loop { wait: Some(wait_duration) }),
    {
        ScheduleRunnerSettings { run_mode: RunMode::Loop { wait: Some(wait_duration) } }
    }
}

/// A zero interval is no interval: nothing is ever left to wait of either.
pub proof fn law_zero_interval_is_no_interval(elapsed: nat)
    ensures
        (Cadence::Loop { minimum_interval: Some(0) }).remaining(elapsed) is None,
        (Cadence::Loop { minimum_interval: None }).remaining(elapsed) is None,
        Cadence::Once.remaining(elapsed) is None,
{
}

/// The time spent in an iteration and the time then left to wait add up to
/// the interval; where nothing is left, the iteration took at least that long.
pub proof fn law_remaining_completes_interval(cadence: Cadence, elapsed: nat)
    ensures
        match cadence.remaining(elapsed) {
            Some(left) => left > 0 && elapsed + left == cadence.interval(),
            None => elapsed >= cadence.interval(),
        },
{
}

} // verus!
