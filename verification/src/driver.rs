//! The loop driver: a state machine that the host steps through.
//!
//! One iteration is [`LoopDriver::begin_iteration`], the tick operation,
//! which the host runs, and [`LoopDriver::end_iteration`]. Each step returns
//! a [`Directive`] that names what the host does next. The driver never runs
//! the tick operation and never suspends anything itself, so a termination
//! request takes effect only at the two polls, before and after a tick.
use crate::exit::{advanced, pending, ExitSignal, TerminationLog, TerminationReason};
use crate::run_mode::{Cadence, RunMode};
use crate::suspension::SuspensionStrategy;
use crate::time::{duration_nanos, instant_gap};
use bevy_utils::{Duration, Instant};
use vstd::prelude::*;

verus! {

/// How a run ended.
#[derive(Clone, Copy, Debug, PartialEq, Eq, Structural)]
pub enum Outcome {
    /// The cadence was `Once` and the single tick finished.
    Completed,
    /// A termination request was observed at a poll.
    RequestedExit(TerminationReason),
    /// The tick operation faulted. The driver neither retries it nor hides
    /// it: the run is over.
    TickFault,
}

impl Outcome {
    /// Whether the host should report success: the run completed, or was
    /// asked to stop for a normal reason.
    pub open spec fn spec_is_success(self) -> bool {
        self == Outcome::Completed || self == Outcome::RequestedExit(TerminationReason::Normal)
    }

    /// Whether the host should report success: the run completed, or was
    /// asked to stop for a normal reason.
    pub fn is_success(&self) -> (ok: bool)
        ensures
            ok == self.spec_is_success(),
    {
        match self {
            Outcome::Completed => true,
            Outcome::RequestedExit(TerminationReason::Normal) => true,
            _ => false,
        }
    }

    /// The status that the hosting process should end with: zero on success,
    /// the failure code of the request where it is not zero, and one for any
    /// other failure.
    pub open spec fn spec_exit_code(self) -> u8 {
        match self {
            Outcome::Completed => 0,
            Outcome::RequestedExit(TerminationReason::Normal) => 0,
            Outcome::RequestedExit(TerminationReason::Failure(code)) => if code == 0 {
                1
            } else {
                code
            },
            Outcome::TickFault => 1,
        }
    }

    /// The status that the hosting process should end with: zero on success,
    /// the failure code of the request where it is not zero, and one for any
    /// other failure.
    pub fn exit_code(&self) -> (code: u8)
        ensures
            code == self.spec_exit_code(),
    {
        match self {
            Outcome::Completed => 0,
            Outcome::RequestedExit(TerminationReason::Normal) => 0,
            Outcome::RequestedExit(TerminationReason::Failure(code)) => {
                if *code == 0 {
                    1
                } else {
                    *code
                }
            },
            Outcome::TickFault => 1,
        }
    }
}

/// The hosting process ends with status zero exactly when the run succeeded.
pub proof fn law_exit_code_is_zero_on_success_only(outcome: Outcome)
    ensures
        outcome.spec_exit_code() == 0 <==> outcome.spec_is_success(),
{
}

/// The run state of a driver.
#[derive(Clone, Copy, Debug, PartialEq, Eq)]
pub enum DriverState {
    /// No iteration has begun.
    NotStarted,
    /// The driver is between suspensions: an iteration is about to begin or
    /// its tick is running.
    Ticking,
    /// The host is to suspend the loop for the given time.
    AwaitingResume(Duration),
    /// The run is over. No further tick occurs.
    Terminated(Outcome),
}

/// A [`DriverState`] with its time in nanoseconds.
pub enum DriverStateView {
    NotStarted,
    Ticking,
    AwaitingResume(nat),
    Terminated(Outcome),
}

impl View for DriverState {
    type V = DriverStateView;

    open spec fn view(&self) -> DriverStateView {
        match *self {
            DriverState::NotStarted => DriverStateView::NotStarted,
            DriverState::Ticking => DriverStateView::Ticking,
            DriverState::AwaitingResume(delay) => DriverStateView::AwaitingResume(
                duration_nanos(delay),
            ),
            DriverState::Terminated(outcome) => DriverStateView::Terminated(outcome),
        }
    }
}

/// What the host does next.
#[derive(Clone, Copy, Debug, PartialEq, Eq)]
pub enum Directive {
    /// Begin an iteration: call [`LoopDriver::begin_iteration`].
    Poll,
    /// Run the tick operation to its end, then call
    /// [`LoopDriver::end_iteration`].
    Tick,
    /// Suspend the loop for the given time, then call
    /// [`LoopDriver::resume`].
    Suspend(Duration),
    /// Stop, and report the outcome.
    Stop(Outcome),
}

/// A [`Directive`] with its time in nanoseconds.
pub enum DirectiveView {
    Poll,
    Tick,
    Suspend(nat),
    Stop(Outcome),
}

impl View for Directive {
    type V = DirectiveView;

    open spec fn view(&self) -> DirectiveView {
        match *self {
            Directive::Poll => DirectiveView::Poll,
            Directive::Tick => DirectiveView::Tick,
            Directive::Suspend(delay) => DirectiveView::Suspend(duration_nanos(delay)),
            Directive::Stop(outcome) => DirectiveView::Stop(outcome),
        }
    }
}

/// Where a driver stands within its run.
pub enum Stage {
    /// No iteration has begun.
    NotStarted,
    /// Between iterations.
    Idle,
    /// The poll before the tick found nothing, and the tick is running. The
    /// iteration began at the given instant.
    InFlight(Instant),
    /// Suspended for the given number of nanoseconds.
    AwaitingResume(nat),
    /// Over.
    Terminated(Outcome),
}

/// What one iteration meets.
pub struct Round {
    /// The instant at which the iteration begins.
    pub start: Instant,
    /// The log as the poll before the tick finds it.
    pub before: Seq<TerminationReason>,
    /// The log as the tick leaves it.
    pub after: Seq<TerminationReason>,
    /// The nanoseconds that the iteration takes.
    pub elapsed: nat,
}

/// The driver as a mathematical value: its configuration, the cursor of its
/// reader, and its stage.
pub struct DriverModel {
    pub cadence: Cadence,
    pub strategy: SuspensionStrategy,
    pub consumed: nat,
    pub stage: Stage,
}

impl DriverModel {
    /// A driver that has not started and has consumed nothing.
    pub open spec fn initial(cadence: Cadence, strategy: SuspensionStrategy) -> DriverModel {
        DriverModel { cadence, strategy, consumed: 0, stage: Stage::NotStarted }
    }

    /// The start of an iteration at the instant `start`, with the poll
    /// before the tick. Between iterations it consumes what is new in `log`:
    /// a request ends the run and the tick is skipped, otherwise the tick is
    /// due and the start is recorded. At every other stage nothing changes.
    pub open spec fn begin(self, log: Seq<TerminationReason>, start: Instant) -> DriverModel {
        match self.stage {
            Stage::NotStarted | Stage::Idle => match pending(self.consumed, log) {
                Some(reason) => DriverModel {
                    consumed: advanced(self.consumed, log),
                    stage: Stage::Terminated(Outcome::RequestedExit(reason)),
                    ..self
                },
                None => DriverModel { stage: Stage::InFlight(start), ..self },
            },
            _ => self,
        }
    }

    /// The poll after a tick. It consumes what is new in `log`. Under `Once`
    /// the run is then complete, whatever was found; under `Loop` a request
    /// ends the run. At every stage but `InFlight` nothing changes.
    pub open spec fn polled(self, log: Seq<TerminationReason>) -> DriverModel {
        match self.stage {
            Stage::InFlight(start) => DriverModel {
                consumed: advanced(self.consumed, log),
                stage: if self.cadence is Once {
                    Stage::Terminated(Outcome::Completed)
                } else {
                    match pending(self.consumed, log) {
                        Some(reason) => Stage::Terminated(Outcome::RequestedExit(reason)),
                        None => Stage::InFlight(start),
                    }
                },
                ..self
            },
            _ => self,
        }
    }

    /// The end of an iteration that took `elapsed` nanoseconds and goes on:
    /// a suspension where the strategy asks for one, the next iteration
    /// otherwise. At every stage but `InFlight` nothing changes.
    pub open spec fn settled(self, elapsed: nat) -> DriverModel {
        match self.stage {
            Stage::InFlight(_) => DriverModel {
                stage: match self.strategy.spec_pause(self.cadence.remaining(elapsed)) {
                    Some(delay) => Stage::AwaitingResume(delay),
                    None => Stage::Idle,
                },
                ..self
            },
            _ => self,
        }
    }

    /// What follows a tick that took `elapsed` nanoseconds and left `log`
    /// behind: the poll, and then, if the run goes on, the end of the
    /// iteration.
    pub open spec fn end(self, log: Seq<TerminationReason>, elapsed: nat) -> DriverModel {
        self.polled(log).settled(elapsed)
    }

    /// What follows a tick that left `log` behind, where the clock reads
    /// `now` once the poll after the tick is done: the iteration took the
    /// time from its recorded start to `now`.
    pub open spec fn end_at(self, log: Seq<TerminationReason>, now: Instant) -> DriverModel {
        match self.stage {
            Stage::InFlight(start) => self.end(log, instant_gap(now, start)),
            _ => self,
        }
    }

    /// The end of a suspension. At every stage but `AwaitingResume` nothing
    /// changes.
    pub open spec fn resume(self) -> DriverModel {
        match self.stage {
            Stage::AwaitingResume(_) => DriverModel { stage: Stage::Idle, ..self },
            _ => self,
        }
    }

    /// A fault of the running tick. At every stage but `InFlight` nothing
    /// changes.
    pub open spec fn fault(self) -> DriverModel {
        match self.stage {
            Stage::InFlight(_) => DriverModel {
                stage: Stage::Terminated(Outcome::TickFault),
                ..self
            },
            _ => self,
        }
    }

    /// Whether the host, having ended a suspension if there was one and
    /// begun an iteration on `log`, is to run the tick.
    pub open spec fn ticks_on(self, log: Seq<TerminationReason>) -> bool {
        match self.stage {
            Stage::InFlight(_) => true,
            Stage::Terminated(_) => false,
            _ => pending(self.consumed, log) is None,
        }
    }

    /// One turn of the host's loop: it ends a suspension if there is one,
    /// begins an iteration, and, if the tick is due, runs it and ends the
    /// iteration.
    pub open spec fn round(self, round: Round) -> DriverModel {
        if self.ticks_on(round.before) {
            self.resume().begin(round.before, round.start).end(round.after, round.elapsed)
        } else {
            self.resume().begin(round.before, round.start)
        }
    }

    /// What the host does next.
    pub open spec fn directive(self) -> DirectiveView {
        match self.stage {
            Stage::NotStarted | Stage::Idle => DirectiveView::Poll,
            Stage::InFlight(_) => DirectiveView::Tick,
            Stage::AwaitingResume(delay) => DirectiveView::Suspend(delay),
            Stage::Terminated(outcome) => DirectiveView::Stop(outcome),
        }
    }

    /// The run state.
    pub open spec fn state(self) -> DriverStateView {
        match self.stage {
            Stage::NotStarted => DriverStateView::NotStarted,
            Stage::Idle | Stage::InFlight(_) => DriverStateView::Ticking,
            Stage::AwaitingResume(delay) => DriverStateView::AwaitingResume(delay),
            Stage::Terminated(outcome) => DriverStateView::Terminated(outcome),
        }
    }

    /// The outcome, once the run is over.
    pub open spec fn outcome(self) -> Option<Outcome> {
        match self.stage {
            Stage::Terminated(outcome) => Some(outcome),
            _ => None,
        }
    }
}

/// The stage as the driver holds it: with the start of the running tick and
/// the time of the suspension.
#[derive(Clone, Copy, Debug)]
enum Progress {
    NotStarted,
    Idle,
    InFlight(Instant),
    AwaitingResume(Duration),
    Terminated(Outcome),
}

/// The update-loop driver.
#[derive(Debug)]
pub struct LoopDriver {
    mode: RunMode,
    strategy: SuspensionStrategy,
    exit: ExitSignal,
    progress: Progress,
}

impl View for LoopDriver {
    type V = DriverModel;

    closed spec fn view(&self) -> DriverModel {
        DriverModel {
            cadence: self.mode@,
            strategy: self.strategy,
            consumed: self.exit@,
            stage: match self.progress {
                Progress::NotStarted => Stage::NotStarted,
                Progress::Idle => Stage::Idle,
                Progress::InFlight(start) => Stage::InFlight(start),
                Progress::AwaitingResume(delay) => Stage::AwaitingResume(duration_nanos(delay)),
                Progress::Terminated(outcome) => Stage::Terminated(outcome),
            },
        }
    }
}

impl LoopDriver {
    /// A driver for the given cadence and strategy, not started, with a
    /// reader that has consumed nothing.
    pub fn new(mode: RunMode, strategy: SuspensionStrategy) -> (driver: Self)
        ensures
            driver@ == DriverModel::initial(mode@, strategy),
    {
        LoopDriver { mode, strategy, exit: ExitSignal::new(), progress: Progress::NotStarted }
    }

    /// The cadence that the driver was made with.
    pub fn mode(&self) -> (mode: RunMode)
        ensures
            mode@ == self@.cadence,
    {
        self.mode
    }

    /// The strategy that the driver was made with.
    pub fn strategy(&self) -> (strategy: SuspensionStrategy)
        ensures
            strategy == self@.strategy,
    {
        self.strategy
    }

    /// The number of log entries that the driver's reader has consumed.
    pub fn consumed(&self) -> (n: usize)
        ensures
            n == self@.consumed,
    {
        self.exit.consumed()
    }

    /// The run state.
    pub fn state(&self) -> (state: DriverState)
        ensures
            state@ == self@.state(),
    {
        match self.progress {
            Progress::NotStarted => DriverState::NotStarted,
            Progress::Idle => DriverState::Ticking,
            Progress::InFlight(_) => DriverState::Ticking,
            Progress::AwaitingResume(delay) => DriverState::AwaitingResume(delay),
            Progress::Terminated(outcome) => DriverState::Terminated(outcome),
        }
    }

    /// What the host does next.
    pub fn directive(&self) -> (next: Directive)
        ensures
            next@ == self@.directive(),
    {
        match self.progress {
            Progress::NotStarted => Directive::Poll,
            Progress::Idle => Directive::Poll,
            Progress::InFlight(_) => Directive::Tick,
            Progress::AwaitingResume(delay) => Directive::Suspend(delay),
            Progress::Terminated(outcome) => Directive::Stop(outcome),
        }
    }

    /// The outcome, once the run is over.
    pub fn outcome(&self) -> (outcome: Option<Outcome>)
        ensures
            outcome == self@.outcome(),
    {
        match self.progress {
            Progress::Terminated(outcome) => Some(outcome),
            _ => None,
        }
    }

    /// Begins an iteration: records the start time and polls `log`. A
    /// request that is found ends the run before the tick; otherwise the
    /// tick is due.
    pub fn begin_iteration(&mut self, log: &TerminationLog) -> (next: Directive)
        ensures
            exists|start: Instant| final(self)@ == old(self)@.begin(log@, start),
            next@ == final(self)@.directive(),
    {
        let start = Instant::now();
        let next = self.begin_iteration_at(log, start);
        assert(self@ == old(self)@.begin(log@, start));
        next
    }

    /// [`begin_iteration`](LoopDriver::begin_iteration) for an iteration
    /// that began at `start`.
    pub fn begin_iteration_at(&mut self, log: &TerminationLog, start: Instant) -> (next: Directive)
        ensures
            final(self)@ == old(self)@.begin(log@, start),
            next@ == final(self)@.directive(),
    {
        match self.progress {
            Progress::NotStarted | Progress::Idle => {
                match self.exit.observe_new_requests(log) {
                    Some(reason) => {
                        self.progress = Progress::Terminated(Outcome::RequestedExit(reason));
                    },
                    None => {
                        self.progress = Progress::InFlight(start);
                    },
                }
            },
            _ => {},
        }
        self.directive()
    }

    /// The poll after the tick. Returns whether the run goes on.
    fn poll_after_tick(&mut self, log: &TerminationLog) -> (goes_on: bool)
        requires
            old(self)@.stage is InFlight,
        ensures
            final(self)@ == old(self)@.polled(log@),
            goes_on == (final(self)@.stage is InFlight),
    {
        let polled = self.exit.observe_new_requests(log);
        match self.mode {
            RunMode::Once => {
                self.progress = Progress::Terminated(Outcome::Completed);
                false
            },
            RunMode::Loop { .. } => match polled {
                Some(reason) => {
                    self.progress = Progress::Terminated(Outcome::RequestedExit(reason));
                    false
                },
                None => true,
            },
        }
    }

    /// The end of an iteration that goes on after `elapsed`.
    fn settle(&mut self, elapsed: Duration)
        requires
            old(self)@.stage is InFlight,
        ensures
            final(self)@ == old(self)@.settled(duration_nanos(elapsed)),
    {
        let remaining = self.mode.remaining_wait(elapsed);
        match self.strategy.pause(remaining) {
            Some(delay) => {
                self.progress = Progress::AwaitingResume(delay);
            },
            None => {
                self.progress = Progress::Idle;
            },
        }
    }

    /// Ends the iteration whose tick has just finished: polls `log` and, if
    /// the run goes on, reads the clock, takes the time since the recorded
    /// start of the iteration as the time it took, and decides on the
    /// suspension. Where no tick is running nothing changes.
    pub fn end_iteration(&mut self, log: &TerminationLog) -> (next: Directive)
        ensures
            old(self)@.stage is InFlight ==> exists|now: Instant|
                final(self)@ == old(self)@.end_at(log@, now),
            !(old(self)@.stage is InFlight) ==> final(self)@ == old(self)@,
            next@ == final(self)@.directive(),
    {
        match self.progress {
            Progress::InFlight(start) => {
                if self.poll_after_tick(log) {
                    let now = Instant::now();
                    let elapsed = now.saturating_duration_since(start);
                    self.settle(elapsed);
                    assert(self@ == old(self)@.end_at(log@, now));
                } else {
                    assert(self@ == old(self)@.end_at(log@, start));
                }
            },
            _ => {},
        }
        self.directive()
    }

    /// [`end_iteration`](LoopDriver::end_iteration) for an iteration that is
    /// known to have taken `elapsed`.
    pub fn end_iteration_after(&mut self, log: &TerminationLog, elapsed: Duration) -> (next:
        Directive)
        ensures
            final(self)@ == old(self)@.end(log@, duration_nanos(elapsed)),
            next@ == final(self)@.directive(),
    {
        match self.progress {
            Progress::InFlight(_) => {
                if self.poll_after_tick(log) {
                    self.settle(elapsed);
                }
            },
            _ => {},
        }
        self.directive()
    }

    /// Ends a suspension: the next iteration can begin.
    pub fn resume(&mut self) -> (next: Directive)
        ensures
            final(self)@ == old(self)@.resume(),
            next@ == final(self)@.directive(),
    {
        match self.progress {
            Progress::AwaitingResume(_) => {
                self.progress = Progress::Idle;
            },
            _ => {},
        }
        self.directive()
    }

    /// Records that the running tick faulted, which ends the run.
    pub fn tick_faulted(&mut self) -> (next: Directive)
        ensures
            final(self)@ == old(self)@.fault(),
            next@ == final(self)@.directive(),
    {
        match self.progress {
            Progress::InFlight(_) => {
                self.progress = Progress::Terminated(Outcome::TickFault);
            },
            _ => {},
        }
        self.directive()
    }
}

} // verus!
