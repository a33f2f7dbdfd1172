//! What holds of every run of the driver.
//!
//! A run is modelled by [`run`]: the host takes a driver through a sequence
//! of [`Round`]s, each of which says what the two polls of one iteration find
//! and how long the iteration takes. The laws below are proved of that model
//! and of the single steps of [`DriverModel`], which are what the contracts
//! of [`LoopDriver`](crate::driver::LoopDriver) speak of.
use crate::driver::{DirectiveView, DriverModel, Outcome, Round, Stage};
use crate::exit::{pending, TerminationReason};
use crate::run_mode::Cadence;
use crate::suspension::{minimum_tick_nanos, SuspensionStrategy};
use bevy_utils::Instant;
use vstd::prelude::*;

verus! {

/// The driver after the host has taken it through `rounds`, and the number of
/// ticks that ran on the way. The run is over when the rounds are used up or
/// a round begins without a tick being due.
pub open spec fn run(driver: DriverModel, rounds: Seq<Round>) -> (DriverModel, nat)
    decreases rounds.len(),
{
    if rounds.len() == 0 {
        (driver, 0)
    } else if driver.ticks_on(rounds[0].before) {
        let rest = run(driver.round(rounds[0]), rounds.drop_first());
        (rest.0, rest.1 + 1)
    } else {
        (driver.round(rounds[0]), 0)
    }
}

/// A run that is over stays over: no step changes a terminated driver, the
/// directive stays `Stop`, and no further tick runs.
pub proof fn law_terminated_is_final(
    driver: DriverModel,
    log: Seq<TerminationReason>,
    start: Instant,
    elapsed: nat,
    rounds: Seq<Round>,
)
    requires
        driver.stage is Terminated,
    ensures
        driver.begin(log, start) == driver,
        driver.end(log, elapsed) == driver,
        driver.resume() == driver,
        driver.fault() == driver,
        driver.directive() == DirectiveView::Stop(driver.stage->Terminated_0),
        run(driver, rounds) == (driver, 0nat),
{
}

/// A request that exists at the poll before a tick ends the run there: the
/// tick is skipped, and the request that was posted last is the outcome.
pub proof fn law_request_before_tick_skips_it(
    driver: DriverModel,
    log: Seq<TerminationReason>,
    start: Instant,
)
    requires
        driver.stage is NotStarted || driver.stage is Idle,
        driver.consumed < log.len(),
    ensures
        driver.begin(log, start).stage == Stage::Terminated(Outcome::RequestedExit(log.last())),
        driver.begin(log, start).consumed == log.len(),
{
}

/// Under `Once` the tick runs exactly once, except that it does not run at
/// all where a request exists at the first poll. Either way the run is then
/// over, whatever the rounds hold after the first.
pub proof fn law_once_ticks_once(strategy: SuspensionStrategy, rounds: Seq<Round>)
    requires
        rounds.len() > 0,
    ensures
        rounds[0].before.len() == 0 ==> {
            &&& run(DriverModel::initial(Cadence::Once, strategy), rounds).1 == 1
            &&& run(DriverModel::initial(Cadence::Once, strategy), rounds).0.stage
                == Stage::Terminated(Outcome::Completed)
        },
        rounds[0].before.len() > 0 ==> {
            &&& run(DriverModel::initial(Cadence::Once, strategy), rounds).1 == 0
            &&& run(DriverModel::initial(Cadence::Once, strategy), rounds).0.stage
                == Stage::Terminated(Outcome::RequestedExit(rounds[0].before.last()))
        },
{
    let start = DriverModel::initial(Cadence::Once, strategy);
    let begun = start.resume().begin(rounds[0].before, rounds[0].start);
    if rounds[0].before.len() == 0 {
        let ended = begun.end(rounds[0].after, rounds[0].elapsed);
        law_terminated_is_final(ended, rounds[0].after, rounds[0].start, 0, rounds.drop_first());
    }
}

/// While a tick runs, only its end or its fault moves the driver: a request
/// posted during the tick is not seen before the tick is over.
pub proof fn law_no_poll_during_tick(
    driver: DriverModel,
    log: Seq<TerminationReason>,
    start: Instant,
)
    requires
        driver.stage is InFlight,
    ensures
        driver.begin(log, start) == driver,
        driver.resume() == driver,
        driver.directive() == DirectiveView::Tick,
{
}

/// A request posted during a tick is observed at the poll that follows the
/// tick, and the run stops there: under `Loop` with the request posted last
/// as the outcome, under `Once` as completed.
pub proof fn law_request_during_tick_stops_after_it(
    driver: DriverModel,
    log: Seq<TerminationReason>,
    elapsed: nat,
)
    requires
        driver.stage is InFlight,
        driver.consumed < log.len(),
    ensures
        driver.end(log, elapsed).consumed == log.len(),
        driver.cadence is Loop ==> driver.end(log, elapsed).stage == Stage::Terminated(
            Outcome::RequestedExit(log.last()),
        ),
        driver.cadence is Once ==> driver.end(log, elapsed).stage == Stage::Terminated(
            Outcome::Completed,
        ),
{
}

/// Under `Loop`, an iteration after which nothing new is in the log is
/// followed by the next one no sooner than the minimum interval after it
/// began: either the driver asks for a suspension that, added to the time the
/// iteration took, reaches the interval, or the iteration took that long by
/// itself.
pub proof fn law_minimum_interval_is_kept(
    driver: DriverModel,
    log: Seq<TerminationReason>,
    elapsed: nat,
)
    requires
        driver.stage is InFlight,
        driver.cadence is Loop,
        pending(driver.consumed, log) is None,
    ensures
        match driver.end(log, elapsed).stage {
            Stage::AwaitingResume(delay) => elapsed + delay >= driver.cadence.interval(),
            Stage::Idle => elapsed >= driver.cadence.interval(),
            _ => false,
        },
        driver.strategy == SuspensionStrategy::BlockingSleep && elapsed < driver.cadence.interval()
            ==> driver.end(log, elapsed).stage == Stage::AwaitingResume(
            (driver.cadence.interval() - elapsed) as nat,
        ),
{
}

/// Under `Loop` without a minimum interval the blocking strategy never
/// suspends, while the cooperative strategy still yields after every
/// iteration, for its minimum tick.
pub proof fn law_no_interval_no_wait(driver: DriverModel, log: Seq<TerminationReason>, elapsed: nat)
    requires
        driver.stage is InFlight,
        driver.cadence is Loop,
        driver.cadence.interval() == 0,
        pending(driver.consumed, log) is None,
    ensures
        driver.strategy == SuspensionStrategy::BlockingSleep ==> driver.end(log, elapsed).stage
            == Stage::Idle,
        driver.strategy == SuspensionStrategy::CooperativeReschedule ==> driver.end(
            log,
            elapsed,
        ).stage == Stage::AwaitingResume(minimum_tick_nanos()),
{
}

/// Under the cooperative strategy every iteration that does not end the run
/// ends in a suspension of at least the minimum tick, whatever the cadence
/// asks for.
pub proof fn law_cooperative_always_yields(
    driver: DriverModel,
    log: Seq<TerminationReason>,
    elapsed: nat,
)
    requires
        driver.stage is InFlight,
        driver.strategy == SuspensionStrategy::CooperativeReschedule,
    ensures
        driver.end(log, elapsed).stage is Terminated || (driver.end(log, elapsed).stage
            matches Stage::AwaitingResume(delay) && delay >= minimum_tick_nanos()),
{
}

/// A zero interval drives the loop exactly as no interval does: two drivers
/// that differ in nothing else go through the same stages and consume the
/// same entries.
pub proof fn law_zero_interval_drives_like_none(
    driver: DriverModel,
    log: Seq<TerminationReason>,
    start: Instant,
    elapsed: nat,
)
    requires
        driver.cadence == (Cadence::Loop { minimum_interval: Some(0) }),
    ensures
        ({
            let other = DriverModel { cadence: Cadence::Loop { minimum_interval: None }, ..driver };
            &&& driver.begin(log, start).stage == other.begin(log, start).stage
            &&& driver.begin(log, start).consumed == other.begin(log, start).consumed
            &&& driver.end(log, elapsed).stage == other.end(log, elapsed).stage
            &&& driver.end(log, elapsed).consumed == other.end(log, elapsed).consumed
            &&& driver.resume().stage == other.resume().stage
            &&& driver.fault().stage == other.fault().stage
        }),
{
}

/// Whether the first `ticks` rounds meet nothing new in the log but for the
/// last of them, whose tick leaves a request behind, for a reader that has
/// consumed `consumed` entries.
pub open spec fn quiet_until(rounds: Seq<Round>, ticks: nat, consumed: nat) -> bool {
    &&& 1 <= ticks <= rounds.len()
    &&& forall|i: int| 0 <= i < ticks ==> (#[trigger] rounds[i]).before.len() <= consumed
    &&& forall|i: int| 0 <= i < ticks - 1 ==> (#[trigger] rounds[i]).after.len() <= consumed
    &&& rounds[ticks - 1].after.len() > consumed
}

/// Under `Loop` the run goes on until a tick leaves a request behind: where
/// that is the tick of round `ticks`, exactly `ticks` ticks run, and the
/// outcome is the request that was posted last during that tick.
pub proof fn law_loop_runs_until_request(driver: DriverModel, rounds: Seq<Round>, ticks: nat)
    requires
        driver.cadence is Loop,
        !(driver.stage is Terminated),
        quiet_until(rounds, ticks, driver.consumed),
    ensures
        run(driver, rounds).1 == ticks,
        run(driver, rounds).0.stage == Stage::Terminated(
            Outcome::RequestedExit(rounds[ticks - 1].after.last()),
        ),
        run(driver, rounds).0.consumed == rounds[ticks - 1].after.len(),
    decreases ticks,
{
    let begun = driver.resume().begin(rounds[0].before, rounds[0].start);
    assert(begun.stage is InFlight);
    assert(begun.consumed == driver.consumed);
    let ended = begun.end(rounds[0].after, rounds[0].elapsed);
    let rest = rounds.drop_first();
    if ticks == 1 {
        law_terminated_is_final(ended, rounds[0].after, rounds[0].start, 0, rest);
    } else {
        assert(ended.consumed == driver.consumed);
        assert(!(ended.stage is Terminated));
        assert forall|i: int| 0 <= i < ticks - 1 implies (#[trigger] rest[i]).before.len()
            <= ended.consumed by {
            assert(rest[i] == rounds[i + 1]);
        }
        assert forall|i: int| 0 <= i < ticks - 2 implies (#[trigger] rest[i]).after.len()
            <= ended.consumed by {
            assert(rest[i] == rounds[i + 1]);
        }
        assert(rest[ticks - 2] == rounds[ticks - 1]);
        law_loop_runs_until_request(ended, rest, (ticks - 1) as nat);
    }
}

} // verus!
