use schedule_runner::{
    Directive, DriverState, LoopDriver, Outcome, RunMode, SuspensionStrategy, TerminationLog,
    TerminationReason,
};
use std::time::{Duration, Instant};

fn ms(n: u64) -> Duration {
    Duration::from_millis(n)
}

fn looping(wait: Option<Duration>, strategy: SuspensionStrategy) -> LoopDriver {
    LoopDriver::new(RunMode::Loop { wait }, strategy)
}

#[test]
fn new_driver_has_not_started() {
    let driver = LoopDriver::new(RunMode::Once, SuspensionStrategy::BlockingSleep);
    assert_eq!(driver.state(), DriverState::NotStarted);
    assert_eq!(driver.directive(), Directive::Poll);
    assert_eq!(driver.outcome(), None);
    assert_eq!(driver.consumed(), 0);
    assert!(matches!(driver.mode(), RunMode::Once));
    assert_eq!(driver.strategy(), SuspensionStrategy::BlockingSleep);
}

#[test]
fn once_ticks_exactly_once() {
    let log = TerminationLog::new();
    let mut driver = LoopDriver::new(RunMode::Once, SuspensionStrategy::BlockingSleep);
    let mut ticks = 0;
    loop {
        match driver.begin_iteration(&log) {
            Directive::Tick => {
                ticks += 1;
                driver.end_iteration(&log);
            }
            Directive::Stop(outcome) => {
                assert_eq!(outcome, Outcome::Completed);
                break;
            }
            other => panic!("unexpected directive {:?}", other),
        }
    }
    assert_eq!(ticks, 1);
    assert_eq!(driver.state(), DriverState::Terminated(Outcome::Completed));
    assert_eq!(driver.outcome(), Some(Outcome::Completed));
}

#[test]
fn once_with_request_before_first_poll_never_ticks() {
    let mut log = TerminationLog::new();
    log.post(TerminationReason::Failure(4));
    let mut driver = LoopDriver::new(RunMode::Once, SuspensionStrategy::BlockingSleep);
    let stop = Directive::Stop(Outcome::RequestedExit(TerminationReason::Failure(4)));
    assert_eq!(driver.begin_iteration(&log), stop);
    assert_eq!(driver.end_iteration(&log), stop);
    assert_eq!(driver.begin_iteration(&log), stop);
    assert_eq!(driver.consumed(), 1);
}

#[test]
fn once_completes_even_when_the_tick_posts_a_request() {
    let mut log = TerminationLog::new();
    let mut driver = LoopDriver::new(RunMode::Once, SuspensionStrategy::BlockingSleep);
    assert_eq!(driver.begin_iteration(&log), Directive::Tick);
    log.post(TerminationReason::Failure(1));
    assert_eq!(driver.end_iteration_after(&log, ms(1)), Directive::Stop(Outcome::Completed));
    assert_eq!(driver.consumed(), 1);
}

#[test]
fn minimum_interval_is_kept_over_five_iterations() {
    let log = TerminationLog::new();
    let mut driver = looping(Some(ms(100)), SuspensionStrategy::BlockingSleep);
    for _ in 0..5 {
        assert_eq!(driver.begin_iteration(&log), Directive::Tick);
        assert_eq!(driver.state(), DriverState::Ticking);
        let next = driver.end_iteration_after(&log, ms(10));
        assert_eq!(next, Directive::Suspend(ms(90)));
        assert_eq!(driver.state(), DriverState::AwaitingResume(ms(90)));
        assert_eq!(driver.resume(), Directive::Poll);
        assert_eq!(driver.state(), DriverState::Ticking);
    }
}

#[test]
fn slow_iteration_is_followed_at_once() {
    let log = TerminationLog::new();
    let mut driver = looping(Some(ms(100)), SuspensionStrategy::BlockingSleep);
    assert_eq!(driver.begin_iteration(&log), Directive::Tick);
    assert_eq!(driver.end_iteration_after(&log, ms(100)), Directive::Poll);
    assert_eq!(driver.begin_iteration(&log), Directive::Tick);
    assert_eq!(driver.end_iteration_after(&log, ms(180)), Directive::Poll);
}

#[test]
fn no_interval_never_suspends_when_blocking() {
    let log = TerminationLog::new();
    let mut driver = looping(None, SuspensionStrategy::BlockingSleep);
    for elapsed in [Duration::ZERO, ms(1), ms(500)] {
        assert_eq!(driver.begin_iteration(&log), Directive::Tick);
        assert_eq!(driver.end_iteration_after(&log, elapsed), Directive::Poll);
    }
}

#[test]
fn no_interval_still_yields_when_cooperative() {
    let log = TerminationLog::new();
    let mut driver = looping(None, SuspensionStrategy::CooperativeReschedule);
    for elapsed in [Duration::ZERO, ms(1), ms(500)] {
        assert_eq!(driver.begin_iteration(&log), Directive::Tick);
        assert_eq!(driver.end_iteration_after(&log, elapsed), Directive::Suspend(ms(1)));
        assert_eq!(driver.resume(), Directive::Poll);
    }
}

#[test]
fn cooperative_waits_for_what_is_left_when_that_is_longer() {
    let log = TerminationLog::new();
    let mut driver = looping(Some(ms(50)), SuspensionStrategy::CooperativeReschedule);
    assert_eq!(driver.begin_iteration(&log), Directive::Tick);
    assert_eq!(driver.end_iteration_after(&log, ms(20)), Directive::Suspend(ms(30)));
    driver.resume();
    assert_eq!(driver.begin_iteration(&log), Directive::Tick);
    assert_eq!(driver.end_iteration_after(&log, ms(70)), Directive::Suspend(ms(1)));
}

#[test]
fn request_posted_during_tick_is_seen_at_the_next_poll() {
    let mut log = TerminationLog::new();
    let mut driver = looping(None, SuspensionStrategy::BlockingSleep);
    assert_eq!(driver.begin_iteration(&log), Directive::Tick);
    log.post(TerminationReason::Normal);
    assert_eq!(driver.directive(), Directive::Tick);
    assert_eq!(driver.begin_iteration(&log), Directive::Tick);
    assert_eq!(driver.resume(), Directive::Tick);
    assert_eq!(driver.consumed(), 0);
    assert_eq!(driver.state(), DriverState::Ticking);
    let stop = Directive::Stop(Outcome::RequestedExit(TerminationReason::Normal));
    assert_eq!(driver.end_iteration(&log), stop);
    assert_eq!(driver.consumed(), 1);
    assert_eq!(driver.begin_iteration(&log), stop);
}

#[test]
fn request_posted_between_iterations_skips_the_tick() {
    let mut log = TerminationLog::new();
    let mut driver = looping(Some(ms(10)), SuspensionStrategy::BlockingSleep);
    assert_eq!(driver.begin_iteration(&log), Directive::Tick);
    assert_eq!(driver.end_iteration_after(&log, ms(4)), Directive::Suspend(ms(6)));
    log.post(TerminationReason::Failure(2));
    assert_eq!(driver.resume(), Directive::Poll);
    assert_eq!(
        driver.begin_iteration(&log),
        Directive::Stop(Outcome::RequestedExit(TerminationReason::Failure(2)))
    );
}

#[test]
fn last_of_several_requests_is_the_outcome() {
    let mut log = TerminationLog::new();
    let mut driver = looping(None, SuspensionStrategy::BlockingSleep);
    assert_eq!(driver.begin_iteration(&log), Directive::Tick);
    log.post(TerminationReason::Normal);
    log.post(TerminationReason::Failure(5));
    assert_eq!(
        driver.end_iteration_after(&log, ms(1)),
        Directive::Stop(Outcome::RequestedExit(TerminationReason::Failure(5)))
    );
    assert_eq!(driver.consumed(), 2);
}

#[test]
fn tick_fault_ends_the_run() {
    let log = TerminationLog::new();
    let mut driver = looping(None, SuspensionStrategy::BlockingSleep);
    assert_eq!(driver.tick_faulted(), Directive::Poll);
    assert_eq!(driver.begin_iteration(&log), Directive::Tick);
    assert_eq!(driver.tick_faulted(), Directive::Stop(Outcome::TickFault));
    assert_eq!(driver.begin_iteration(&log), Directive::Stop(Outcome::TickFault));
    assert_eq!(driver.end_iteration(&log), Directive::Stop(Outcome::TickFault));
    assert_eq!(driver.outcome(), Some(Outcome::TickFault));
}

#[test]
fn steps_out_of_turn_change_nothing() {
    let log = TerminationLog::new();
    let mut driver = looping(Some(ms(10)), SuspensionStrategy::BlockingSleep);
    assert_eq!(driver.end_iteration(&log), Directive::Poll);
    assert_eq!(driver.resume(), Directive::Poll);
    assert_eq!(driver.state(), DriverState::NotStarted);
    driver.begin_iteration(&log);
    assert_eq!(driver.end_iteration_after(&log, ms(3)), Directive::Suspend(ms(7)));
    assert_eq!(driver.begin_iteration(&log), Directive::Suspend(ms(7)));
    assert_eq!(driver.end_iteration(&log), Directive::Suspend(ms(7)));
    assert_eq!(driver.tick_faulted(), Directive::Suspend(ms(7)));
}

#[test]
fn begin_iteration_at_takes_the_given_start() {
    let log = TerminationLog::new();
    let mut driver = looping(Some(ms(3_600_000)), SuspensionStrategy::BlockingSleep);
    let start = Instant::now();
    assert_eq!(driver.begin_iteration_at(&log, start), Directive::Tick);
    match driver.end_iteration(&log) {
        Directive::Suspend(left) => {
            assert!(left <= ms(3_600_000));
            assert!(left > ms(3_500_000));
        }
        other => panic!("unexpected directive {:?}", other),
    }
}

#[test]
fn outcome_success() {
    assert!(Outcome::Completed.is_success());
    assert!(Outcome::RequestedExit(TerminationReason::Normal).is_success());
    assert!(!Outcome::RequestedExit(TerminationReason::Failure(0)).is_success());
    assert!(!Outcome::RequestedExit(TerminationReason::Failure(3)).is_success());
    assert!(!Outcome::TickFault.is_success());
}

#[test]
fn three_ticks_then_normal_exit_with_two_waits() {
    let mut log = TerminationLog::new();
    let mut driver = looping(Some(ms(50)), SuspensionStrategy::BlockingSleep);
    let mut counter = 0;
    let mut waited = Duration::ZERO;
    let mut waits = 0;
    let outcome = loop {
        match driver.begin_iteration(&log) {
            Directive::Tick => {}
            Directive::Stop(outcome) => break outcome,
            other => panic!("unexpected directive {:?}", other),
        }
        counter += 1;
        if counter == 3 {
            log.post(TerminationReason::Normal);
        }
        match driver.end_iteration_after(&log, ms(5)) {
            Directive::Suspend(delay) => {
                waits += 1;
                waited += ms(5) + delay;
                driver.resume();
            }
            Directive::Stop(outcome) => break outcome,
            other => panic!("unexpected directive {:?}", other),
        }
    };
    assert_eq!(counter, 3);
    assert_eq!(outcome, Outcome::RequestedExit(TerminationReason::Normal));
    assert_eq!(waits, 2);
    assert!(waited >= ms(100));
}

#[test]
fn exit_code_is_zero_on_success_only() {
    assert_eq!(Outcome::Completed.exit_code(), 0);
    assert_eq!(Outcome::RequestedExit(TerminationReason::Normal).exit_code(), 0);
    assert_eq!(Outcome::RequestedExit(TerminationReason::Failure(3)).exit_code(), 3);
    assert_eq!(Outcome::RequestedExit(TerminationReason::Failure(255)).exit_code(), 255);
    assert_eq!(Outcome::RequestedExit(TerminationReason::Failure(0)).exit_code(), 1);
    assert_eq!(Outcome::TickFault.exit_code(), 1);
}
