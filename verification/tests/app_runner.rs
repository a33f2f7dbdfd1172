use bevy_app::{App, AppExit};
use bevy_ecs::event::EventWriter;
use bevy_ecs::system::{Local, ResMut, Resource};
use schedule_runner::{
    Directive, DriverState, Outcome, RunMode, ScheduleRunner, ScheduleRunnerPlugin,
    ScheduleRunnerSettings, SuspensionStrategy, TerminationReason,
};
use std::time::Duration;

struct Updates(u32);

impl Resource for Updates {}

fn count_update(mut updates: ResMut<Updates>) {
    updates.0 += 1;
}

fn exit_on_third_update(mut seen: Local<u32>, mut exits: EventWriter<AppExit>) {
    *seen += 1;
    if *seen == 3 {
        exits.send(AppExit);
    }
}

fn counting_app() -> App {
    let mut app = App::new();
    app.insert_resource(Updates(0));
    app.add_system(count_update);
    app
}

/// One turn of the loop as a host takes it: the app is updated where the
/// runner asks for a tick.
fn turn(runner: &mut ScheduleRunner, app: &mut App) -> Directive {
    match runner.begin_tick(app) {
        Directive::Tick => {
            app.update();
            runner.end_tick(app)
        }
        other => other,
    }
}

fn updates(app: &App) -> u32 {
    app.world.resource::<Updates>().0
}

#[test]
fn new_runner_has_not_started() {
    let settings = ScheduleRunnerSettings::run_loop(Duration::from_millis(5));
    let runner = ScheduleRunnerPlugin.runner(settings, SuspensionStrategy::BlockingSleep);
    assert_eq!(runner.driver().state(), DriverState::NotStarted);
    assert!(runner.log().is_empty());
    assert!(matches!(runner.driver().mode(), RunMode::Loop { wait: Some(_) }));
}

#[test]
fn once_updates_the_app_a_single_time() {
    let mut app = counting_app();
    let mut runner = ScheduleRunnerPlugin
        .runner(ScheduleRunnerSettings::run_once(), SuspensionStrategy::BlockingSleep);
    assert_eq!(turn(&mut runner, &mut app), Directive::Stop(Outcome::Completed));
    assert_eq!(updates(&app), 1);
    assert_eq!(turn(&mut runner, &mut app), Directive::Stop(Outcome::Completed));
    assert_eq!(updates(&app), 1);
}

#[test]
fn loop_runs_until_the_app_asks_to_exit() {
    let mut app = counting_app();
    app.add_system(exit_on_third_update);
    let settings = ScheduleRunnerSettings::run_loop(Duration::from_millis(50));
    let mut runner = ScheduleRunnerPlugin.runner(settings, SuspensionStrategy::BlockingSleep);
    let mut suspensions = 0;
    let outcome = loop {
        match turn(&mut runner, &mut app) {
            Directive::Suspend(delay) => {
                assert!(delay <= Duration::from_millis(50));
                assert!(delay > Duration::ZERO);
                suspensions += 1;
            }
            Directive::Stop(outcome) => break outcome,
            other => panic!("unexpected directive {:?}", other),
        }
        assert!(updates(&app) < 10);
    };
    assert_eq!(updates(&app), 3);
    assert_eq!(suspensions, 2);
    assert_eq!(outcome, Outcome::RequestedExit(TerminationReason::Normal));
    assert!(outcome.is_success());
    assert_eq!(runner.log().len(), 1);
    assert_eq!(runner.driver().consumed(), 1);
}

#[test]
fn exit_event_sent_before_the_first_tick_skips_the_update() {
    let mut app = counting_app();
    app.add_event::<AppExit>();
    app.world.send_event(AppExit);
    let mut runner = ScheduleRunnerPlugin
        .runner(ScheduleRunnerSettings::default(), SuspensionStrategy::BlockingSleep);
    assert_eq!(
        turn(&mut runner, &mut app),
        Directive::Stop(Outcome::RequestedExit(TerminationReason::Normal))
    );
    assert_eq!(updates(&app), 0);
}

#[test]
fn posted_failure_stops_the_run_before_the_next_update() {
    let mut app = counting_app();
    let mut runner = ScheduleRunnerPlugin
        .runner(ScheduleRunnerSettings::default(), SuspensionStrategy::BlockingSleep);
    assert_eq!(turn(&mut runner, &mut app), Directive::Poll);
    assert_eq!(updates(&app), 1);
    runner.post(TerminationReason::Failure(2));
    let outcome = Outcome::RequestedExit(TerminationReason::Failure(2));
    assert_eq!(turn(&mut runner, &mut app), Directive::Stop(outcome));
    assert_eq!(updates(&app), 1);
    assert!(!outcome.is_success());
}

#[test]
fn cooperative_runner_yields_after_every_update() {
    let mut app = counting_app();
    let mut runner = ScheduleRunnerPlugin
        .runner(ScheduleRunnerSettings::default(), SuspensionStrategy::CooperativeReschedule);
    for expected in 1..=4 {
        assert_eq!(turn(&mut runner, &mut app), Directive::Suspend(Duration::from_millis(1)));
        assert_eq!(updates(&app), expected);
    }
}

#[test]
fn app_without_exit_events_never_asks_to_exit() {
    let mut app = App::empty();
    app.add_default_schedules();
    let mut runner = ScheduleRunnerPlugin
        .runner(ScheduleRunnerSettings::default(), SuspensionStrategy::BlockingSleep);
    for _ in 0..3 {
        assert_eq!(turn(&mut runner, &mut app), Directive::Poll);
    }
    assert!(runner.log().is_empty());
}

#[test]
fn noted_exit_event_becomes_a_normal_request() {
    let mut runner = ScheduleRunnerPlugin
        .runner(ScheduleRunnerSettings::default(), SuspensionStrategy::BlockingSleep);
    runner.note_exit_event(None);
    assert!(runner.log().is_empty());
    runner.note_exit_event(Some(AppExit));
    assert_eq!(runner.log().len(), 1);
    assert_eq!(runner.log().get(0), Some(TerminationReason::Normal));
    runner.note_exit_event(None);
    assert_eq!(runner.log().len(), 1);
    assert_eq!(runner.driver().state(), DriverState::NotStarted);
}

#[test]
fn second_poll_of_the_app_finds_nothing() {
    let mut app = App::new();
    app.world.send_event(AppExit);
    app.world.send_event(AppExit);
    let mut runner = ScheduleRunnerPlugin
        .runner(ScheduleRunnerSettings::default(), SuspensionStrategy::BlockingSleep);
    runner.check_for_app_exit_events(&app);
    assert_eq!(runner.log().len(), 1);
    assert_eq!(runner.log().get(0), Some(TerminationReason::Normal));
    runner.check_for_app_exit_events(&app);
    assert_eq!(runner.log().len(), 1);
    app.world.send_event(AppExit);
    runner.check_for_app_exit_events(&app);
    assert_eq!(runner.log().len(), 2);
}

#[test]
fn poll_of_an_app_without_exit_events_changes_nothing() {
    let app = App::empty();
    let mut runner = ScheduleRunnerPlugin
        .runner(ScheduleRunnerSettings::default(), SuspensionStrategy::BlockingSleep);
    runner.check_for_app_exit_events(&app);
    runner.check_for_app_exit_events(&app);
    assert!(runner.log().is_empty());
}

#[test]
fn dropped_exit_events_are_not_polled() {
    let mut app = App::new();
    app.world.send_event(AppExit);
    app.update();
    app.update();
    let mut runner = ScheduleRunnerPlugin
        .runner(ScheduleRunnerSettings::default(), SuspensionStrategy::BlockingSleep);
    runner.check_for_app_exit_events(&app);
    assert!(runner.log().is_empty());
}

#[test]
fn begin_tick_asks_for_the_update_and_end_tick_ends_the_iteration() {
    let mut app = counting_app();
    let settings = ScheduleRunnerSettings::run_loop(Duration::from_secs(3600));
    let mut runner = ScheduleRunnerPlugin.runner(settings, SuspensionStrategy::BlockingSleep);
    assert_eq!(runner.begin_tick(&app), Directive::Tick);
    assert_eq!(updates(&app), 0);
    assert_eq!(runner.begin_tick(&app), Directive::Tick);
    app.update();
    match runner.end_tick(&app) {
        Directive::Suspend(delay) => {
            assert!(delay <= Duration::from_secs(3600));
            assert!(delay > Duration::from_secs(3500));
        }
        other => panic!("unexpected directive {:?}", other),
    }
    assert_eq!(runner.end_tick(&app), runner.driver().directive());
    assert_eq!(runner.begin_tick(&app), Directive::Tick);
}

#[test]
fn faulted_update_ends_the_run() {
    let app = counting_app();
    let mut runner = ScheduleRunnerPlugin
        .runner(ScheduleRunnerSettings::default(), SuspensionStrategy::BlockingSleep);
    assert_eq!(runner.tick_faulted(), Directive::Poll);
    assert_eq!(runner.begin_tick(&app), Directive::Tick);
    assert_eq!(runner.tick_faulted(), Directive::Stop(Outcome::TickFault));
    assert_eq!(runner.begin_tick(&app), Directive::Stop(Outcome::TickFault));
    assert_eq!(runner.end_tick(&app), Directive::Stop(Outcome::TickFault));
}
