//! The driver at work on a bevy `App`: every `AppExit` event of the app is a
//! termination request, and the host updates the app where a [`Directive`]
//! asks for a tick.
//!
//! The app's `Events<AppExit>` and the `ManualEventReader` that follows them
//! are opaque to the verifier. What this module proves of a poll goes through
//! three numbers: how many events the reader counts as read
//! ([`exits_read`]), how many the app was ever sent ([`exits_sent`]), and the
//! number of the oldest one that the app still holds ([`exits_kept_from`]).
//! Events are numbered from zero in the order in which they were sent.
use crate::driver::{Directive, DriverModel, LoopDriver};
use crate::exit::{TerminationLog, TerminationReason};
use crate::run_mode::ScheduleRunnerSettings;
use crate::suspension::SuspensionStrategy;
use bevy_app::{App, AppExit};
use bevy_ecs::event::{Events, ManualEventReader};
use bevy_utils::Instant;
use vstd::prelude::*;

verus! {

/// `bevy_app::App`, held as an opaque value.
#[verifier::external_type_specification]
#[verifier::external_body]
pub struct ExApp(App);

/// `bevy_app::AppExit`, the event by which an app asks to exit. It is a
/// unit struct and carries no reason.
#[verifier::external_type_specification]
#[verifier::external_body]
pub struct ExAppExit(AppExit);

/// A `ManualEventReader<AppExit>`: the position up to which the `AppExit`
/// events of an app have been read.
#[verifier::external_body]
pub struct ExitEventReader {
    inner: ManualEventReader<AppExit>,
}

/// The number of events that the reader counts as read: the
/// `last_event_count` of the `ManualEventReader`.
pub uninterp spec fn exits_read(reader: ExitEventReader) -> nat;

/// The number of `AppExit` events that the app was ever sent: the
/// `event_count` of its `Events<AppExit>` resource. `None` where the app has
/// no such resource.
pub uninterp spec fn exits_sent(app: App) -> Option<nat>;

/// The number of the oldest `AppExit` event that the app still holds, which
/// is what `Events::oldest_event_count` returns: events are numbered from
/// zero in the order in which they were sent, and the app drops the older
/// ones as it is updated.
pub uninterp spec fn exits_kept_from(app: App) -> nat;

/// Whether `app` holds an `AppExit` event that a reader which counts `read`
/// events as read has still to read: one that was sent, is numbered `read` or
/// higher, and has not been dropped.
pub open spec fn exits_unread(read: nat, app: App) -> bool {
    exits_sent(app) matches Some(sent) && read < sent && exits_kept_from(app) < sent
}

/// Where a reader that counted `read` events as read stands after it has read
/// `app`'s events to the end: at the number of events sent. Without the
/// resource it stays where it was.
pub open spec fn exits_read_after(read: nat, app: App) -> nat {
    match exits_sent(app) {
        Some(sent) => sent,
        None => read,
    }
}

impl ExitEventReader {
    /// `ManualEventReader::default`: a reader that has read nothing.
    #[verifier::external_body]
    pub(crate) fn new() -> (reader: Self)
        ensures
            exits_read(reader) == 0,
    {
        ExitEventReader { inner: ManualEventReader::default() }
    }

    /// `ManualEventReader::iter` on the app's `Events<AppExit>` resource,
    /// taken to its last item. There is an item exactly when the app holds an
    /// event that the reader has not read, and the reader then stands at the
    /// number of events sent, whether there was an item or not. An app
    /// without the resource gives nothing and leaves the reader as it was.
    #[verifier::external_body]
    pub(crate) fn last_unread(&mut self, app: &App) -> (exit: Option<AppExit>)
        ensures
            exit is Some <==> (exits_sent(*app) matches Some(sent) && exits_read(*old(self)) < sent
                && exits_kept_from(*app) < sent),
            exits_read(*final(self)) == (match exits_sent(*app) {
                Some(sent) => sent,
                None => exits_read(*old(self)),
            }),
    {
        app.world.get_resource::<Events<AppExit>>().and_then(
            |events| self.inner.iter(events).last().cloned(),
        )
    }
}

/// Configures an app to run its schedule according to the
/// [`RunMode`](crate::RunMode) of its [`ScheduleRunnerSettings`].
#[derive(Default)]
pub struct ScheduleRunnerPlugin;

impl ScheduleRunnerPlugin {
    /// The runner that the plugin installs for `settings` on a host that
    /// suspends by `strategy`: its driver has not started, its log is empty
    /// and its reader has read nothing.
    pub fn runner(&self, settings: ScheduleRunnerSettings, strategy: SuspensionStrategy) -> (runner:
        ScheduleRunner)
        ensures
            runner@ == (RunnerModel {
                driver: DriverModel::initial(settings.run_mode@, strategy),
                log: Seq::<TerminationReason>::empty(),
                read: 0,
            }),
    {
        ScheduleRunner {
            driver: LoopDriver::new(settings.run_mode, strategy),
            log: TerminationLog::new(),
            reader: ExitEventReader::new(),
        }
    }
}

/// A driver together with the termination log it reads and the reader that
/// feeds the log from an app's `AppExit` events.
pub struct ScheduleRunner {
    driver: LoopDriver,
    log: TerminationLog,
    reader: ExitEventReader,
}

/// A [`ScheduleRunner`] as a mathematical value.
pub struct RunnerModel {
    /// The driver.
    pub driver: DriverModel,
    /// The termination log.
    pub log: Seq<TerminationReason>,
    /// The number of the app's exit events that the reader counts as read.
    pub read: nat,
}

impl RunnerModel {
    /// The runner after it has taken note of what a poll gave: where the app
    /// has asked to exit, the log is longer by one normal request.
    pub open spec fn noted(self, asked: bool) -> RunnerModel {
        if asked {
            RunnerModel { log: self.log.push(TerminationReason::Normal), ..self }
        } else {
            self
        }
    }

    /// The runner after a poll of `app`'s exit events: where the app holds
    /// an event that the reader has not read, the log is longer by one
    /// normal request, and the reader has read all that the app was sent.
    pub open spec fn polled(self, app: App) -> RunnerModel {
        RunnerModel {
            read: exits_read_after(self.read, app),
            ..self.noted(exits_unread(self.read, app))
        }
    }

    /// The runner after the first half of a turn of the loop that begins at
    /// the instant `start`: a suspension is over, the app's exit events are
    /// polled, and the driver begins an iteration on the log as the poll
    /// leaves it.
    pub open spec fn begun(self, app: App, start: Instant) -> RunnerModel {
        RunnerModel {
            driver: self.driver.resume().begin(self.polled(app).log, start),
            ..self.polled(app)
        }
    }

    /// The runner after the second half of a turn of the loop, where the
    /// clock reads `now` once the poll is done: the app's exit events are
    /// polled, and the driver ends the iteration on the log as the poll
    /// leaves it.
    pub open spec fn ended(self, app: App, now: Instant) -> RunnerModel {
        RunnerModel {
            driver: self.driver.end_at(self.polled(app).log, now),
            ..self.polled(app)
        }
    }
}

impl View for ScheduleRunner {
    type V = RunnerModel;

    closed spec fn view(&self) -> RunnerModel {
        RunnerModel { driver: self.driver@, log: self.log@, read: exits_read(self.reader) }
    }
}

impl ScheduleRunner {
    /// The driver.
    pub fn driver(&self) -> (driver: &LoopDriver)
        ensures
            driver@ == self@.driver,
    {
        &self.driver
    }

    /// The termination log.
    pub fn log(&self) -> (log: &TerminationLog)
        ensures
            log@ == self@.log,
    {
        &self.log
    }

    /// Appends a request to the termination log. Besides the app's `AppExit`
    /// events, which arrive as [`TerminationReason::Normal`], any component
    /// may post one.
    pub fn post(&mut self, reason: TerminationReason)
        ensures
            final(self)@ == (RunnerModel { log: old(self)@.log.push(reason), ..old(self)@ }),
    {
        self.log.post(reason);
    }

    /// Takes note of what a poll of an app's `AppExit` events gave: an event
    /// is posted to the log as a normal request, since it carries no reason,
    /// and without an event nothing changes.
    pub fn note_exit_event(&mut self, exit: Option<AppExit>)
        ensures
            final(self)@ == old(self)@.noted(exit is Some),
    {
        match exit {
            Some(_exit) => {
                self.log.post(TerminationReason::Normal);
            },
            None => {},
        }
    }

    /// Polls the app's `AppExit` events: where the app holds one that the
    /// reader has not read, a normal request is posted to the log. The reader
    /// has then read all of them, so a second poll of the same app finds
    /// nothing.
    pub fn check_for_app_exit_events(&mut self, app: &App)
        ensures
            final(self)@ == old(self)@.polled(*app),
    {
        let exit = self.reader.last_unread(app);
        self.note_exit_event(exit);
    }

    /// The first half of a turn of the loop, before the app is updated: ends
    /// a suspension if there is one, reads the clock, polls the app's exit
    /// events and begins an iteration. Where the directive is
    /// [`Directive::Tick`] the host updates the app and calls
    /// [`end_tick`](ScheduleRunner::end_tick).
    pub fn begin_tick(&mut self, app: &App) -> (next: Directive)
        ensures
            exists|start: Instant| final(self)@ == old(self)@.begun(*app, start),
            next@ == final(self)@.driver.directive(),
    {
        self.driver.resume();
        let start = Instant::now();
        self.check_for_app_exit_events(app);
        let next = self.driver.begin_iteration_at(&self.log, start);
        assert(self@ == old(self)@.begun(*app, start));
        next
    }

    /// The second half of a turn of the loop, after the app was updated:
    /// polls the app's exit events and ends the iteration, which reads the
    /// clock if the run goes on. Where no tick is running, only the poll
    /// takes place.
    pub fn end_tick(&mut self, app: &App) -> (next: Directive)
        ensures
            old(self)@.driver.stage is InFlight ==> exists|now: Instant|
                final(self)@ == old(self)@.ended(*app, now),
            !(old(self)@.driver.stage is InFlight) ==> final(self)@ == old(self)@.polled(*app),
            next@ == final(self)@.driver.directive(),
    {
        self.check_for_app_exit_events(app);
        let next = self.driver.end_iteration(&self.log);
        proof {
            if old(self)@.driver.stage is InFlight {
                let now = choose|now: Instant|
                    self@.driver == old(self)@.driver.end_at(self@.log, now);
                assert(self@ == old(self)@.ended(*app, now));
            }
        }
        next
    }

    /// Records that the update of the app faulted, which ends the run.
    pub fn tick_faulted(&mut self) -> (next: Directive)
        ensures
            final(self)@ == (RunnerModel { driver: old(self)@.driver.fault(), ..old(self)@ }),
            next@ == final(self)@.driver.directive(),
    {
        self.driver.tick_faulted()
    }
}

/// A second poll of the same app finds nothing: it leaves the runner as the
/// first poll left it.
pub proof fn law_second_poll_is_empty(runner: RunnerModel, app: App)
    ensures
        !exits_unread(runner.polled(app).read, app),
        runner.polled(app).polled(app) == runner.polled(app),
{
}

/// However many events the app was sent between two polls, the next poll
/// posts a single request and the reader passes all of them.
pub proof fn law_poll_passes_all_unread(runner: RunnerModel, app: App)
    requires
        exits_unread(runner.read, app),
    ensures
        runner.polled(app).log == runner.log.push(TerminationReason::Normal),
        exits_sent(app) == Some(runner.polled(app).read),
        runner.polled(app).driver == runner.driver,
{
}

/// A poll never shortens the log and never touches the driver.
pub proof fn law_poll_only_appends(runner: RunnerModel, app: App)
    ensures
        runner.log.is_prefix_of(runner.polled(app).log),
        runner.polled(app).driver == runner.driver,
{
}

} // verus!
